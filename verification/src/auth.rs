//! Credentials: bearer tokens (stored only as SHA-256 digests), guest
//! names, one-time codes and password hashes.
use vstd::prelude::*;
use vstd::string::*;
use vstd::utf8::is_ascii_chars;

use argon2::password_hash::rand_core::{OsRng, RngCore};
use argon2::password_hash::SaltString;
use argon2::{Argon2, PasswordHash, PasswordHasher, PasswordVerifier};
use sha2::{Digest, Sha256};

use crate::error::Error;
use crate::session::{Timestamp, UserId};
use crate::text::{push_char, digit_char, owned};

verus! {

/// The lower-case hex SHA-256 digest of the UTF-8 bytes of a token.
pub uninterp spec fn sha256_hex(raw: Seq<char>) -> Seq<char>;

pub open spec fn is_lower_hex(c: char) -> bool {
    ('0' <= c && c <= '9') || ('a' <= c && c <= 'f')
}

/// SHA-256 of `raw`'s bytes, hex-encoded by `hex::encode`: 32 bytes give
/// 64 lower-case hex digits.
#[verifier::external_body]
fn sha256_hex_digest(raw: &str) -> (h: String)
    ensures
        h@ == sha256_hex(raw@),
        h@.len() == 64,
        forall|i: int| 0 <= i < 64 ==> is_lower_hex(#[trigger] h@[i]),
{
    hex::encode(Sha256::digest(raw.as_bytes()))
}

/// The alphabet of generated identifiers (`nanoid::alphabet::SAFE`).
pub open spec fn is_id_char(c: char) -> bool {
    c == '_' || c == '-' || ('0' <= c && c <= '9') || ('a' <= c && c <= 'z') || ('A' <= c && c <= 'Z')
}

/// A random identifier of `size` characters drawn by
/// `nanoid::format` from the `SAFE` alphabet with the default
/// (cryptographic) generator. Only its length and alphabet are known.
#[verifier::external_body]
fn random_id(size: usize) -> (s: String)
    requires
        0 < size <= 1_000_000,
    ensures
        s@.len() == size,
        forall|i: int| 0 <= i < s@.len() ==> is_id_char(#[trigger] s@[i]),
{
    nanoid::format(nanoid::rngs::default, &nanoid::alphabet::SAFE, size)
}

/// A random 32-bit number from the operating system's generator
/// (`OsRng::next_u32`). Nothing is known of its value.
#[verifier::external_body]
fn random_u32() -> (n: u32) {
    OsRng.next_u32()
}

/// The hex SHA-256 digest of a raw token: the only representation of a
/// token the database keeps.
pub fn token_sha256(raw: &str) -> (h: String)
    ensures
        h@ == sha256_hex(raw@),
        h@.len() == 64,
        is_ascii_chars(h@),
{
    let h = sha256_hex_digest(raw);
    proof {
        assert forall|i: int| 0 <= i < h@.len() implies is_ascii_char(#[trigger] h@[i]) by {
            assert(is_lower_hex(h@[i]));
        }
    }
    h
}

pub open spec fn is_ascii_char(c: char) -> bool {
    (c as u32) < 128
}

/// A fresh bearer token and its digest: 32 random identifier characters
/// (about 190 bits).
pub fn generate_token() -> (r: (String, String))
    ensures
        r.0@.len() == 32,
        forall|i: int| 0 <= i < 32 ==> is_id_char(#[trigger] r.0@[i]),
        r.1@ == sha256_hex(r.0@),
{
    let raw = random_id(32);
    let digest = token_sha256(raw.as_str());
    (raw, digest)
}

/// A random guest name: `guest-` and eight identifier characters.
pub fn random_guest_name() -> (name: String)
    ensures
        name@.len() == 14,
        name@.take(6) == "guest-"@,
        forall|i: int| 6 <= i < 14 ==> is_id_char(#[trigger] name@[i]),
{
    let suffix = random_id(8);
    let mut name = owned("guest-");
    name.append(suffix.as_str());
    proof {
        reveal_strlit("guest-");
        assert(name@.take(6) =~= "guest-"@);
    }
    name
}

/// A random identifier of `size` characters (session ids, recording ids,
/// share tokens).
pub fn new_id(size: usize) -> (s: String)
    requires
        0 < size <= 1_000_000,
    ensures
        s@.len() == size,
        forall|i: int| 0 <= i < s@.len() ==> is_id_char(#[trigger] s@[i]),
{
    random_id(size)
}

/// `n` as exactly six decimal digits, zero-padded (`format!("{n:06}")`
/// for `n < 1_000_000`).
pub open spec fn six_digits(n: nat) -> Seq<char> {
    seq![
        digit_char((n / 100000) % 10),
        digit_char((n / 10000) % 10),
        digit_char((n / 1000) % 10),
        digit_char((n / 100) % 10),
        digit_char((n / 10) % 10),
        digit_char(n % 10),
    ]
}

fn digit(d: u32) -> (c: char)
    requires
        d < 10,
    ensures
        c == digit_char(d as nat),
{
    if d == 0 { '0' }
    else if d == 1 { '1' }
    else if d == 2 { '2' }
    else if d == 3 { '3' }
    else if d == 4 { '4' }
    else if d == 5 { '5' }
    else if d == 6 { '6' }
    else if d == 7 { '7' }
    else if d == 8 { '8' }
    else { '9' }
}

/// The one-time code for a random number: its value below one million,
/// as six digits.
pub fn otp_from(n: u32) -> (code: String)
    ensures
        code@ == six_digits((n % 1_000_000) as nat),
{
    let v = n % 1_000_000;
    let mut s = String::new();
    push_char(&mut s, digit((v / 100000) % 10));
    push_char(&mut s, digit((v / 10000) % 10));
    push_char(&mut s, digit((v / 1000) % 10));
    push_char(&mut s, digit((v / 100) % 10));
    push_char(&mut s, digit((v / 10) % 10));
    push_char(&mut s, digit(v % 10));
    assert(s@ =~= six_digits(v as nat));
    s
}

/// A fresh random six-digit one-time code.
pub fn generate_otp() -> (code: String)
    ensures
        exists|n: nat| n < 1_000_000 && code@ == #[trigger] six_digits(n),
{
    let n = random_u32();
    let code = otp_from(n);
    assert(code@ == six_digits((n % 1_000_000) as nat));
    code
}

/// `hash` is a PHC string that `PasswordHash::new` parses.
pub uninterp spec fn phc_parses(hash: Seq<char>) -> bool;

/// Argon2 (default parameters) accepts `password` for the PHC string
/// `hash`: recomputing with the salt and parameters in `hash` gives its
/// output.
pub uninterp spec fn argon2_accepts(password: Seq<char>, hash: Seq<char>) -> bool;

/// The longest password, in characters, whose UTF-8 encoding surely
/// fits Argon2's limit of `0xFFFF_FFFF` password bytes (a character takes
/// at most four bytes).
pub const MAX_HASHABLE_PASSWORD_CHARS: u64 = 1_073_741_823;

/// Hashes a password with Argon2id and a fresh random salt
/// (`SaltString::generate` with `OsRng`, then `hash_password`). The
/// result is a PHC string which verifies the same password, since
/// verification recomputes the hash with the salt and parameters the
/// string carries. With the default parameters and a generated
/// 16-byte salt, the only error `hash_password` can return is
/// `PwdTooLong`, for a password of more than `0xFFFF_FFFF` bytes; a
/// password within `MAX_HASHABLE_PASSWORD_CHARS` characters is always
/// hashed.
#[verifier::external_body]
fn argon2_hash(password: &str) -> (r: Result<String, Error>)
    ensures
        r matches Ok(h) ==> phc_parses(h@) && argon2_accepts(password@, h@),
        r matches Err(e) ==> e is Internal,
        password@.len() <= MAX_HASHABLE_PASSWORD_CHARS ==> r is Ok,
{
    let salt = SaltString::generate(&mut OsRng);
    Argon2::default()
        .hash_password(password.as_bytes(), &salt)
        .map(|h| h.to_string())
        .map_err(|e| Error::Internal(format!("password hash failed: {e}")))
}

/// Checks a password against a stored PHC string: `PasswordHash::new`
/// parses it, then `Argon2::default().verify_password` recomputes.
#[verifier::external_body]
fn argon2_verify(password: &str, hash: &str) -> (r: Result<(), Error>)
    ensures
        match r {
            Ok(()) => phc_parses(hash@) && argon2_accepts(password@, hash@),
            Err(e) => !(phc_parses(hash@) && argon2_accepts(password@, hash@)) && if phc_parses(hash@) {
                e matches Error::Auth(m) && m@ == "invalid credentials"@
            } else {
                e is Internal
            },
        },
{
    let parsed = PasswordHash::new(hash)
        .map_err(|e| Error::Internal(format!("bad password hash in DB: {e}")))?;
    Argon2::default()
        .verify_password(password.as_bytes(), &parsed)
        .map_err(|_| Error::Auth("invalid credentials".to_string()))
}

/// Hashes a password for storage.
pub fn hash_password(password: &str) -> (r: Result<String, Error>)
    ensures
        r matches Ok(h) ==> phc_parses(h@) && argon2_accepts(password@, h@),
        r matches Err(e) ==> e is Internal,
        password@.len() <= MAX_HASHABLE_PASSWORD_CHARS ==> r is Ok,
{
    argon2_hash(password)
}

/// Verifies a password against its stored hash.
pub fn verify_password(password: &str, hash: &str) -> (r: Result<(), Error>)
    ensures
        r is Ok <==> phc_parses(hash@) && argon2_accepts(password@, hash@),
        r matches Err(e) ==> if phc_parses(hash@) {
            e matches Error::Auth(m) && m@ == "invalid credentials"@
        } else {
            e is Internal
        },
{
    argon2_verify(password, hash)
}

/// The current time (`chrono::Utc::now`), in microseconds since the
/// epoch. Nothing is known of its value.
#[verifier::external_body]
fn clock_now() -> (t: Timestamp) {
    chrono::Utc::now().timestamp_micros()
}

/// The current time.
pub fn now() -> (t: Timestamp) {
    clock_now()
}

/// Unicode lower-case mapping of a string (`str::to_lowercase`).
pub uninterp spec fn lowercase(s: Seq<char>) -> Seq<char>;

#[verifier::external_body]
fn to_lowercase(s: &str) -> (r: String)
    ensures
        r@ == lowercase(s@),
{
    s.to_lowercase()
}

/// Email addresses are compared and stored lower-cased.
pub fn normalize_email(email: &str) -> (r: String)
    ensures
        r@ == lowercase(email@),
{
    to_lowercase(email)
}

/// The lower-case hex digit of a number below sixteen.
pub open spec fn hex_char(d: nat) -> char {
    if d < 10 {
        digit_char(d)
    } else if d == 10 {
        'a'
    } else if d == 11 {
        'b'
    } else if d == 12 {
        'c'
    } else if d == 13 {
        'd'
    } else if d == 14 {
        'e'
    } else {
        'f'
    }
}

/// The last `n` hex digits of `v`, most significant first.
pub open spec fn hex_digits(v: nat, n: nat) -> Seq<char>
    decreases n,
{
    if n == 0 {
        Seq::empty()
    } else {
        hex_digits(v / 16, (n - 1) as nat) + seq![hex_char(v % 16)]
    }
}

proof fn lemma_hex_digits_len(v: nat, n: nat)
    ensures
        hex_digits(v, n).len() == n,
    decreases n,
{
    if n > 0 {
        lemma_hex_digits_len(v / 16, (n - 1) as nat);
    }
}

/// The hyphenated lower-case form of a UUID (8-4-4-4-12 hex digits).
pub open spec fn uuid_text(v: u128) -> Seq<char> {
    let d = hex_digits(v as nat, 32);
    d.subrange(0, 8) + "-"@ + d.subrange(8, 12) + "-"@ + d.subrange(12, 16) + "-"@ + d.subrange(16, 20) + "-"@ + d.subrange(20, 32)
}

fn hex_of(d: u128) -> (c: char)
    requires
        d < 16,
    ensures
        c == hex_char(d as nat),
{
    if d == 0 { '0' }
    else if d == 1 { '1' }
    else if d == 2 { '2' }
    else if d == 3 { '3' }
    else if d == 4 { '4' }
    else if d == 5 { '5' }
    else if d == 6 { '6' }
    else if d == 7 { '7' }
    else if d == 8 { '8' }
    else if d == 9 { '9' }
    else if d == 10 { 'a' }
    else if d == 11 { 'b' }
    else if d == 12 { 'c' }
    else if d == 13 { 'd' }
    else if d == 14 { 'e' }
    else { 'f' }
}

fn push_hex_digits(s: &mut Vec<char>, v: u128, n: usize)
    ensures
        final(s)@ == old(s)@ + hex_digits(v as nat, n as nat),
    decreases n,
{
    if n > 0 {
        push_hex_digits(s, v / 16, n - 1);
        s.push(hex_of(v % 16));
        assert(s@ =~= old(s)@ + hex_digits(v as nat, n as nat));
    } else {
        assert(s@ =~= old(s)@ + hex_digits(v as nat, n as nat));
    }
}

/// The hyphenated text of a user id.
pub fn user_id_text(id: UserId) -> (s: String)
    ensures
        s@ == uuid_text(id.0),
{
    let mut d: Vec<char> = Vec::new();
    push_hex_digits(&mut d, id.0, 32);
    assert(d@ =~= hex_digits(id.0 as nat, 32));
    proof {
        lemma_hex_digits_len(id.0 as nat, 32);
    }
    let mut s = String::new();
    let mut i: usize = 0;
    while i < 32
        invariant
            d@ == hex_digits(id.0 as nat, 32),
            d@.len() == 32,
            i <= 32,
            s@ == uuid_text(id.0).take((i + if i > 8 { 1int } else { 0int } + if i > 12 { 1int } else { 0int } + if i > 16 { 1int } else { 0int } + if i > 20 { 1int } else { 0int })),
        decreases 32 - i,
    {
        if i == 8 || i == 12 || i == 16 || i == 20 {
            push_char(&mut s, '-');
        }
        push_char(&mut s, d[i]);
        proof {
            reveal_strlit("-");
        }
        assert(s@ =~= uuid_text(id.0).take((i + 1 + if i + 1 > 8 { 1int } else { 0int } + if i + 1 > 12 { 1int } else { 0int } + if i + 1 > 16 { 1int } else { 0int } + if i + 1 > 20 { 1int } else { 0int })));
        i = i + 1;
    }
    assert(uuid_text(id.0).len() == 36) by {
        reveal_strlit("-");
    }
    assert(s@ =~= uuid_text(id.0));
    s
}

/// The 128-bit value `Uuid::parse_str` reads from a text, if it reads one.
pub uninterp spec fn uuid_parsed(s: Seq<char>) -> Option<u128>;

/// `uuid::Uuid::parse_str`, read as a user id. The hyphenated lower-case
/// form the crate writes (`uuid_text`) is among the forms it reads.
#[verifier::external_body]
fn parse_uuid(s: &str) -> (r: Option<UserId>)
    ensures
        r == match uuid_parsed(s@) {
            Some(v) => Some(UserId(v)),
            None => None::<UserId>,
        },
        forall|v: u128| s@ == uuid_text(v) ==> r == Some(UserId(v)),
{
    uuid::Uuid::parse_str(s).ok().map(|u| UserId(u.as_u128()))
}

/// Reads a user id written as a UUID.
pub fn parse_user_id(s: &str) -> (r: Option<UserId>)
    ensures
        r == match uuid_parsed(s@) {
            Some(v) => Some(UserId(v)),
            None => None::<UserId>,
        },
        forall|v: u128| s@ == uuid_text(v) ==> r == Some(UserId(v)),
{
    parse_uuid(s)
}

} // verus!
