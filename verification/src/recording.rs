//! Session recordings: asciicast v2 event lines, the stored rows of
//! recordings and their share links, and the recording settings.
use vstd::prelude::*;
use vstd::string::*;
use vstd::utf8::{valid_utf8, decode_utf8};

use crate::auth::{hex_char, six_digits};
use crate::order::{lex_lt, strictly_sorted};
use crate::text::{decimal, joined, owned, push_decimal, push_char, str_eq};

verus! {

/// How `serde_json` writes one character inside a string literal: a
/// quote, a backslash and the control characters are escaped (the five
/// with a short form as `\b \t \n \f \r`, the others as `\u00` and two
/// lower-case hex digits); every other character is written as it is.
pub open spec fn json_escape_char(c: char) -> Seq<char> {
    if c == '"' {
        seq!['\\', '"']
    } else if c == '\\' {
        seq!['\\', '\\']
    } else if c == '\u{8}' {
        seq!['\\', 'b']
    } else if c == '\t' {
        seq!['\\', 't']
    } else if c == '\n' {
        seq!['\\', 'n']
    } else if c == '\u{c}' {
        seq!['\\', 'f']
    } else if c == '\r' {
        seq!['\\', 'r']
    } else if (c as u32) < 0x20 {
        seq!['\\', 'u', '0', '0', hex_char((c as u32 / 16) as nat), hex_char((c as u32 % 16) as nat)]
    } else {
        seq![c]
    }
}

/// Each character of `s`, escaped.
pub open spec fn json_escaped(s: Seq<char>) -> Seq<char>
    decreases s.len(),
{
    if s.len() == 0 {
        Seq::empty()
    } else {
        json_escape_char(s[0]) + json_escaped(s.drop_first())
    }
}

/// The JSON string literal `serde_json` writes for a text: the escaped
/// text in double quotes.
pub open spec fn json_quoted(s: Seq<char>) -> Seq<char> {
    seq!['"'] + json_escaped(s) + seq!['"']
}

/// `serde_json::to_string` of a string slice (`format_escaped_str`).
/// Serialising a `str` cannot fail: the crate documents failure only for
/// a `Serialize` impl that fails or for maps with non-string keys.
#[verifier::external_body]
fn json_string(s: &str) -> (r: String)
    ensures
        r@ == json_quoted(s@),
{
    serde_json::to_string(s).unwrap_or_default()
}

/// The text `serde_json` writes for an object of string fields.
pub uninterp spec fn json_object_text(fields: Seq<(Seq<char>, Seq<char>)>) -> Seq<char>;

pub open spec fn field_views(v: Seq<(String, String)>) -> Seq<(Seq<char>, Seq<char>)> {
    v.map_values(|p: (String, String)| (p.0@, p.1@))
}

pub open spec fn field_keys(v: Seq<(Seq<char>, Seq<char>)>) -> Seq<Seq<char>> {
    v.map_values(|p: (Seq<char>, Seq<char>)| p.0)
}

/// One `"key":"value"` member of a compact object.
pub open spec fn json_member(f: (Seq<char>, Seq<char>)) -> Seq<char> {
    json_quoted(f.0) + seq![':'] + json_quoted(f.1)
}

/// A compact object whose members come in the order given.
pub open spec fn json_members(fields: Seq<(Seq<char>, Seq<char>)>) -> Seq<char> {
    seq!['{'] + joined(fields.map_values(|f: (Seq<char>, Seq<char>)| json_member(f)), seq![',']) + seq!['}']
}

/// `serde_json::to_string` of a `serde_json::Map` of string values. The
/// map (without the `preserve_order` feature) is a `BTreeMap`, so its
/// members are written in increasing key order; keys given already in
/// that order are written as given.
#[verifier::external_body]
fn json_object(fields: &Vec<(String, String)>) -> (r: String)
    ensures
        r@ == json_object_text(field_views(fields@)),
        strictly_sorted(field_keys(field_views(fields@))) ==> r@ == json_members(field_views(fields@)),
{
    let map: serde_json::Map<String, serde_json::Value> = fields
        .iter()
        .map(|(k, v)| (k.clone(), serde_json::Value::String(v.clone())))
        .collect();
    serde_json::to_string(&map).unwrap_or_default()
}

/// The text `String::from_utf8_lossy` makes of some bytes.
pub uninterp spec fn lossy_text(b: Seq<u8>) -> Seq<char>;

/// `String::from_utf8_lossy`: the bytes decoded as UTF-8, each invalid
/// sequence replaced by U+FFFD; valid UTF-8 decodes unchanged.
#[verifier::external_body]
fn utf8_lossy(bytes: &[u8]) -> (r: String)
    ensures
        r@ == lossy_text(bytes@),
        valid_utf8(bytes@) ==> r@ == decode_utf8(bytes@),
{
    String::from_utf8_lossy(bytes).into_owned()
}

/// What happens in a recorded session. `Stop` only ends the writer and
/// is never written.
#[derive(Debug, Clone)]
pub enum RecordingEvent {
    Output(Vec<u8>),
    Resize { cols: u16, rows: u16 },
    ParticipantJoin { user_id: String, name: String, role: String },
    ParticipantLeave { user_id: String },
    Chat { user_id: String, name: String, text: String },
    Stop,
}

/// Elapsed time in seconds with six decimals.
pub open spec fn elapsed_text(micros: nat) -> Seq<char> {
    decimal(micros / 1_000_000) + "."@ + six_digits(micros % 1_000_000)
}

/// The event's code and payload, as they follow the time in its line.
pub open spec fn event_payload(e: RecordingEvent) -> Seq<char> {
    match e {
        RecordingEvent::Output(data) => "\"o\", "@ + json_quoted(lossy_text(data@)),
        RecordingEvent::Resize { cols, rows } => "\"r\", \""@ + decimal(cols as nat) + "x"@
            + decimal(rows as nat) + "\""@,
        RecordingEvent::ParticipantJoin { user_id, name, role } => "\"j\", "@ + json_members(
            seq![("name"@, name@), ("role"@, role@), ("user_id"@, user_id@)],
        ),
        RecordingEvent::ParticipantLeave { user_id } => "\"l\", "@ + json_members(
            seq![("user_id"@, user_id@)],
        ),
        RecordingEvent::Chat { user_id, name, text } => "\"c\", "@ + json_members(
            seq![("name"@, name@), ("text"@, text@), ("user_id"@, user_id@)],
        ),
        RecordingEvent::Stop => Seq::empty(),
    }
}

/// One asciicast v2 line: `[time, code, payload]`.
pub open spec fn asciicast_line(e: RecordingEvent, micros: nat) -> Seq<char> {
    "["@ + elapsed_text(micros) + ", "@ + event_payload(e) + "]"@
}

fn digit6(d: u64) -> (c: char)
    requires
        d < 10,
    ensures
        c == crate::text::digit_char(d as nat),
{
    if d == 0 { '0' }
    else if d == 1 { '1' }
    else if d == 2 { '2' }
    else if d == 3 { '3' }
    else if d == 4 { '4' }
    else if d == 5 { '5' }
    else if d == 6 { '6' }
    else if d == 7 { '7' }
    else if d == 8 { '8' }
    else { '9' }
}

fn push_elapsed(s: &mut String, micros: u64)
    ensures
        final(s)@ == old(s)@ + elapsed_text(micros as nat),
{
    push_decimal(s, micros / 1_000_000);
    push_char(s, '.');
    let f = micros % 1_000_000;
    push_char(s, digit6((f / 100000) % 10));
    push_char(s, digit6((f / 10000) % 10));
    push_char(s, digit6((f / 1000) % 10));
    push_char(s, digit6((f / 100) % 10));
    push_char(s, digit6((f / 10) % 10));
    push_char(s, digit6(f % 10));
    proof {
        reveal_strlit(".");
        assert(final(s)@ =~= old(s)@ + elapsed_text(micros as nat));
    }
}

fn push_object(s: &mut String, fields: &Vec<(String, String)>)
    requires
        strictly_sorted(field_keys(field_views(fields@))),
    ensures
        final(s)@ == old(s)@ + json_members(field_views(fields@)),
{
    let o = json_object(fields);
    s.append(o.as_str());
}

/// Builds the fields (name, value) of a payload object.
fn field(key: &str, value: &String) -> (f: (String, String))
    ensures
        f.0@ == key@,
        f.1@ == value@,
{
    (owned(key), value.clone())
}

proof fn lemma_member_keys_sorted()
    ensures
        strictly_sorted(seq!["name"@, "role"@, "user_id"@]),
        strictly_sorted(seq!["name"@, "text"@, "user_id"@]),
        strictly_sorted(seq!["user_id"@]),
{
    reveal_strlit("name");
    reveal_strlit("role");
    reveal_strlit("text");
    reveal_strlit("user_id");
    assert(lex_lt("name"@, "role"@));
    assert(lex_lt("role"@, "user_id"@));
    assert(lex_lt("name"@, "user_id"@));
    assert(lex_lt("name"@, "text"@));
    assert(lex_lt("text"@, "user_id"@));
}

impl RecordingEvent {
    /// The event as one line of an asciicast v2 file, `micros` after the
    /// recording began.
    pub fn to_asciicast_line(&self, micros: u64) -> (line: String)
        requires
            !(self is Stop),
        ensures
            line@ == asciicast_line(*self, micros as nat),
            match *self {
                RecordingEvent::Output(d) => valid_utf8(d@) ==> line@ == "["@ + elapsed_text(micros as nat)
                    + ", "@ + ("\"o\", "@ + json_quoted(decode_utf8(d@))) + "]"@,
                _ => true,
            },
    {
        let mut s = "[".to_owned();
        push_elapsed(&mut s, micros);
        s.append(", ");
        let ghost before = s@;
        match self {
            RecordingEvent::Output(data) => {
                s.append("\"o\", ");
                let text = utf8_lossy(data.as_slice());
                proof {
                    if valid_utf8(data@) {
                        assert(lossy_text(data@) == decode_utf8(data@));
                    }
                }
                let q = json_string(text.as_str());
                s.append(q.as_str());
            },
            RecordingEvent::Resize { cols, rows } => {
                s.append("\"r\", \"");
                push_decimal(&mut s, *cols as u64);
                s.append("x");
                push_decimal(&mut s, *rows as u64);
                s.append("\"");
            },
            RecordingEvent::ParticipantJoin { user_id, name, role } => {
                s.append("\"j\", ");
                let mut fields: Vec<(String, String)> = Vec::new();
                fields.push(field("name", name));
                fields.push(field("role", role));
                fields.push(field("user_id", user_id));
                proof {
                    lemma_member_keys_sorted();
                    assert(field_views(fields@) =~= seq![("name"@, name@), ("role"@, role@), ("user_id"@, user_id@)]);
                    assert(field_keys(field_views(fields@)) =~= seq!["name"@, "role"@, "user_id"@]);
                }
                push_object(&mut s, &fields);
            },
            RecordingEvent::ParticipantLeave { user_id } => {
                s.append("\"l\", ");
                let mut fields: Vec<(String, String)> = Vec::new();
                fields.push(field("user_id", user_id));
                proof {
                    lemma_member_keys_sorted();
                    assert(field_views(fields@) =~= seq![("user_id"@, user_id@)]);
                    assert(field_keys(field_views(fields@)) =~= seq!["user_id"@]);
                }
                push_object(&mut s, &fields);
            },
            RecordingEvent::Chat { user_id, name, text } => {
                s.append("\"c\", ");
                let mut fields: Vec<(String, String)> = Vec::new();
                fields.push(field("name", name));
                fields.push(field("text", text));
                fields.push(field("user_id", user_id));
                proof {
                    lemma_member_keys_sorted();
                    assert(field_views(fields@) =~= seq![("name"@, name@), ("text"@, text@), ("user_id"@, user_id@)]);
                    assert(field_keys(field_views(fields@)) =~= seq!["name"@, "text"@, "user_id"@]);
                }
                push_object(&mut s, &fields);
            },
            RecordingEvent::Stop => {},
        }
        assert(s@ =~= before + event_payload(*self));
        s.append("]");
        assert(s@ =~= asciicast_line(*self, micros as nat));
        s
    }
}

/// The state of a recording row.
#[derive(Debug, Clone, Copy, PartialEq, Eq, Structural)]
pub enum RecordingStatus {
    Recording,
    Completed,
    Failed,
}

pub open spec fn recording_status_name(st: RecordingStatus) -> Seq<char> {
    match st {
        RecordingStatus::Recording => "recording"@,
        RecordingStatus::Completed => "completed"@,
        RecordingStatus::Failed => "failed"@,
    }
}

impl RecordingStatus {
    /// The name stored in the `status` column.
    pub fn as_str(&self) -> (s: &'static str)
        ensures
            s@ == recording_status_name(*self),
    {
        match self {
            RecordingStatus::Recording => "recording",
            RecordingStatus::Completed => "completed",
            RecordingStatus::Failed => "failed",
        }
    }

    /// Reads a stored name back.
    pub fn parse(s: &str) -> (r: Option<RecordingStatus>)
        ensures
            r matches Some(st) ==> recording_status_name(st) == s@,
            r is None <==> (forall|st: RecordingStatus| recording_status_name(st) != s@),
    {
        let r = if str_eq(s, "recording") {
            Some(RecordingStatus::Recording)
        } else if str_eq(s, "completed") {
            Some(RecordingStatus::Completed)
        } else if str_eq(s, "failed") {
            Some(RecordingStatus::Failed)
        } else {
            None
        };
        proof {
            if let Some(st) = r {
                assert(recording_status_name(st) == s@);
            } else {
                assert forall|st: RecordingStatus| recording_status_name(st) != s@ by {
                    match st {
                        RecordingStatus::Recording => {},
                        RecordingStatus::Completed => {},
                        RecordingStatus::Failed => {},
                    }
                }
            }
        }
        r
    }
}

/// Distinct states have distinct stored names, so a stored name reads
/// back as the state that wrote it.
pub proof fn lemma_recording_status_name_injective(a: RecordingStatus, b: RecordingStatus)
    ensures
        recording_status_name(a) == recording_status_name(b) ==> a == b,
{
    reveal_strlit("recording");
    reveal_strlit("completed");
    reveal_strlit("failed");
    if recording_status_name(a) == recording_status_name(b) {
        assert(recording_status_name(a).len() == recording_status_name(b).len());
        assert(recording_status_name(a)[0] == recording_status_name(b)[0]);
    }
}

/// A row of `recordings`. Times are RFC 3339 text, as stored.
#[derive(Debug, Clone)]
pub struct RecordingRow {
    pub id: String,
    pub session_id: String,
    pub status: String,
    pub file_path: Option<String>,
    pub file_size: i64,
    pub duration_ms: Option<i64>,
    pub width: i64,
    pub height: i64,
    pub event_count: i64,
    pub started_at: String,
    pub completed_at: Option<String>,
    pub expires_at: Option<String>,
    pub created_by: String,
}

/// A row of `recording_shares`: a share link, kept as the digest of its
/// token. `max_uses` of 0 means unlimited.
#[derive(Debug, Clone)]
pub struct RecordingShareRow {
    pub token_sha256: String,
    pub recording_id: String,
    pub max_uses: i64,
    pub used_count: i64,
    pub expires_at: Option<String>,
    pub created_at: String,
}

} // verus!
