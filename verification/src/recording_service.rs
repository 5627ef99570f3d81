//! Recording rules: when a session is recorded, where its file lives,
//! when it expires, which recordings may be deleted, and how share links
//! are minted and used up.
use vstd::prelude::*;
use vstd::string::*;

use crate::auth::{generate_token, is_id_char, new_id, sha256_hex, token_sha256};
use crate::error::Error;
use crate::order::{lex_lt, str_lt};
use crate::recording::{RecordingRow, RecordingShareRow};
use crate::session::Timestamp;
use crate::text::{owned, str_eq};

verus! {

/// Microseconds in a day.
pub const MICROS_PER_DAY: i64 = 86_400_000_000;

/// `base` joined with a relative path, as `Path::join` does on Unix: a
/// separator is inserted unless `base` is empty or already ends in one.
pub open spec fn path_join(base: Seq<char>, rel: Seq<char>) -> Seq<char> {
    if base.len() == 0 {
        rel
    } else if base.last() == '/' {
        base + rel
    } else {
        base + "/"@ + rel
    }
}

/// Joins a relative path onto a directory.
pub fn join_path(base: &str, rel: &str) -> (p: String)
    ensures
        p@ == path_join(base@, rel@),
{
    let n = base.unicode_len();
    let mut p = owned(base);
    if n > 0 && base.get_char(n - 1) != '/' {
        p.append("/");
    }
    p.append(rel);
    proof {
        reveal_strlit("/");
        if n > 0 {
            assert(base@.last() == base@[n - 1]);
        }
        assert(p@ =~= path_join(base@, rel@));
    }
    p
}

/// Recording settings.
#[derive(Debug, Clone)]
pub struct RecordingConfig {
    /// The server-wide switch.
    pub enabled: bool,
    /// Days a finished recording is kept; 0 keeps it for ever.
    pub ttl_days: u32,
    /// Directory of the `.cast` files.
    pub dir: String,
}

impl RecordingConfig {
    /// The defaults for a user whose home directory is `home`: disabled,
    /// kept thirty days, files under `~/.telepair/recordings`.
    pub fn for_home(home: &str) -> (c: RecordingConfig)
        ensures
            !c.enabled,
            c.ttl_days == 30,
            c.dir@ == path_join(path_join(home@, ".telepair"@), "recordings"@),
    {
        let d = join_path(home, ".telepair");
        RecordingConfig { enabled: false, ttl_days: 30, dir: join_path(d.as_str(), "recordings") }
    }
}

/// Whether a session is recorded: the server switch decides, and a
/// session may only opt out.
pub open spec fn records(enabled: bool, session_override: Option<bool>) -> bool {
    match session_override {
        Some(v) => v && enabled,
        None => enabled,
    }
}

/// When a recording made at `now` expires: `None` (never) for a TTL of
/// zero days.
pub open spec fn expiry(ttl_days: u32, now: Timestamp) -> Option<int> {
    if ttl_days == 0 {
        None
    } else {
        Some(now + ttl_days * MICROS_PER_DAY)
    }
}

/// The name of a recording's file: its id with `.cast`.
pub open spec fn cast_file_name(id: Seq<char>) -> Seq<char> {
    id + ".cast"@
}

fn cast_name(id: &str) -> (s: String)
    ensures
        s@ == cast_file_name(id@),
{
    let mut s = owned(id);
    s.append(".cast");
    s
}

/// What a new recording is created with.
#[derive(Debug, Clone)]
pub struct NewRecording {
    pub id: String,
    /// The file name, relative to the recordings directory.
    pub file_path: String,
    pub expires_at: Option<Timestamp>,
}

/// The metadata of an asciicast v2 file.
#[derive(Debug, Clone)]
pub struct AsciicastHeader {
    pub version: u8,
    pub width: u16,
    pub height: u16,
    /// Start time, in whole seconds since the epoch.
    pub timestamp: i64,
    /// A map of variables: no name occurs twice.
    pub env: Vec<(String, String)>,
    /// The `telepair` object: which session and recording this is.
    pub telepair: Vec<(String, String)>,
}

/// Whole seconds of a time in microseconds, rounded down.
pub open spec fn seconds_of(t: Timestamp) -> int {
    (t as int) / 1_000_000
}

fn floor_seconds(t: Timestamp) -> (s: i64)
    ensures
        s == seconds_of(t),
{
    if t >= 0 {
        t / 1_000_000
    } else {
        let a: u64 = (0i128 - t as i128) as u64;
        let c: u64 = (a + 999_999) / 1_000_000;
        assert((t as int) / 1_000_000 == -(c as int)) by (nonlinear_arith)
            requires
                a == -t,
                a > 0,
                c == (a + 999_999) / 1_000_000,
        ;
        0 - c as i64
    }
}

/// The recording rules, for one configuration.
pub struct RecordingService {
    config: RecordingConfig,
}

impl RecordingService {
    pub fn new(config: RecordingConfig) -> (s: RecordingService)
        ensures
            s.config_view() == config,
    {
        RecordingService { config }
    }

    pub closed spec fn config_view(&self) -> RecordingConfig {
        self.config
    }

    pub fn config(&self) -> (c: &RecordingConfig)
        ensures
            *c == self.config_view(),
    {
        &self.config
    }

    /// Whether to record a session, given its own wish if it has one.
    pub fn should_record(&self, session_override: Option<bool>) -> (b: bool)
        ensures
            b == records(self.config_view().enabled, session_override),
    {
        match session_override {
            Some(v) => v && self.config.enabled,
            None => self.config.enabled,
        }
    }

    /// The file of a recording: `<dir>/<id>.cast`.
    pub fn recording_file_path(&self, recording_id: &str) -> (p: String)
        ensures
            p@ == path_join(self.config_view().dir@, cast_file_name(recording_id@)),
    {
        let name = cast_name(recording_id);
        join_path(self.config.dir.as_str(), name.as_str())
    }

    /// When a recording started at `now` expires.
    pub fn compute_expires_at(&self, now: Timestamp) -> (e: Option<Timestamp>)
        requires
            expiry(self.config_view().ttl_days, now) matches Some(t) ==> i64::MIN <= t <= i64::MAX,
        ensures
            match expiry(self.config_view().ttl_days, now) {
                Some(t) => e == Some(t as i64),
                None => e is None,
            },
    {
        if self.config.ttl_days == 0 {
            None
        } else {
            let days = self.config.ttl_days as i128;
            assert(days * 86_400_000_000 <= 4_294_967_295 * 86_400_000_000) by (nonlinear_arith)
                requires
                    0 <= days <= 4_294_967_295,
            ;
            Some((now as i128 + days * 86_400_000_000) as i64)
        }
    }

    /// The header of a new recording file, started at `now`.
    pub fn build_header(
        &self,
        session_id: &str,
        recording_id: &str,
        width: u16,
        height: u16,
        now: Timestamp,
    ) -> (h: AsciicastHeader)
        ensures
            h.version == 2,
            h.width == width,
            h.height == height,
            h.timestamp == seconds_of(now),
            h.env@.len() == 2,
            h.env@[0].0@ == "SHELL"@ && h.env@[0].1@ == "/bin/bash"@,
            h.env@[1].0@ == "TERM"@ && h.env@[1].1@ == "xterm-256color"@,
            h.telepair@.len() == 2,
            h.telepair@[0].0@ == "session_id"@ && h.telepair@[0].1@ == session_id@,
            h.telepair@[1].0@ == "recording_id"@ && h.telepair@[1].1@ == recording_id@,
    {
        let mut env: Vec<(String, String)> = Vec::new();
        env.push((owned("SHELL"), owned("/bin/bash")));
        env.push((owned("TERM"), owned("xterm-256color")));
        let mut telepair: Vec<(String, String)> = Vec::new();
        telepair.push((owned("session_id"), owned(session_id)));
        telepair.push((owned("recording_id"), owned(recording_id)));
        AsciicastHeader {
            version: 2,
            width,
            height,
            timestamp: floor_seconds(now),
            env,
            telepair,
        }
    }

    /// Plans a new recording for a session that has no active one (the
    /// row of an active one, if any, is `active`): a fresh 21-character
    /// id, its file name and its expiry. A second active recording is a
    /// conflict that names the first.
    pub fn plan_recording(
        &self,
        session_id: &str,
        active: Option<RecordingRow>,
        now: Timestamp,
    ) -> (r: Result<NewRecording, Error>)
        requires
            expiry(self.config_view().ttl_days, now) matches Some(t) ==> i64::MIN <= t <= i64::MAX,
        ensures
            active is Some <==> r is Err,
            r matches Err(e) ==> e matches Error::Conflict(m) && m@ == "session "@ + session_id@
                + " already has an active recording: "@ + active->0.id@,
            r matches Ok(n) ==> {
                &&& n.id@.len() == 21
                &&& forall|i: int| 0 <= i < 21 ==> is_id_char(#[trigger] n.id@[i])
                &&& n.file_path@ == cast_file_name(n.id@)
                &&& match expiry(self.config_view().ttl_days, now) {
                    Some(t) => n.expires_at == Some(t as i64),
                    None => n.expires_at is None,
                }
            },
    {
        match active {
            Some(existing) => {
                let mut m = owned("session ");
                m.append(session_id);
                m.append(" already has an active recording: ");
                m.append(existing.id.as_str());
                Err(Error::Conflict(m))
            },
            None => {
                let id = new_id(21);
                let file_path = cast_name(id.as_str());
                let expires_at = self.compute_expires_at(now);
                Ok(NewRecording { id, file_path, expires_at })
            },
        }
    }

    /// Whether a recording may be deleted, and which file goes with it.
    /// A missing row is nothing to do (`Ok(None)`); a recording still
    /// being captured is a conflict; otherwise its file path.
    pub fn delete_plan(&self, id: &str, row: Option<RecordingRow>) -> (r: Result<Option<String>, Error>)
        ensures
            match row {
                None => r matches Ok(None),
                Some(x) => if x.status@ == "recording"@ {
                    r matches Err(e) && (e matches Error::Conflict(m) && m@ == "recording "@ + id@
                        + " is still being captured; stop it before deleting"@)
                } else {
                    r matches Ok(Some(p)) && p@ == path_join(self.config_view().dir@, cast_file_name(id@))
                },
            },
    {
        match row {
            None => Ok(None),
            Some(x) => {
                if str_eq(x.status.as_str(), "recording") {
                    let mut m = owned("recording ");
                    m.append(id);
                    m.append(" is still being captured; stop it before deleting");
                    Err(Error::Conflict(m))
                } else {
                    Ok(Some(self.recording_file_path(id)))
                }
            },
        }
    }
}

/// A share link is minted only for an existing recording.
pub fn share_target_check(recording_id: &str, row: &Option<RecordingRow>) -> (r: Result<(), Error>)
    ensures
        r is Ok <==> row is Some,
        r matches Err(e) ==> e matches Error::InvalidInput(m) && m@ == "recording not found: "@
            + recording_id@,
{
    match row {
        Some(_) => Ok(()),
        None => {
            let mut m = owned("recording not found: ");
            m.append(recording_id);
            Err(Error::InvalidInput(m))
        },
    }
}

/// A fresh share token: 32 random identifier characters, and the
/// digest under which it is stored.
pub fn mint_share_token() -> (r: (String, String))
    ensures
        r.0@.len() == 32,
        forall|i: int| 0 <= i < 32 ==> is_id_char(#[trigger] r.0@[i]),
        r.1@ == sha256_hex(r.0@),
{
    generate_token()
}

/// The digest a presented share token is looked up by.
pub fn share_digest(raw_token: &str) -> (h: String)
    ensures
        h@ == sha256_hex(raw_token@),
{
    token_sha256(raw_token)
}

/// A share link can be used for `recording_id` at `now` (both times
/// are RFC 3339 text, compared as the database compares them): it
/// belongs to that recording, has not expired, and has uses left
/// (`max_uses` 0 is unlimited).
pub open spec fn share_usable(s: RecordingShareRow, recording_id: Seq<char>, now: Seq<char>) -> bool {
    &&& s.recording_id@ == recording_id
    &&& (s.expires_at matches Some(e) ==> lex_lt(now, e@))
    &&& (s.max_uses == 0 || s.used_count < s.max_uses)
}

/// Checks a share link without using it up.
pub fn share_is_usable(s: &RecordingShareRow, recording_id: &str, now: &str) -> (b: bool)
    ensures
        b == share_usable(*s, recording_id@, now@),
{
    if !str_eq(s.recording_id.as_str(), recording_id) {
        return false;
    }
    let fresh = match &s.expires_at {
        Some(e) => str_lt(now, e.as_str()),
        None => true,
    };
    fresh && (s.max_uses == 0 || s.used_count < s.max_uses)
}

/// The share row after one use.
pub open spec fn share_used(s: RecordingShareRow) -> RecordingShareRow {
    RecordingShareRow { used_count: (s.used_count + 1) as i64, ..s }
}

/// Uses a share link up by one if it is usable; reports whether it was.
/// An unusable link is left unchanged.
pub fn consume_share(s: &mut RecordingShareRow, recording_id: &str, now: &str) -> (used: bool)
    requires
        old(s).used_count < i64::MAX,
    ensures
        used == share_usable(*old(s), recording_id@, now@),
        used ==> *final(s) == share_used(*old(s)),
        !used ==> *final(s) == *old(s),
{
    if share_is_usable(s, recording_id, now) {
        s.used_count = s.used_count + 1;
        true
    } else {
        false
    }
}

/// The answer to a presented share token: the used-up row, or one
/// error for every way of failing.
pub fn share_answer(consumed: Option<RecordingShareRow>) -> (r: Result<RecordingShareRow, Error>)
    ensures
        consumed matches Some(s) ==> (r matches Ok(t) && t == s),
        consumed is None ==> (r matches Err(e) && e matches Error::InvalidInput(m) && m@
            == "invalid, expired, or exhausted share token"@),
{
    match consumed {
        Some(s) => Ok(s),
        None => Err(Error::InvalidInput(owned("invalid, expired, or exhausted share token"))),
    }
}

/// A limited share link is never used more often than its limit: using
/// a usable link whose count was within the limit keeps it within.
pub proof fn lemma_share_respects_max_uses(s: RecordingShareRow, recording_id: Seq<char>, now: Seq<char>)
    requires
        share_usable(s, recording_id, now),
        s.max_uses > 0,
    ensures
        share_used(s).used_count <= share_used(s).max_uses,
{
}

/// A link of another recording, or an expired or exhausted link, is
/// never used.
pub proof fn lemma_foreign_or_dead_share_unusable(s: RecordingShareRow, recording_id: Seq<char>, now: Seq<char>)
    requires
        s.recording_id@ != recording_id || (s.expires_at matches Some(e) && !lex_lt(now, e@)) || (
        s.max_uses > 0 && s.used_count >= s.max_uses),
    ensures
        !share_usable(s, recording_id, now),
{
}

} // verus!
