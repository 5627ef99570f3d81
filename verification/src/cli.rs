//! The decisions of the admin command line: reading `--last` windows,
//! checking the fields of a new account, choosing its password, reading
//! `--type` and `--user` arguments, and fitting text into table columns.
use vstd::prelude::*;
use vstd::string::*;

use crate::audit::{audit_event_name, AuditEventType};
use crate::auth::{is_id_char, lowercase, new_id, normalize_email};
use crate::session::{Timestamp, UserId};
use crate::text::{
    chars_of, digits_value, is_ascii_digit, owned, string_of, string_of_range, trim_str, trimmed,
};


verus! {

/// `s` cut to at most `n` characters; a cut string ends in `…` and keeps
/// `n - 1` characters (none for `n = 0`).
pub open spec fn truncated(s: Seq<char>, n: nat) -> Seq<char> {
    if s.len() <= n {
        s
    } else {
        s.take(if n == 0 { 0 } else { n - 1 }).push('…')
    }
}

/// Fits a cell into a table column of `n` characters.
pub fn truncate(s: &str, n: usize) -> (r: String)
    ensures
        r@ == truncated(s@, n as nat),
{
    let v = chars_of(s);
    if v.len() <= n {
        return owned(s);
    }
    let keep = if n == 0 { 0 } else { n - 1 };
    let mut out: Vec<char> = Vec::new();
    let mut i: usize = 0;
    while i < keep
        invariant
            keep < v.len(),
            i <= keep,
            out@ == v@.take(i as int),
        decreases keep - i,
    {
        out.push(v[i]);
        assert(v@.take(i as int).push(v@[i as int]) =~= v@.take((i + 1) as int));
        i = i + 1;
    }
    out.push('…');
    string_of(&out)
}

/// The unit of a `--last` window.
#[derive(Debug, Clone, Copy, PartialEq, Eq, Structural)]
pub enum WindowUnit {
    Seconds,
    Minutes,
    Hours,
    Days,
}

/// A `--last` window: a positive number of units.
#[derive(Debug, Clone, Copy, PartialEq, Eq, Structural)]
pub struct LastWindow {
    pub amount: i64,
    pub unit: WindowUnit,
}

/// Index of the first character that is not an ASCII digit, if any.
pub open spec fn first_non_digit(t: Seq<char>) -> Option<int> {
    if exists|k: int| 0 <= k < t.len() && !is_ascii_digit(#[trigger] t[k]) {
        Some(choose|k: int| 0 <= k < t.len() && !is_ascii_digit(t[k]) && (forall|j: int| 0 <= j < k ==> is_ascii_digit(#[trigger] t[j])))
    } else {
        None
    }
}

pub open spec fn unit_of(u: Seq<char>) -> Option<WindowUnit> {
    if u == "s"@ {
        Some(WindowUnit::Seconds)
    } else if u == "m"@ {
        Some(WindowUnit::Minutes)
    } else if u == "h"@ {
        Some(WindowUnit::Hours)
    } else if u == "d"@ {
        Some(WindowUnit::Days)
    } else {
        None
    }
}

/// What `--last` means: after trimming, a run of digits with a positive
/// value that fits in an `i64`, then exactly one unit letter. Each way of
/// failing has its own message, which quotes the trimmed text.
pub open spec fn last_window_of(s: Seq<char>) -> Result<LastWindow, Seq<char>> {
    let t = trimmed(s);
    if t.len() == 0 {
        Err("--last value is empty; expected e.g. 1h, 24h, 7d"@)
    } else {
        match first_non_digit(t) {
            None => Err("--last value '"@ + t + "' missing unit (s|m|h|d)"@),
            Some(k) => if k == 0 || digits_value(t.take(k)) > i64::MAX {
                Err("--last numeric prefix must be a positive integer: "@ + t)
            } else if digits_value(t.take(k)) == 0 {
                Err("--last value must be positive: "@ + t)
            } else {
                match unit_of(t.skip(k)) {
                    Some(u) => Ok(LastWindow { amount: digits_value(t.take(k)) as i64, unit: u }),
                    None => Err("--last unit must be one of s|m|h|d, got '"@ + t.skip(k) + "'"@),
                }
            },
        }
    }
}

proof fn lemma_digits_value_push(d: Seq<char>, c: char)
    ensures
        digits_value(d.push(c)) == digits_value(d) * 10 + ((c as u32) - ('0' as u32)) as nat,
{
    assert(d.push(c).drop_last() =~= d);
}

/// Reads a `--last` window such as `30s`, `45m`, `24h` or `7d`. Signs,
/// compound forms like `1h30m` and a zero amount are refused.
pub fn parse_last_window(s: &str) -> (r: Result<LastWindow, String>)
    ensures
        match last_window_of(s@) {
            Ok(w) => r == Ok::<LastWindow, String>(w),
            Err(m) => r matches Err(x) && x@ == m,
        },
{
    let ts = trim_str(s);
    let t = chars_of(ts.as_str());
    let ghost tv = trimmed(s@);
    if t.len() == 0 {
        return Err(owned("--last value is empty; expected e.g. 1h, 24h, 7d"));
    }
    let mut k: usize = 0;
    let mut acc: u64 = 0;
    let mut overflow = false;
    while k < t.len() && '0' <= t[k] && t[k] <= '9'
        invariant
            k <= t@.len(),
            t@ == tv,
            forall|j: int| 0 <= j < k ==> is_ascii_digit(#[trigger] t@[j]),
            !overflow ==> acc == digits_value(t@.take(k as int)) && acc <= i64::MAX,
            overflow ==> digits_value(t@.take(k as int)) > i64::MAX,
        decreases t@.len() - k,
    {
        let d = (t[k] as u32 - '0' as u32) as u64;
        proof {
            lemma_digits_value_push(t@.take(k as int), t@[k as int]);
            assert(t@.take(k as int).push(t@[k as int]) =~= t@.take(k + 1));
        }
        if !overflow {
            if acc > (9_223_372_036_854_775_807u64 - d) / 10 {
                overflow = true;
            } else {
                acc = acc * 10 + d;
            }
        }
        k = k + 1;
    }
    if k == t.len() {
        proof {
            assert(first_non_digit(tv) is None);
        }
        let mut m = owned("--last value '");
        m.append(ts.as_str());
        m.append("' missing unit (s|m|h|d)");
        return Err(m);
    }
    proof {
        assert(!is_ascii_digit(tv[k as int]));
        let kk = choose|q: int| 0 <= q < tv.len() && !is_ascii_digit(tv[q]) && (forall|j: int| 0 <= j < q ==> is_ascii_digit(#[trigger] tv[j]));
        assert(0 <= k < tv.len() && !is_ascii_digit(tv[k as int]) && (forall|j: int| 0 <= j < k ==> is_ascii_digit(#[trigger] tv[j])));
        if kk < k {
            assert(is_ascii_digit(tv[kk]));
        }
        if kk > k {
            assert(is_ascii_digit(tv[k as int]));
        }
        assert(first_non_digit(tv) == Some(k as int));
    }
    if k == 0 || overflow {
        let mut m = owned("--last numeric prefix must be a positive integer: ");
        m.append(ts.as_str());
        return Err(m);
    }
    if acc == 0 {
        let mut m = owned("--last value must be positive: ");
        m.append(ts.as_str());
        return Err(m);
    }
    let unit_text = string_of_range(&t, k, t.len());
    proof {
        assert(t@.subrange(k as int, t@.len() as int) =~= tv.skip(k as int));
    }
    let unit = if unit_text.as_str().unicode_len() != 1 {
        None
    } else {
        let c = unit_text.as_str().get_char(0);
        proof {
            reveal_strlit("s");
            reveal_strlit("m");
            reveal_strlit("h");
            reveal_strlit("d");
            assert(unit_text@ =~= seq![c]);
        }
        if c == 's' {
            Some(WindowUnit::Seconds)
        } else if c == 'm' {
            Some(WindowUnit::Minutes)
        } else if c == 'h' {
            Some(WindowUnit::Hours)
        } else if c == 'd' {
            Some(WindowUnit::Days)
        } else {
            None
        }
    };
    proof {
        reveal_strlit("s");
        reveal_strlit("m");
        reveal_strlit("h");
        reveal_strlit("d");
        assert(unit_text@ == tv.skip(k as int));
        assert("s"@ =~= seq!['s']);
        assert("m"@ =~= seq!['m']);
        assert("h"@ =~= seq!['h']);
        assert("d"@ =~= seq!['d']);
        if unit_text@.len() == 1 {
            assert(unit_text@ =~= seq![unit_text@[0]]);
        }
        assert(unit == unit_of(tv.skip(k as int)));
    }
    match unit {
        Some(u) => Ok(LastWindow { amount: acc as i64, unit: u }),
        None => {
            let mut m = owned("--last unit must be one of s|m|h|d, got '");
            m.append(unit_text.as_str());
            m.append("'");
            Err(m)
        },
    }
}

/// The time span an audit listing covers.
#[derive(Debug, Clone, Copy, PartialEq, Eq, Structural)]
pub enum AuditWindow {
    /// A `--last` window, ending now.
    Last(LastWindow),
    /// The explicit `--since` / `--until` bounds; either may be open.
    Between(Option<Timestamp>, Option<Timestamp>),
    /// Nothing was asked for: the last 24 hours, ending now.
    LastDay,
}

/// `--last` wins over `--since` / `--until`; with none of them the
/// listing covers the last day.
pub open spec fn audit_window_of(
    last: Option<Seq<char>>,
    since: Option<Timestamp>,
    until: Option<Timestamp>,
) -> Result<AuditWindow, Seq<char>> {
    match last {
        Some(s) => match last_window_of(s) {
            Ok(w) => Ok(AuditWindow::Last(w)),
            Err(m) => Err(m),
        },
        None => if since is Some || until is Some {
            Ok(AuditWindow::Between(since, until))
        } else {
            Ok(AuditWindow::LastDay)
        },
    }
}

/// Chooses the window of an audit listing from its three options.
pub fn choose_audit_window(last: Option<&str>, since: Option<Timestamp>, until: Option<Timestamp>) -> (r: Result<
    AuditWindow,
    String,
>)
    ensures
        match audit_window_of(
            match last {
                Some(s) => Some(s@),
                None => None,
            },
            since,
            until,
        ) {
            Ok(w) => r == Ok::<AuditWindow, String>(w),
            Err(m) => r matches Err(x) && x@ == m,
        },
{
    match last {
        Some(s) => match parse_last_window(s) {
            Ok(w) => Ok(AuditWindow::Last(w)),
            Err(e) => Err(e),
        },
        None => if since.is_some() || until.is_some() {
            Ok(AuditWindow::Between(since, until))
        } else {
            Ok(AuditWindow::LastDay)
        },
    }
}

/// Microseconds in one unit of a `--last` window.
pub open spec fn unit_micros(u: WindowUnit) -> int {
    match u {
        WindowUnit::Seconds => 1_000_000,
        WindowUnit::Minutes => 60_000_000,
        WindowUnit::Hours => 3_600_000_000,
        WindowUnit::Days => 86_400_000_000,
    }
}

/// The length of a `--last` window, in microseconds.
pub open spec fn window_micros(w: LastWindow) -> int {
    w.amount * unit_micros(w.unit)
}

/// A `--last` window reaches back its amount of its unit and ends now:
/// a second is a million microseconds, a minute sixty seconds, an hour
/// sixty minutes, a day twenty-four hours. With no window asked for, the
/// listing reaches back one day.
pub proof fn lemma_window_reaches_back(amount: i64, now: int)
    ensures
        window_bounds_of(AuditWindow::Last(LastWindow { amount, unit: WindowUnit::Seconds }), now) == (
            Some(now - amount * 1_000_000),
            Some(now),
        ),
        window_bounds_of(AuditWindow::Last(LastWindow { amount, unit: WindowUnit::Minutes }), now) == (
            Some(now - amount * 60 * 1_000_000),
            Some(now),
        ),
        window_bounds_of(AuditWindow::Last(LastWindow { amount, unit: WindowUnit::Hours }), now) == (
            Some(now - amount * 60 * 60 * 1_000_000),
            Some(now),
        ),
        window_bounds_of(AuditWindow::Last(LastWindow { amount, unit: WindowUnit::Days }), now) == (
            Some(now - amount * 24 * 60 * 60 * 1_000_000),
            Some(now),
        ),
        window_bounds_of(AuditWindow::LastDay, now) == (Some(now - 24 * 60 * 60 * 1_000_000), Some(now)),
{
    assert(amount * 60 * 1_000_000 == amount * 60_000_000) by (nonlinear_arith);
    assert(amount * 60 * 60 * 1_000_000 == amount * 3_600_000_000) by (nonlinear_arith);
    assert(amount * 24 * 60 * 60 * 1_000_000 == amount * 86_400_000_000) by (nonlinear_arith);
}

/// Microseconds in the default audit window of one day.
pub const AUDIT_DEFAULT_WINDOW_MICROS: i64 = 86_400_000_000;

/// The bounds an audit window gives at time `now`: a `--last` window
/// and the default day both end now; explicit bounds are kept as given.
pub open spec fn window_bounds_of(w: AuditWindow, now: int) -> (Option<int>, Option<int>) {
    match w {
        AuditWindow::Last(l) => (Some(now - window_micros(l)), Some(now)),
        AuditWindow::Between(s, u) => (
            match s {
                Some(x) => Some(x as int),
                None => None,
            },
            match u {
                Some(x) => Some(x as int),
                None => None,
            },
        ),
        AuditWindow::LastDay => (Some(now - AUDIT_DEFAULT_WINDOW_MICROS), Some(now)),
    }
}

/// Microseconds in one unit of a `--last` window.
pub fn unit_micros_of(u: WindowUnit) -> (m: i64)
    ensures
        m == unit_micros(u),
{
    match u {
        WindowUnit::Seconds => 1_000_000,
        WindowUnit::Minutes => 60_000_000,
        WindowUnit::Hours => 3_600_000_000,
        WindowUnit::Days => 86_400_000_000,
    }
}

/// The `since` / `until` bounds of an audit listing at time `now`. The
/// start of a window must be a representable time.
pub fn window_bounds(w: &AuditWindow, now: Timestamp) -> (r: (Option<Timestamp>, Option<Timestamp>))
    requires
        w matches AuditWindow::Last(l) ==> i64::MIN <= now - window_micros(*l) <= i64::MAX,
        w is LastDay ==> i64::MIN <= now - AUDIT_DEFAULT_WINDOW_MICROS,
    ensures
        (match r.0 {
            Some(x) => Some(x as int),
            None => None,
        }) == window_bounds_of(*w, now as int).0,
        (match r.1 {
            Some(x) => Some(x as int),
            None => None,
        }) == window_bounds_of(*w, now as int).1,
{
    match w {
        AuditWindow::Last(l) => {
            let f = unit_micros_of(l.unit);
            let a = l.amount;
            assert(-9_223_372_036_854_775_808 * 86_400_000_000 <= a * f <= 9_223_372_036_854_775_807
                * 86_400_000_000) by (nonlinear_arith)
                requires
                    i64::MIN <= a <= i64::MAX,
                    1 <= f <= 86_400_000_000,
            ;
            let m: i128 = (a as i128) * (f as i128);
            let start: i128 = (now as i128) - m;
            (Some(start as i64), Some(now))
        },
        AuditWindow::Between(s, u) => (*s, *u),
        AuditWindow::LastDay => (Some(now - AUDIT_DEFAULT_WINDOW_MICROS), Some(now)),
    }
}

} // verus!

verus! {

/// The name of a new account, when none is given: the part of the
/// address before its first `@`.
pub open spec fn local_part(e: Seq<char>, d: Seq<char>) -> bool {
    &&& d.len() < e.len()
    &&& d == e.take(d.len() as int)
    &&& e[d.len() as int] == '@'
    &&& forall|j: int| 0 <= j < d.len() ==> e[j] != '@'
}

/// Checks the address and name of an account created from the command
/// line. The address is trimmed and lower-cased and must contain `@`; a
/// given name is trimmed and must not be empty; without one, the part of
/// the address before `@` is the name, which must not be empty.
pub fn new_account_fields(email: &str, name: &Option<String>) -> (r: Result<(String, String), String>)
    ensures
        ({
            let e = lowercase(trimmed(email@));
            if e.len() == 0 || !e.contains('@') {
                r matches Err(m) && m@ == "--email must be a non-empty address containing '@'"@
            } else {
                match name {
                    Some(n) => if trimmed(n@).len() == 0 {
                        r matches Err(m) && m@ == "--name, if provided, must be non-empty"@
                    } else {
                        r matches Ok((x, y)) && x@ == e && y@ == trimmed(n@)
                    },
                    None => match r {
                        Ok((x, y)) => x@ == e && y@.len() > 0 && local_part(e, y@),
                        Err(m) => m@ == "cannot derive display name from email '"@ + e + "'"@
                            && local_part(e, Seq::empty()),
                    },
                }
            }
        }),
{
    let t = trim_str(email);
    let e = normalize_email(t.as_str());
    let v = chars_of(e.as_str());
    let mut k: usize = 0;
    while k < v.len() && v[k] != '@'
        invariant
            k <= v@.len(),
            v@ == e@,
            forall|j: int| 0 <= j < k ==> v@[j] != '@',
        decreases v@.len() - k,
    {
        k = k + 1;
    }
    if v.len() == 0 || k == v.len() {
        proof {
            if v.len() > 0 {
                assert forall|j: int| 0 <= j < e@.len() implies e@[j] != '@' by {}
            }
        }
        return Err(owned("--email must be a non-empty address containing '@'"));
    }
    assert(e@.contains('@')) by {
        assert(e@[k as int] == '@');
    }
    match name {
        Some(n) => {
            let tn = trim_str(n.as_str());
            if tn.as_str().unicode_len() == 0 {
                return Err(owned("--name, if provided, must be non-empty"));
            }
            Ok((e, tn))
        },
        None => {
            let d = string_of_range(&v, 0, k);
            assert(d@ =~= e@.take(k as int));
            if k == 0 {
                let mut m = owned("cannot derive display name from email '");
                m.append(e.as_str());
                m.append("'");
                assert(local_part(e@, Seq::empty())) by {
                    assert(e@.take(0) =~= Seq::<char>::empty());
                }
                return Err(m);
            }
            Ok((e, d))
        },
    }
}

/// A text without its trailing line breaks (`\n` and `\r`).
pub open spec fn without_line_ends(s: Seq<char>) -> Seq<char>
    decreases s.len(),
{
    if s.len() > 0 && (s.last() == '\n' || s.last() == '\r') {
        without_line_ends(s.drop_last())
    } else {
        s
    }
}

/// Chooses the password of a new account: the contents of the password
/// file without trailing line breaks (`file` holds the file's displayed
/// path and its contents), else the inline one, else 16 fresh random
/// characters. The flag tells whether it was generated.
pub fn choose_password(file: Option<(String, String)>, inline: Option<String>) -> (r: Result<(String, bool), String>)
    ensures
        match file {
            Some((path, contents)) => if without_line_ends(contents@).len() == 0 {
                r matches Err(m) && m@ == "--password-file "@ + path@ + " is empty"@
            } else {
                r matches Ok((p, g)) && p@ == without_line_ends(contents@) && !g
            },
            None => match inline {
                Some(x) => if x@.len() == 0 {
                    r matches Err(m) && m@ == "--password must be non-empty"@
                } else {
                    r matches Ok((p, g)) && p@ == x@ && !g
                },
                None => r matches Ok((p, g)) && g && p@.len() == 16 && (forall|i: int|
                    0 <= i < 16 ==> is_id_char(#[trigger] p@[i])),
            },
        },
{
    match file {
        Some((path, contents)) => {
            let v = chars_of(contents.as_str());
            let mut hi: usize = v.len();
            assert(v@.take(v@.len() as int) =~= v@);
            while hi > 0 && (v[hi - 1] == '\n' || v[hi - 1] == '\r')
                invariant
                    hi <= v@.len(),
                    v@ == contents@,
                    without_line_ends(v@.take(hi as int)) == without_line_ends(contents@),
                decreases hi,
            {
                assert(v@.take(hi as int).drop_last() =~= v@.take(hi - 1));
                hi = hi - 1;
            }
            proof {
                assert(v@.take(v@.len() as int) =~= v@);
                if hi > 0 {
                    assert(v@.take(hi as int).last() == v@[hi - 1]);
                }
                assert(without_line_ends(v@.take(hi as int)) == v@.take(hi as int));
            }
            if hi == 0 {
                let mut m = owned("--password-file ");
                m.append(path.as_str());
                m.append(" is empty");
                return Err(m);
            }
            let p = string_of_range(&v, 0, hi);
            assert(p@ =~= v@.take(hi as int));
            Ok((p, false))
        },
        None => match inline {
            Some(x) => {
                if x.as_str().unicode_len() == 0 {
                    Err(owned("--password must be non-empty"))
                } else {
                    Ok((x, false))
                }
            },
            None => Ok((new_id(16), true)),
        },
    }
}

/// Reads a `--type` argument: a stored event type name.
pub fn cli_event_type(raw: &str) -> (r: Result<AuditEventType, String>)
    ensures
        r matches Ok(t) ==> audit_event_name(t) == raw@,
        r is Err <==> (forall|t: AuditEventType| audit_event_name(t) != raw@),
        r matches Err(m) ==> m@ == "--type '"@ + raw@
            + "' unknown; valid types: session.created, session.closed, participant.joined, invite.minted, invite.redeemed, invite.revoked, target.access_denied"@,
{
    match AuditEventType::parse(raw) {
        Ok(t) => Ok(t),
        Err(_) => {
            let mut m = owned("--type '");
            m.append(raw);
            m.append(
                "' unknown; valid types: session.created, session.closed, participant.joined, invite.minted, invite.redeemed, invite.revoked, target.access_denied",
            );
            Err(m)
        },
    }
}

/// How a `--user` argument names an account.
#[derive(Debug, Clone)]
pub enum UserLookup {
    ById(UserId),
    /// By address, lower-cased.
    ByEmail(String),
}

/// A UUID names the account by id; anything else is an address.
pub fn user_lookup(raw: &str) -> (l: UserLookup)
    ensures
        match crate::auth::uuid_parsed(raw@) {
            Some(v) => l matches UserLookup::ById(id) && id == UserId(v),
            None => l matches UserLookup::ByEmail(e) && e@ == lowercase(raw@),
        },
{
    match crate::auth::parse_user_id(raw) {
        Some(id) => UserLookup::ById(id),
        None => UserLookup::ByEmail(normalize_email(raw)),
    }
}

/// How an `--actor` argument names an account.
#[derive(Debug, Clone)]
pub enum ActorLookup {
    ById(UserId),
    ByName(String),
}

/// A UUID names the actor by id; anything else is a user name.
pub fn actor_lookup(raw: &str) -> (l: ActorLookup)
    ensures
        match crate::auth::uuid_parsed(raw@) {
            Some(v) => l matches ActorLookup::ById(id) && id == UserId(v),
            None => l matches ActorLookup::ByName(n) && n@ == raw@,
        },
{
    match crate::auth::parse_user_id(raw) {
        Some(id) => ActorLookup::ById(id),
        None => ActorLookup::ByName(owned(raw)),
    }
}

} // verus!
