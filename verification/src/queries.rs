//! The text of the listing queries. Each is put together from fixed
//! fragments chosen by which filter fields are set; every value is
//! bound to a `?` placeholder, so no text of a caller reaches the SQL.
use vstd::prelude::*;
use vstd::string::*;

use crate::audit::{audit_query_text, clause_if, AuditFilter};
use crate::session::SessionListFilter;
use crate::text::owned;

verus! {

/// The user columns, in the order rows are read.
pub const USER_COLS: &'static str = "id, name, is_admin, scoped_session_id, email, session_enabled, created_at, updated_at";

/// Which accounts an admin lists.
#[derive(Debug, Clone)]
pub struct AccountFilter {
    /// Case-insensitive substring of the name or the address.
    pub query: Option<String>,
    pub status: Option<AccountStatus>,
    pub limit: i64,
    pub offset: i64,
}

/// The three kinds of account an admin tells apart.
#[derive(Debug, Clone, Copy, PartialEq, Eq, Structural)]
pub enum AccountStatus {
    /// Approved and allowed to use sessions.
    Enabled,
    /// Approved, but sessions are switched off.
    Disabled,
    /// Signed up, not yet approved.
    Pending,
}

pub open spec fn status_condition(s: AccountStatus) -> Seq<char> {
    match s {
        AccountStatus::Enabled => "session_enabled = TRUE AND verified = TRUE"@,
        AccountStatus::Disabled => "session_enabled = FALSE AND verified = TRUE"@,
        AccountStatus::Pending => "verified = FALSE"@,
    }
}

/// The three status buckets cannot share an account: Enabled and Disabled
/// both require `verified = TRUE` and differ on `session_enabled`, while
/// Pending requires `verified = FALSE`. Each is a conjunction of these
/// column tests, so an account lands in exactly one bucket.
pub proof fn lemma_status_buckets_disjoint(f: AccountFilter)
    ensures
        f.status == Some(AccountStatus::Enabled) ==> ends_with(account_where(f), " AND session_enabled = TRUE"@ + " AND verified = TRUE"@),
        f.status == Some(AccountStatus::Disabled) ==> ends_with(account_where(f), " AND session_enabled = FALSE"@ + " AND verified = TRUE"@),
        f.status == Some(AccountStatus::Pending) ==> ends_with(account_where(f), " AND verified = FALSE"@),
        status_condition(AccountStatus::Enabled) == "session_enabled = TRUE"@ + " AND "@ + "verified = TRUE"@,
        status_condition(AccountStatus::Disabled) == "session_enabled = FALSE"@ + " AND "@ + "verified = TRUE"@,
        status_condition(AccountStatus::Pending) == "verified = FALSE"@,
        forall|s: AccountStatus| #[trigger] status_condition(s).len() > 0,
{
    reveal_strlit("session_enabled = TRUE AND verified = TRUE");
    reveal_strlit("session_enabled = FALSE AND verified = TRUE");
    reveal_strlit("session_enabled = TRUE");
    reveal_strlit("session_enabled = FALSE");
    reveal_strlit(" AND ");
    reveal_strlit("verified = TRUE");
    reveal_strlit("verified = FALSE");
    assert("session_enabled = TRUE AND verified = TRUE"@ =~= "session_enabled = TRUE"@ + " AND "@ + "verified = TRUE"@);
    assert("session_enabled = FALSE AND verified = TRUE"@ =~= "session_enabled = FALSE"@ + " AND "@
        + "verified = TRUE"@);
    reveal_strlit(" AND session_enabled = TRUE");
    reveal_strlit(" AND session_enabled = FALSE");
    reveal_strlit(" AND verified = TRUE");
    reveal_strlit(" AND verified = FALSE");
    let w = account_where(f);
    match f.status {
        Some(st) => {
            let head = "scoped_session_id IS NULL"@ + clause_if(
                f.query is Some,
                " AND (name LIKE ? COLLATE NOCASE OR email LIKE ? COLLATE NOCASE)"@,
            );
            let tail = " AND "@ + status_condition(st);
            assert(w == head + tail);
            assert(w.skip(w.len() - tail.len()) =~= tail);
            match st {
                AccountStatus::Enabled => {
                    assert(tail =~= " AND session_enabled = TRUE"@ + " AND verified = TRUE"@);
                },
                AccountStatus::Disabled => {
                    assert(tail =~= " AND session_enabled = FALSE"@ + " AND verified = TRUE"@);
                },
                AccountStatus::Pending => {
                    assert(tail =~= " AND verified = FALSE"@);
                },
            }
        },
        None => {},
    }
}

/// `s` ends with `t`.
pub open spec fn ends_with(s: Seq<char>, t: Seq<char>) -> bool {
    s.len() >= t.len() && s.skip(s.len() - t.len()) == t
}

/// The conditions of an account listing, joined by `AND`: never a
/// session-scoped guest, then the text match, then the status.
pub open spec fn account_where(f: AccountFilter) -> Seq<char> {
    "scoped_session_id IS NULL"@
        + clause_if(f.query is Some, " AND (name LIKE ? COLLATE NOCASE OR email LIKE ? COLLATE NOCASE)"@)
        + match f.status {
            Some(s) => " AND "@ + status_condition(s),
            None => Seq::empty(),
        }
}

/// The `LIKE` pattern of a search text.
pub open spec fn like_pattern(q: Seq<char>) -> Seq<char> {
    "%"@ + q + "%"@
}

impl AccountFilter {
    pub fn where_clause(&self) -> (w: String)
        ensures
            w@ == account_where(*self),
    {
        let mut w = owned("scoped_session_id IS NULL");
        if self.query.is_some() {
            w.append(" AND (name LIKE ? COLLATE NOCASE OR email LIKE ? COLLATE NOCASE)");
        }
        match self.status {
            Some(AccountStatus::Enabled) => {
                w.append(" AND ");
                w.append("session_enabled = TRUE AND verified = TRUE");
            },
            Some(AccountStatus::Disabled) => {
                w.append(" AND ");
                w.append("session_enabled = FALSE AND verified = TRUE");
            },
            Some(AccountStatus::Pending) => {
                w.append(" AND ");
                w.append("verified = FALSE");
            },
            None => {},
        }
        assert(w@ =~= account_where(*self));
        w
    }

    /// The values of the text match, once for the name and once for the
    /// address; nothing without a search text.
    pub fn binds(&self) -> (b: Vec<String>)
        ensures
            match self.query {
                Some(q) => b@.len() == 2 && b@[0]@ == like_pattern(q@) && b@[1]@ == like_pattern(q@),
                None => b@.len() == 0,
            },
    {
        let mut b: Vec<String> = Vec::new();
        if let Some(q) = &self.query {
            let mut like = owned("%");
            like.append(q.as_str());
            like.append("%");
            b.push(like.clone());
            b.push(like);
        }
        b
    }

    /// Counts the matching accounts.
    pub fn count_sql(&self) -> (s: String)
        ensures
            s@ == "SELECT COUNT(*) AS cnt FROM users WHERE "@ + account_where(*self),
    {
        let mut s = owned("SELECT COUNT(*) AS cnt FROM users WHERE ");
        let w = self.where_clause();
        s.append(w.as_str());
        s
    }

    /// One page of matching accounts, newest first; the cap and the
    /// offset are bound after the text match.
    pub fn data_sql(&self) -> (s: String)
        ensures
            s@ == "SELECT "@ + USER_COLS@ + " FROM users WHERE "@ + account_where(*self)
                + " ORDER BY created_at DESC LIMIT ? OFFSET ?"@,
    {
        let mut s = owned("SELECT ");
        s.append(USER_COLS);
        s.append(" FROM users WHERE ");
        let w = self.where_clause();
        s.append(w.as_str());
        s.append(" ORDER BY created_at DESC LIMIT ? OFFSET ?");
        s
    }
}

/// The conditions and paging of a session listing. SQLite takes no
/// `OFFSET` without a `LIMIT`, so an offset alone comes with `LIMIT -1`.
pub open spec fn session_tail(f: SessionListFilter) -> Seq<char> {
    clause_if(f.status is Some, " AND s.status = ?"@)
        + clause_if(f.target_name is Some, " AND s.target_name = ?"@)
        + " ORDER BY s.created_at DESC"@
        + if f.limit is Some {
            " LIMIT ?"@
        } else if f.offset > 0 {
            " LIMIT -1"@
        } else {
            Seq::empty()
        }
        + clause_if(f.offset > 0, " OFFSET ?"@)
}

fn push_session_tail(s: &mut String, f: &SessionListFilter)
    ensures
        final(s)@ == old(s)@ + session_tail(*f),
{
    if f.status.is_some() {
        s.append(" AND s.status = ?");
    }
    if f.target_name.is_some() {
        s.append(" AND s.target_name = ?");
    }
    s.append(" ORDER BY s.created_at DESC");
    if f.limit.is_some() {
        s.append(" LIMIT ?");
    } else if f.offset > 0 {
        s.append(" LIMIT -1");
    }
    if f.offset > 0 {
        s.append(" OFFSET ?");
    }
    assert(s@ =~= old(s)@ + session_tail(*f));
}

/// The head of the listing of a user's sessions: those the user owns or
/// has joined (the user id is bound twice).
pub open spec fn user_sessions_head() -> Seq<char> {
    "SELECT DISTINCT s.* FROM sessions s LEFT JOIN participants p ON p.session_id = s.id AND p.user_id = ? WHERE (s.owner_id = ? OR p.user_id IS NOT NULL)"@
}

/// The sessions a user owns or joined, closed ones included.
pub fn user_sessions_sql(f: &SessionListFilter) -> (s: String)
    ensures
        s@ == user_sessions_head() + session_tail(*f),
{
    let mut s = owned(
        "SELECT DISTINCT s.* FROM sessions s LEFT JOIN participants p ON p.session_id = s.id AND p.user_id = ? WHERE (s.owner_id = ? OR p.user_id IS NOT NULL)",
    );
    push_session_tail(&mut s, f);
    s
}

/// Every session (for admins).
pub fn all_sessions_sql(f: &SessionListFilter) -> (s: String)
    ensures
        s@ == "SELECT s.* FROM sessions s WHERE 1 = 1"@ + session_tail(*f),
{
    let mut s = owned("SELECT s.* FROM sessions s WHERE 1 = 1");
    push_session_tail(&mut s, f);
    s
}

/// Two session filters that set the same fields give the same SQL text:
/// the values themselves (the target's name among them) only ever reach
/// the database as bound parameters.
pub proof fn lemma_session_sql_depends_on_shape_only(a: SessionListFilter, b: SessionListFilter)
    requires
        (a.status is Some) == (b.status is Some),
        (a.target_name is Some) == (b.target_name is Some),
        (a.limit is Some) == (b.limit is Some),
        (a.offset > 0) == (b.offset > 0),
    ensures
        session_tail(a) == session_tail(b),
{
}

/// Likewise for account listings: the search text is bound, never
/// written into the query.
pub proof fn lemma_account_sql_depends_on_shape_only(a: AccountFilter, b: AccountFilter)
    requires
        (a.query is Some) == (b.query is Some),
        a.status == b.status,
    ensures
        account_where(a) == account_where(b),
{
}

/// Likewise for audit queries: actor, session and time bounds are bound;
/// only the number of event types shows in the text.
pub proof fn lemma_audit_sql_depends_on_shape_only(a: AuditFilter, b: AuditFilter)
    requires
        (a.since is Some) == (b.since is Some),
        (a.until is Some) == (b.until is Some),
        (a.actor_id is Some) == (b.actor_id is Some),
        (a.session_id is Some) == (b.session_id is Some),
        a.event_types@.len() == b.event_types@.len(),
        (a.offset > 0) == (b.offset > 0),
    ensures
        audit_query_text(a) == audit_query_text(b),
{
}

} // verus!
