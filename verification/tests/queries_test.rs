use telepair::queries::{all_sessions_sql, user_sessions_sql, AccountFilter, AccountStatus};
use telepair::session::{SessionListFilter, SessionStatus};

#[test]
fn account_query_with_search_and_status() {
    let f = AccountFilter {
        query: Some("ali".to_string()),
        status: Some(AccountStatus::Enabled),
        limit: 50,
        offset: 0,
    };
    assert_eq!(
        f.where_clause(),
        "scoped_session_id IS NULL AND (name LIKE ? COLLATE NOCASE OR email LIKE ? COLLATE NOCASE) AND session_enabled = TRUE AND verified = TRUE"
    );
    assert_eq!(f.binds(), vec!["%ali%".to_string(), "%ali%".to_string()]);
    assert!(f.count_sql().starts_with("SELECT COUNT(*) AS cnt FROM users WHERE scoped_session_id IS NULL"));
    assert!(f.data_sql().ends_with("ORDER BY created_at DESC LIMIT ? OFFSET ?"));
}

#[test]
fn account_query_without_filters_only_hides_guests() {
    let f = AccountFilter { query: None, status: None, limit: 1, offset: 1 };
    assert_eq!(f.where_clause(), "scoped_session_id IS NULL");
    assert!(f.binds().is_empty());
    let pending = AccountFilter { status: Some(AccountStatus::Pending), ..f };
    assert_eq!(pending.where_clause(), "scoped_session_id IS NULL AND verified = FALSE");
}

#[test]
fn session_queries_page_with_limit_sentinel() {
    let mut f = SessionListFilter::default();
    assert_eq!(all_sessions_sql(&f), "SELECT s.* FROM sessions s WHERE 1 = 1 ORDER BY s.created_at DESC");
    f.offset = 25;
    assert_eq!(
        all_sessions_sql(&f),
        "SELECT s.* FROM sessions s WHERE 1 = 1 ORDER BY s.created_at DESC LIMIT -1 OFFSET ?"
    );
    let g = SessionListFilter {
        status: Some(SessionStatus::Active),
        target_name: Some("db'; DROP TABLE users; --".to_string()),
        limit: Some(10),
        offset: 0,
    };
    let sql = user_sessions_sql(&g);
    assert!(sql.ends_with(" AND s.status = ? AND s.target_name = ? ORDER BY s.created_at DESC LIMIT ?"));
    assert!(!sql.contains("DROP"));
}
