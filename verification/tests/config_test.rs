use telepair::config::{AppConfig, SessionDefaults, StorageConfig};
use telepair::session::{CloseReason, InputMode, SessionListFilter, SessionStatus};

#[test]
fn defaults_match_the_documented_values() {
    let c = AppConfig::default();
    assert_eq!(c.server.host, "0.0.0.0");
    assert_eq!(c.server.port, 7700);
    assert_eq!(c.storage.kind, "sqlite");
    assert_eq!(c.storage.path, "~/.telepair/telepair.db");
    assert_eq!(c.auth.kind, "token");
    assert_eq!(c.session.idle_timeout, 3600);
    assert_eq!(c.session.max_scrollback, 10000);
    let s = StorageConfig::default();
    assert_eq!(s.kind, "sqlite");
    assert_eq!(SessionDefaults::default().idle_timeout, 3600);
}

#[test]
fn stored_names_read_back() {
    for m in [InputMode::Serialized, InputMode::Multiplexed] {
        assert_eq!(InputMode::parse(m.as_str()), Ok(m));
    }
    for st in [SessionStatus::Active, SessionStatus::Closed] {
        assert_eq!(SessionStatus::parse(st.as_str()), Ok(st));
    }
    for r in [CloseReason::Owner, CloseReason::Reaper, CloseReason::Startup, CloseReason::Error] {
        assert_eq!(CloseReason::parse(r.as_str()), Ok(r));
    }
    assert_eq!(InputMode::parse("both"), Err("unknown input mode: both".to_string()));
}

#[test]
fn active_only_filter() {
    let f = SessionListFilter::active_only();
    assert_eq!(f.status, Some(SessionStatus::Active));
    assert!(f.target_name.is_none());
    assert!(f.limit.is_none());
    assert_eq!(f.offset, 0);
}
