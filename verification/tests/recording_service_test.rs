use telepair::auth::token_sha256;
use telepair::error::Error;
use telepair::recording::{RecordingRow, RecordingShareRow};
use telepair::recording_service::{
    consume_share, join_path, mint_share_token, share_answer, share_digest, share_is_usable,
    share_target_check, RecordingConfig, RecordingService, MICROS_PER_DAY,
};

fn config(enabled: bool, ttl_days: u32, dir: &str) -> RecordingConfig {
    RecordingConfig { enabled, ttl_days, dir: dir.to_string() }
}

fn row(id: &str, status: &str) -> RecordingRow {
    RecordingRow {
        id: id.to_string(),
        session_id: "sess-1".to_string(),
        status: status.to_string(),
        file_path: Some(format!("{id}.cast")),
        file_size: 0,
        duration_ms: None,
        width: 80,
        height: 24,
        event_count: 0,
        started_at: "2024-01-01T00:00:00+00:00".to_string(),
        completed_at: None,
        expires_at: None,
        created_by: "u".to_string(),
    }
}

fn share(max_uses: i64, used: i64, expires_at: Option<&str>) -> RecordingShareRow {
    RecordingShareRow {
        token_sha256: "abc".to_string(),
        recording_id: "rec-1".to_string(),
        max_uses,
        used_count: used,
        expires_at: expires_at.map(|s| s.to_string()),
        created_at: "2024-01-01T00:00:00+00:00".to_string(),
    }
}

#[test]
fn should_record_follows_global_default_when_no_override() {
    let svc = RecordingService::new(config(true, 30, "/tmp"));
    assert!(svc.should_record(None));
    let svc2 = RecordingService::new(config(false, 30, "/tmp"));
    assert!(!svc2.should_record(None));
}

#[test]
fn should_record_override_true_requires_global_enabled() {
    let svc = RecordingService::new(config(false, 30, "/tmp"));
    assert!(!svc.should_record(Some(true)));
    let svc = RecordingService::new(config(true, 30, "/tmp"));
    assert!(svc.should_record(Some(true)));
    assert!(!svc.should_record(Some(false)));
}

#[test]
fn file_paths_and_home_defaults() {
    let svc = RecordingService::new(config(true, 30, "/var/rec"));
    assert_eq!(svc.recording_file_path("abc"), "/var/rec/abc.cast");
    let svc = RecordingService::new(config(true, 30, "/var/rec/"));
    assert_eq!(svc.recording_file_path("abc"), "/var/rec/abc.cast");
    assert_eq!(join_path("", "x"), "x");
    let c = RecordingConfig::for_home("/home/alice");
    assert_eq!(c.dir, "/home/alice/.telepair/recordings");
    assert!(!c.enabled);
    assert_eq!(c.ttl_days, 30);
}

#[test]
fn expiry_follows_the_ttl() {
    let svc = RecordingService::new(config(true, 30, "/tmp"));
    assert_eq!(svc.compute_expires_at(1_000), Some(1_000 + 30 * MICROS_PER_DAY));
    let forever = RecordingService::new(config(true, 0, "/tmp"));
    assert_eq!(forever.compute_expires_at(1_000), None);
}

#[test]
fn header_carries_session_and_recording() {
    let svc = RecordingService::new(config(true, 30, "/tmp"));
    let header = svc.build_header("sess-1", "rec-1", 80, 24, 1_713_264_000_500_000);
    assert_eq!(header.version, 2);
    assert_eq!(header.width, 80);
    assert_eq!(header.height, 24);
    assert_eq!(header.timestamp, 1_713_264_000);
    assert_eq!(header.telepair[0], ("session_id".to_string(), "sess-1".to_string()));
    assert_eq!(header.telepair[1], ("recording_id".to_string(), "rec-1".to_string()));
    assert_eq!(header.env[1], ("TERM".to_string(), "xterm-256color".to_string()));
    let before_epoch = svc.build_header("s", "r", 1, 1, -1);
    assert_eq!(before_epoch.timestamp, -1);
}

#[test]
fn one_active_recording_per_session() {
    let svc = RecordingService::new(config(true, 0, "/tmp"));
    match svc.plan_recording("sess-1", Some(row("rec-0", "recording")), 0) {
        Err(Error::Conflict(m)) => {
            assert_eq!(m, "session sess-1 already has an active recording: rec-0")
        }
        other => panic!("unexpected {other:?}"),
    }
    let plan = svc.plan_recording("sess-1", None, 0).unwrap();
    assert_eq!(plan.id.chars().count(), 21);
    assert_eq!(plan.file_path, format!("{}.cast", plan.id));
    assert_eq!(plan.expires_at, None);
}

#[test]
fn recording_being_captured_cannot_be_deleted() {
    let svc = RecordingService::new(config(true, 30, "/data"));
    match svc.delete_plan("rec-1", Some(row("rec-1", "recording"))) {
        Err(Error::Conflict(m)) => assert_eq!(
            m,
            "recording rec-1 is still being captured; stop it before deleting"
        ),
        other => panic!("unexpected {other:?}"),
    }
    assert_eq!(
        svc.delete_plan("rec-1", Some(row("rec-1", "completed"))).unwrap(),
        Some("/data/rec-1.cast".to_string())
    );
    assert_eq!(svc.delete_plan("rec-1", None).unwrap(), None);
}

#[test]
fn token_sha256_share_digest_matches() {
    let (raw, digest) = mint_share_token();
    assert_eq!(raw.chars().count(), 32);
    assert_eq!(digest, share_digest(&raw));
    assert_eq!(share_digest("t"), token_sha256("t"));
    assert!(share_target_check("rec-1", &Some(row("rec-1", "completed"))).is_ok());
    match share_target_check("rec-9", &None) {
        Err(Error::InvalidInput(m)) => assert_eq!(m, "recording not found: rec-9"),
        other => panic!("unexpected {other:?}"),
    }
}

#[test]
fn share_uses_are_bounded_and_scoped() {
    let now = "2024-06-01T00:00:00+00:00";
    let mut s = share(2, 0, Some("2024-07-01T00:00:00+00:00"));
    assert!(consume_share(&mut s, "rec-1", now));
    assert!(consume_share(&mut s, "rec-1", now));
    assert_eq!(s.used_count, 2);
    assert!(!consume_share(&mut s, "rec-1", now));
    assert_eq!(s.used_count, 2);

    let mut other = share(0, 0, None);
    assert!(!consume_share(&mut other, "rec-2", now));
    assert_eq!(other.used_count, 0);
    for _ in 0..10 {
        assert!(consume_share(&mut other, "rec-1", now));
    }

    let expired = share(0, 0, Some("2024-05-01T00:00:00+00:00"));
    assert!(!share_is_usable(&expired, "rec-1", now));
    match share_answer(None) {
        Err(Error::InvalidInput(m)) => assert_eq!(m, "invalid, expired, or exhausted share token"),
        other => panic!("unexpected {other:?}"),
    }
    assert_eq!(share_answer(Some(share(1, 1, None))).unwrap().used_count, 1);
}
