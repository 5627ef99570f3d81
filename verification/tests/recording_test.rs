use telepair::recording::{RecordingEvent, RecordingRow, RecordingShareRow, RecordingStatus};

/// Elapsed seconds, as the microseconds the recording clock counts.
fn micros(secs: f64) -> u64 {
    (secs * 1_000_000.0).round() as u64
}

#[test]
fn recording_event_output_serializes_as_asciicast_v2() {
    let event = RecordingEvent::Output(b"$ ".to_vec());
    let line = event.to_asciicast_line(micros(0.0));
    assert_eq!(line, r#"[0.000000, "o", "$ "]"#);
}

#[test]
fn recording_event_output_escapes_special_chars() {
    let event = RecordingEvent::Output(b"hello\r\n".to_vec());
    let line = event.to_asciicast_line(micros(1.5));
    assert_eq!(line, r#"[1.500000, "o", "hello\r\n"]"#);
}

#[test]
fn recording_event_resize_serializes() {
    let event = RecordingEvent::Resize { cols: 120, rows: 30 };
    let line = event.to_asciicast_line(micros(2.5));
    assert_eq!(line, r#"[2.500000, "r", "120x30"]"#);
}

#[test]
fn recording_event_join_serializes() {
    let event = RecordingEvent::ParticipantJoin {
        user_id: "uid1".into(),
        name: "bob".into(),
        role: "operator".into(),
    };
    let line = event.to_asciicast_line(micros(3.1));
    assert!(line.starts_with("[3.100000, \"j\", "));
    assert!(line.contains("\"user_id\":\"uid1\""));
}

#[test]
fn recording_event_leave_serializes() {
    let event = RecordingEvent::ParticipantLeave { user_id: "uid1".into() };
    let line = event.to_asciicast_line(micros(5.2));
    assert!(line.starts_with("[5.200000, \"l\", "));
    assert!(line.contains("\"user_id\":\"uid1\""));
}

#[test]
fn recording_event_chat_serializes() {
    let event = RecordingEvent::Chat {
        user_id: "uid1".into(),
        name: "bob".into(),
        text: "look here".into(),
    };
    let line = event.to_asciicast_line(micros(6.0));
    assert!(line.starts_with("[6.000000, \"c\", "));
    assert!(line.contains("\"text\":\"look here\""));
}

#[test]
fn recording_status_display() {
    assert_eq!(RecordingStatus::Recording.as_str(), "recording");
    assert_eq!(RecordingStatus::Completed.as_str(), "completed");
    assert_eq!(RecordingStatus::Failed.as_str(), "failed");
}

#[test]
fn recording_row_and_share_row_are_constructible() {
    let _row = RecordingRow {
        id: "id1".into(),
        session_id: "sess1".into(),
        status: "recording".into(),
        file_path: None,
        file_size: 0,
        duration_ms: None,
        width: 120,
        height: 40,
        event_count: 0,
        started_at: "2024-01-01T00:00:00Z".into(),
        completed_at: None,
        expires_at: None,
        created_by: "user1".into(),
    };
    let _share = RecordingShareRow {
        token_sha256: "abc".into(),
        recording_id: "id1".into(),
        max_uses: 10,
        used_count: 0,
        expires_at: None,
        created_at: "2024-01-01T00:00:00Z".into(),
    };
}

#[test]
fn recording_status_round_trips() {
    for st in [RecordingStatus::Recording, RecordingStatus::Completed, RecordingStatus::Failed] {
        assert_eq!(RecordingStatus::parse(st.as_str()), Some(st));
    }
    assert_eq!(RecordingStatus::parse("Recording"), None);
    assert_eq!(RecordingStatus::parse("done"), None);
}

#[test]
fn join_object_has_sorted_keys_and_exact_layout() {
    let event = RecordingEvent::ParticipantJoin {
        user_id: "u".into(),
        name: "n".into(),
        role: "viewer".into(),
    };
    assert_eq!(
        event.to_asciicast_line(12_345_678),
        r#"[12.345678, "j", {"name":"n","role":"viewer","user_id":"u"}]"#
    );
}

#[test]
fn output_quotes_and_escapes_and_replaces_invalid_utf8() {
    let event = RecordingEvent::Output(vec![b'a', b'"', b'\\', 0xff, b'\t']);
    assert_eq!(
        event.to_asciicast_line(7),
        "[0.000007, \"o\", \"a\\\"\\\\\u{fffd}\\t\"]"
    );
}

#[test]
fn chat_text_is_json_escaped() {
    let event = RecordingEvent::Chat {
        user_id: "u".into(),
        name: "n".into(),
        text: "say \"hi\"\n".into(),
    };
    assert_eq!(
        event.to_asciicast_line(1_000_000),
        r#"[1.000000, "c", {"name":"n","text":"say \"hi\"\n","user_id":"u"}]"#
    );
}
