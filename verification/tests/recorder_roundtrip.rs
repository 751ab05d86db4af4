//! Recorder types: validation of record commands and session manifests.

use chrono::Utc;
use qgl_types::clock::UtcTimestamp;
use qgl_types::recorder::{RecordCommand, SessionDisplay, SessionManifest, SessionStatus};
use qgl_types::validate::PayloadValidation;
use uuid::Uuid;

fn now() -> UtcTimestamp {
    let t = Utc::now();
    UtcTimestamp { secs: t.timestamp(), nanos: t.timestamp_subsec_nanos() }
}

#[test]
fn record_command_start_without_dir_roundtrips() {
    let cmd = RecordCommand::Start { record_dir: None, target: None };
    assert!(cmd.is_valid());
}

#[test]
fn record_command_start_with_dir_roundtrips() {
    let cmd = RecordCommand::Start {
        record_dir: Some(r"E:\nexox-recordings".into()),
        target: None,
    };
    assert!(cmd.is_valid());
}

#[test]
fn record_command_rejects_empty_dir() {
    let cmd = RecordCommand::Start {
        record_dir: Some(String::new()),
        target: None,
    };
    assert!(!cmd.is_valid(), "empty record_dir must fail validation");
}

#[test]
fn record_command_stop_and_status_roundtrip() {
    for cmd in [RecordCommand::Stop, RecordCommand::Status] {
        let back: RecordCommand = cmd.clone();
        assert_eq!(back, cmd);
        assert!(back.is_valid());
    }
}

#[test]
fn session_manifest_roundtrips_with_displays() {
    let manifest = SessionManifest {
        session_id: Uuid::new_v4(),
        node_id: "win-a2".into(),
        start_utc: now(),
        stop_utc: None,
        status: SessionStatus::Recording,
        record_dir: r"E:\nexox-recordings\abc123".into(),
        displays: vec![SessionDisplay {
            display_index: 0,
            width: 1920,
            height: 1080,
            fps: 4,
            codec: "h264_nvenc".into(),
        }],
    };
    assert!(manifest.is_valid());
}

#[test]
fn session_manifest_rejects_empty_node_id() {
    let m = SessionManifest {
        session_id: Uuid::new_v4(),
        node_id: String::new(),
        start_utc: now(),
        stop_utc: None,
        status: SessionStatus::Recording,
        record_dir: "/tmp".into(),
        displays: vec![],
    };
    assert!(!m.is_valid());
}
