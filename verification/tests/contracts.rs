//! Checks of the library's stated behaviour on concrete values.

use qgl_types::commands::{
    OperatorCommand, TaskDescriptor, TaskPriority, ThrottleAction, ThrottleCommand, TierRoute,
};
use qgl_types::display::base64_bytes::{self, FrameDataError};
use qgl_types::display::{Codec, DisplayFrame, DisplayInfo, DisplaySourceType};
use qgl_types::envelope::Envelope;
use qgl_types::events::{DeviceConnectedEvent, HealthState, HealthStatus, TabletAiResult};
use qgl_types::input::{HwSerialEvent, KeyAction, KeyEvent, KeyModifier};
use qgl_types::json::JsonValue;
use qgl_types::metrics::MetricBatch;
use qgl_types::recorder::{RecordCommand, RecordTarget};
use qgl_types::state::{NetworkAddressInfo, NodeIdentity, NodeResource, NodeResourceSample, RamState};
use qgl_types::validate::PayloadValidation;
use uuid::Uuid;

fn window(title: &str) -> RecordTarget {
    RecordTarget::Window { title_contains: title.to_string() }
}

fn no_addresses() -> NetworkAddressInfo {
    NetworkAddressInfo {
        bind_ip: None,
        internal_ip: None,
        lan_ip: None,
        public_ip: None,
        vpn_ip: None,
        vpn_context: None,
        nic_candidates: vec![],
    }
}

#[test]
fn window_title_validity_matches_trim_for_every_char() {
    for u in 0u32..=0x10FFFF {
        if let Some(c) = char::from_u32(u) {
            let t = RecordTarget::Window { title_contains: c.to_string() };
            assert_eq!(t.is_valid(), !c.to_string().trim().is_empty(), "char {:#x}", u);
        }
    }
}

#[test]
fn window_title_blank_or_empty_is_invalid() {
    assert!(!window("").is_valid());
    assert!(!window("   ").is_valid());
    assert!(!window("\t\n\u{3000}\u{2028}").is_valid());
    assert!(window(" Chrome ").is_valid());
    assert!(window("a").is_valid());
    assert!(RecordTarget::Display { index: 0 }.is_valid());
    assert!(RecordTarget::Display { index: u32::MAX }.is_valid());
}

#[test]
fn record_command_start_checks_dir_and_target() {
    assert!(RecordCommand::Stop.is_valid());
    assert!(RecordCommand::Status.is_valid());
    let ok_dir = Some("D:\\rec".to_string());
    assert!(RecordCommand::Start { record_dir: ok_dir.clone(), target: Some(window("Notepad")) }
        .is_valid());
    assert!(!RecordCommand::Start { record_dir: ok_dir.clone(), target: Some(window(" ")) }
        .is_valid());
    assert!(!RecordCommand::Start { record_dir: Some(String::new()), target: Some(window("x")) }
        .is_valid());
    assert!(RecordCommand::Start {
        record_dir: None,
        target: Some(RecordTarget::Display { index: 2 }),
    }
    .is_valid());
    // a blank directory is not empty: only the empty path is refused
    assert!(RecordCommand::Start { record_dir: Some(" ".into()), target: None }.is_valid());
}

#[test]
fn tier_bounds_are_one_to_four() {
    let route = |from: u8, to: u8| TierRoute {
        node: "n".into(),
        from_tier: from,
        to_tier: to,
        reason: String::new(),
    };
    assert!(route(1, 4).is_valid());
    assert!(route(4, 1).is_valid());
    assert!(!route(0, 2).is_valid());
    assert!(!route(2, 5).is_valid());
    assert!(!route(255, 3).is_valid());
    let mut r = route(2, 2);
    r.node = String::new();
    assert!(!r.is_valid());
}

#[test]
fn text_fields_must_be_non_empty() {
    assert!(!ThrottleCommand { node: String::new(), action: ThrottleAction::PauseStream }
        .is_valid());
    assert!(ThrottleCommand { node: "n".into(), action: ThrottleAction::ResumeStream }.is_valid());
    assert!(!TaskDescriptor {
        task_id: Uuid::nil(),
        task_type: String::new(),
        priority: TaskPriority::Low,
        payload: JsonValue::Null,
    }
    .is_valid());
    assert!(!OperatorCommand {
        service: "s".into(),
        command: String::new(),
        args: JsonValue::Null,
    }
    .is_valid());
    assert!(!OperatorCommand {
        service: String::new(),
        command: "c".into(),
        args: JsonValue::Null,
    }
    .is_valid());
    assert!(!TabletAiResult {
        tablet_id: "t".into(),
        model_id: String::new(),
        inference_ms: 0,
        result: JsonValue::Null,
        success: false,
    }
    .is_valid());
    assert!(!HealthStatus {
        service: String::new(),
        status: HealthState::Crashed,
        uptime_secs: 0,
        restart_count: 3,
        last_error: Some("boom".into()),
    }
    .is_valid());
    assert!(!DeviceConnectedEvent {
        serial: String::new(),
        model: "m".into(),
        os: "o".into(),
        manufacturer: "x".into(),
        capabilities: vec![],
    }
    .is_valid());
    assert!(!HwSerialEvent { port: "/dev/ttyACM0".into(), data: vec![] }.is_valid());
    assert!(!HwSerialEvent { port: String::new(), data: vec![1] }.is_valid());
    assert!(KeyEvent { action: KeyAction::Release, key_code: 0, modifiers: vec![KeyModifier::Ctrl] }
        .is_valid());
}

#[test]
fn display_sizes_must_be_non_zero() {
    let frame = |w: u32, h: u32, id: &str| DisplayFrame {
        display_id: id.into(),
        width: w,
        height: h,
        codec: Codec::H264,
        timestamp_us: 0,
        sequence: 0,
        data: vec![0],
    };
    assert!(frame(1, 1, "d").is_valid());
    assert!(!frame(0, 1, "d").is_valid());
    assert!(!frame(1, 0, "d").is_valid());
    assert!(!frame(1, 1, "").is_valid());
    let info = |w: u32, h: u32| DisplayInfo {
        display_id: "d".into(),
        name: String::new(),
        width: w,
        height: h,
        source_type: DisplaySourceType::NativeWindow,
    };
    assert!(info(640, 480).is_valid());
    assert!(!info(0, 480).is_valid());
    assert!(!info(640, 0).is_valid());
}

#[test]
fn ram_and_network_and_identity_rules() {
    assert!(!RamState { used_mb: 0, total_mb: 0, swap_used_mb: 0 }.is_valid());
    assert!(RamState { used_mb: 32000, total_mb: 32000, swap_used_mb: 0 }.is_valid());
    let mut n = no_addresses();
    n.bind_ip = Some("192.168.10.3".into());
    assert!(!n.is_valid(), "the bind address alone does not count");
    let mut n = no_addresses();
    n.vpn_ip = Some("100.64.0.1".into());
    assert!(n.is_valid());
    let mut n = no_addresses();
    n.public_ip = Some("1.2.3.4".into());
    assert!(n.is_valid());
    let id = NodeIdentity {
        hostname: "h".into(),
        git_commit: "unknown".into(),
        git_branch: String::new(),
        build_time: "2026-04-25T11:23:45Z".into(),
        local_ip: String::new(),
        public_ip: None,
        public_ip_observed_at: None,
    };
    assert!(id.is_valid());
    let mut bad = id.clone();
    bad.build_time = String::new();
    assert!(!bad.is_valid());
}

#[test]
fn resource_sample_rejects_null_data() {
    let s = |data: JsonValue| NodeResourceSample { resource: NodeResource::Stream, data };
    assert!(!s(JsonValue::Null).is_valid());
    assert!(s(JsonValue::Bool(false)).is_valid());
    assert!(s(JsonValue::Array(vec![JsonValue::Null])).is_valid());
    assert!(JsonValue::Null.is_null());
    assert!(!JsonValue::Number("0".into()).is_null());
}

#[test]
fn json_clone_is_deep() {
    let v = JsonValue::Object(vec![
        ("a".into(), JsonValue::Array(vec![JsonValue::Number("1".into()), JsonValue::Null])),
        ("b".into(), JsonValue::Object(vec![("c".into(), JsonValue::Bool(true))])),
        ("d".into(), JsonValue::String("x".into())),
    ]);
    assert_eq!(v.clone(), v);
}

#[test]
fn frame_data_base64_exact_values() {
    assert_eq!(base64_bytes::encode(&[]), "");
    assert_eq!(base64_bytes::encode(&[0xFF, 0xD8, 0xFF, 0xE0]), "/9j/4A==");
    assert_eq!(base64_bytes::encode(b"Man"), "TWFu");
    assert_eq!(base64_bytes::encode(b"Ma"), "TWE=");
    assert_eq!(base64_bytes::decode("TWE="), Ok(b"Ma".to_vec()));
    assert_eq!(base64_bytes::decode(""), Ok(vec![]));
}

#[test]
fn frame_data_base64_rejects_non_canonical_text() {
    assert!(matches!(base64_bytes::decode("TWE"), Err(FrameDataError::InvalidBase64(_))));
    assert!(matches!(base64_bytes::decode("TW E="), Err(FrameDataError::InvalidBase64(_))));
    assert!(matches!(base64_bytes::decode("TWF="), Err(FrameDataError::InvalidBase64(_))));
    assert!(matches!(base64_bytes::decode("*"), Err(FrameDataError::InvalidBase64(_))));
}

#[test]
fn frame_data_base64_round_trips() {
    for n in 0..64usize {
        let bytes: Vec<u8> = (0..n).map(|i| (i * 37 + n) as u8).collect();
        let text = base64_bytes::encode(&bytes);
        assert_eq!(text.len(), 4 * ((n + 2) / 3));
        assert_eq!(base64_bytes::decode(&text), Ok(bytes));
    }
}

#[test]
fn envelope_new_starts_a_trace() {
    let e = Envelope::new("minox-scheduler", 7u32);
    assert_eq!(e.parent_span_id, None);
    assert_eq!(e.source_service, "minox-scheduler");
    assert_eq!(e.payload, 7);
    assert!(e.emitted_at.nanos < 1_000_000_000);
    assert!(e.emitted_at.secs > 0);
    let other = Envelope::new("minox-scheduler", 7u32);
    assert_ne!(e.correlation_id, other.correlation_id);
}

#[test]
fn envelope_trace_survives_a_chain_of_children() {
    let root = Envelope::new("argox", "start".to_string());
    let mid = Envelope::child(&root, "nexox", 1u8);
    let leaf = Envelope::child(&mid, "leaf", ());
    assert_eq!(leaf.correlation_id, root.correlation_id);
    assert_eq!(leaf.parent_span_id, Some(root.correlation_id));
    assert_eq!(mid.source_service, "nexox");
    let mut chain = vec![Envelope::new("hop-0", 0u32)];
    for hop in 1..20u32 {
        let next = Envelope::child(&chain[chain.len() - 1], "hop", hop);
        chain.push(next);
    }
    for (k, e) in chain.iter().enumerate() {
        assert_eq!(e.correlation_id, chain[0].correlation_id);
        if k > 0 {
            assert_eq!(e.parent_span_id, Some(chain[0].correlation_id));
        }
    }
    let copy = leaf.clone();
    assert_eq!(copy.correlation_id, leaf.correlation_id);
    assert_eq!(copy.emitted_at, leaf.emitted_at);
}

#[test]
fn metric_batch_needs_service_and_samples() {
    assert!(MetricBatch { service: "s".to_string(), samples: vec![1.5f64] }.is_valid());
    assert!(!MetricBatch::<f64> { service: "s".to_string(), samples: vec![] }.is_valid());
    assert!(!MetricBatch { service: String::new(), samples: vec![0.0f64] }.is_valid());
}
