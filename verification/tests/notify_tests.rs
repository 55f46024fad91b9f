use jailgun::event::{EventKind, JailgunEvent, Severity};
use jailgun::notify::{
    build_commit_notice_message, commit_notice_to_payload, envelope_for_event, event_to_payload,
    format_event_notice, generate_envelope_id, CommitNotice, Integrity, JmcpEnvelope, JmcpInbox,
    NotifyTextPayload, Payload, Routing, TaskRef,
};

fn text_payload_json(p: &Payload) -> Vec<u8> {
    let mut m = serde_json::Map::new();
    if let Payload::NotifyText(t) = p {
        m.insert("kind".into(), serde_json::Value::String("jailgun.notify-text".into()));
        m.insert("title".into(), serde_json::Value::String(t.title.clone()));
        m.insert("summary_emoji".into(), serde_json::Value::String(t.summary_emoji.clone()));
        m.insert("body_markdown".into(), serde_json::Value::String(t.body_markdown.clone()));
    }
    serde_json::to_vec(&serde_json::Value::Object(m)).unwrap()
}

fn new_envelope(payload: Payload, task: TaskRef) -> JmcpEnvelope {
    let bytes = text_payload_json(&payload);
    JmcpEnvelope::new(payload, &bytes, task, Routing::notify_user())
}

fn dummy_payload() -> Payload {
    Payload::NotifyText(NotifyTextPayload {
        title: "hello".into(),
        summary_emoji: "👋".into(),
        body_markdown: "hello world".into(),
    })
}

#[test]
fn envelope_carries_schema_version() {
    let env = new_envelope(dummy_payload(), TaskRef::for_run("run-A", Some(3)));
    assert_eq!(env.schema_version, "jpcm/1.0.0");
    assert!(env.envelope_id.starts_with("jpcm_"));
    assert_eq!(env.task.task_id, "run-A-tab-03");
}

#[test]
fn envelope_id_matches_jpcm_pattern() {
    let id = generate_envelope_id();
    let suffix = id.strip_prefix("jpcm_").unwrap();
    assert!(suffix.len() >= 16);
    assert!(suffix.chars().all(|c| c.is_ascii_alphanumeric() || c == '_' || c == '-'));
}

#[test]
fn envelope_ids_differ_between_calls() {
    let a = generate_envelope_id();
    let b = generate_envelope_id();
    assert_eq!(a.len(), 27);
    assert_ne!(a, b);
}

#[test]
fn integrity_digest_is_sha256_hex() {
    let env = new_envelope(dummy_payload(), TaskRef::for_run("run-A", None));
    assert_eq!(env.integrity.algo, "sha256");
    assert_eq!(env.integrity.digest_hex.len(), 64);
    assert!(env.integrity.digest_hex.chars().all(|c| c.is_ascii_hexdigit()));
}

#[test]
fn integrity_is_the_sha256_of_the_payload_bytes() {
    let i = Integrity::for_payload(b"abc");
    assert_eq!(i.algo, "sha256");
    assert_eq!(
        i.digest_hex,
        "ba7816bf8f01cfea414140de5dae2223b00361a396177a9cb410ff61f20015ad"
    );
    let env = JmcpEnvelope::new(dummy_payload(), b"", TaskRef::for_run("run-A", None), Routing::notify_user());
    assert_eq!(
        env.integrity.digest_hex,
        "e3b0c44298fc1c149afbf4c8996fb92427ae41e4649b934ca495991b7852b855"
    );
}

#[test]
fn integrity_digest_depends_on_payload() {
    let a = new_envelope(dummy_payload(), TaskRef::for_run("run-A", None));
    let other = Payload::NotifyText(NotifyTextPayload {
        title: "hello".into(),
        summary_emoji: "👋".into(),
        body_markdown: "hello there".into(),
    });
    let b = new_envelope(other, TaskRef::for_run("run-A", None));
    let c = new_envelope(dummy_payload(), TaskRef::for_run("run-B", Some(1)));
    assert_ne!(a.integrity.digest_hex, b.integrity.digest_hex);
    assert_eq!(a.integrity.digest_hex, c.integrity.digest_hex);
}

#[test]
fn builds_commit_notice_message() {
    let message = build_commit_notice_message(&CommitNotice {
        run_id: "run-1".into(),
        tab_id: Some(3),
        post_head: "abc1234".into(),
        pre_head: Some("def5678".into()),
        files_changed: 2,
        additions: 12,
        deletions: 4,
        top_paths: vec!["src/lib.rs".into(), "README.md".into()],
        ci_state: Some("passed".into()),
        remote_command_exit: Some(0),
    });
    assert!(message.contains("Jailgun commit succeeded"));
    assert!(message.contains("run run-1 (tab 3)"));
    assert!(message.contains("2 files, +12, -4"));
    assert!(message.contains("- README.md"));
}

#[test]
fn payload_carries_top_paths_and_metrics() {
    let notice = CommitNotice {
        run_id: "run-1".into(),
        tab_id: None,
        post_head: "abcdef".into(),
        pre_head: None,
        files_changed: 1,
        additions: 5,
        deletions: 0,
        top_paths: vec!["src/main.rs".into()],
        ci_state: None,
        remote_command_exit: None,
    };
    let payload = commit_notice_to_payload(&notice);
    match payload {
        Payload::NotifyCommit(p) => {
            assert_eq!(p.run_id, "run-1");
            assert_eq!(p.summary_emoji, "✅");
            assert_eq!(p.top_paths, vec!["src/main.rs"]);
            assert!(p.body_markdown.contains("Jailgun commit succeeded"));
        }
        _ => panic!("expected NotifyCommit"),
    }
}

fn base(kind: EventKind, tab: u16) -> JailgunEvent {
    JailgunEvent::new("run-A", kind, "x").with_tab(tab)
}

#[test]
fn prompt_submitted_emits_job_started_line() {
    let msg = format_event_notice(&base(EventKind::PromptSubmitted, 2)).expect("some");
    assert!(msg.contains("job started"));
    assert!(msg.contains("tab 2"));
    assert!(msg.contains("run-A"));
}

#[test]
fn download_receipt_includes_short_sha() {
    let sha = "abcdef0123456789".repeat(4);
    let event = base(EventKind::DownloadReceipt, 1).with_field("sha256", &sha);
    let msg = format_event_notice(&event).expect("some");
    assert!(msg.contains("tar acquired"));
    assert!(msg.contains("sha abcdef01"));
}

#[test]
fn deploy_finished_success_with_ci_passed_includes_files_and_paths() {
    let event = base(EventKind::DeployFinished, 1)
        .with_field("outcome", "succeeded")
        .with_field("ci_state", "passed")
        .with_field("post_head", "abc1234deadbeef00")
        .with_field("files_changed", "3")
        .with_field("additions", "20")
        .with_field("deletions", "5")
        .with_field("top_paths", "src/lib.rs,README.md,Cargo.toml");
    let msg = format_event_notice(&event).expect("some");
    assert!(msg.contains("CI passed, on main"));
    assert!(msg.contains("abc1234d"));
    assert!(msg.contains("3 files +20 -5"));
    assert!(msg.contains("files: src/lib.rs,README.md,Cargo.toml"));
}

#[test]
fn deploy_finished_failure_emits_short_failure_line() {
    let event = base(EventKind::DeployFinished, 1)
        .with_severity(Severity::Error)
        .with_field("outcome", "failed-preserved")
        .with_field("failure_reason", "remote-command-failed")
        .with_field("exit_code", "127")
        .with_field("preserved_ref", "jailgun-failed/run-A-tab-01");
    let msg = format_event_notice(&event).expect("some");
    assert!(msg.starts_with('❌'));
    assert!(msg.contains("remote-command-failed"));
    assert!(msg.contains("exit 127"));
    assert!(msg.contains("preserved jailgun-failed/run-A-tab-01"));
}

#[test]
fn other_event_kinds_return_none() {
    let event = base(EventKind::TabOpened, 1);
    assert!(format_event_notice(&event).is_none());
}

#[test]
fn deploy_finished_ci_skipped_success_emits_local_ci_push_complete() {
    let event = base(EventKind::DeployFinished, 1)
        .with_field("outcome", "succeeded-ci-skipped")
        .with_field("ci_state", "skipped")
        .with_field("post_head", "aaaaaaaa");
    let msg = format_event_notice(&event).expect("some");
    assert!(msg.contains("local CI/push complete"));
    assert!(!msg.contains("files:"));
}

#[test]
fn deploy_finished_plain_success_without_ci_passed_is_not_notified() {
    let event = base(EventKind::DeployFinished, 1)
        .with_field("outcome", "succeeded")
        .with_field("ci_state", "skipped")
        .with_field("post_head", "aaaaaaaa");
    assert!(format_event_notice(&event).is_none());
}

#[test]
fn event_to_payload_wraps_success_with_metrics() {
    let event = base(EventKind::DeployFinished, 4)
        .with_field("outcome", "succeeded")
        .with_field("ci_state", "passed")
        .with_field("post_head", "abc1234d")
        .with_field("files_changed", "3")
        .with_field("additions", "10")
        .with_field("deletions", "2");
    let payload = event_to_payload(&event).expect("some");
    match payload {
        Payload::NotifyEvent(p) => {
            assert_eq!(p.summary_emoji, "✅");
            assert_eq!(p.event_severity, "info");
            assert_eq!(p.metrics.get("ci_state").map(String::as_str), Some("passed"));
            assert_eq!(p.metrics.get("files_changed").map(String::as_str), Some("3"));
        }
        _ => panic!("expected NotifyEvent"),
    }
}

#[test]
fn notable_event_becomes_user_envelope_and_others_do_not() {
    let event = base(EventKind::PromptSubmitted, 2);
    let env = envelope_for_event(&event, b"{}").expect("envelope");
    assert_eq!(env.task.task_id, "run-A-tab-02");
    assert_eq!(
        env.integrity.digest_hex,
        "44136fa355b3678a1146ad16f7e8649e94fb4fc21fe77e8310c060f61caaff8a"
    );
    assert_eq!(env.routing.stream, "JPCM.USER");
    assert_eq!(env.routing.destinations, vec!["user.telegram"]);
    assert!(envelope_for_event(&base(EventKind::TabOpened, 1), b"{}").is_none());
}

#[test]
fn inbox_paths_use_envelope_id() {
    let inbox = JmcpInbox::new("/tmp/outbox".to_string());
    let (final_path, partial) = inbox.envelope_paths("jpcm_abc");
    assert_eq!(final_path, "/tmp/outbox/jpcm_abc.json");
    assert_eq!(partial, "/tmp/outbox/tmp/jpcm_abc.json.partial");
    assert_eq!(inbox.tmp_dir(), "/tmp/outbox/tmp");
}
