use jailgun::bridge::{
    check_line_length, check_version, default_delete_after_upload, default_ref_name,
    default_upload_timeout_ms, envelope_for_command, frame_line, BridgeCommand, Envelope,
    OpenTabPayload, ProtocolError, MAX_LINE_BYTES, PROTOCOL_VERSION,
};

fn envelope(v: u8) -> Envelope {
    Envelope {
        v,
        kind: "ping".into(),
        id: None,
        correlation_id: None,
        run_id: "r".into(),
        tab_id: None,
        ts: "t".into(),
        payload: serde_json::Value::Object(serde_json::Map::new()),
    }
}

#[test]
fn rejects_wrong_version() {
    let err = check_version(envelope(99)).expect_err("wrong version should be rejected");
    assert!(matches!(
        err,
        ProtocolError::UnsupportedVersion { got: 99, expected: PROTOCOL_VERSION }
    ));
    assert_eq!(err.message(), "unsupported protocol version 99 (this build speaks v1)");
}

#[test]
fn accepts_current_version() {
    assert_eq!(check_version(envelope(1)), Ok(envelope(1)));
}

#[test]
fn rejects_oversized_line() {
    let huge = "a".repeat(MAX_LINE_BYTES + 1);
    let err = check_line_length(&huge).expect_err("oversize");
    assert!(matches!(err, ProtocolError::LineTooLong { .. }));
    assert_eq!(
        err,
        ProtocolError::LineTooLong { got: MAX_LINE_BYTES + 1, max: MAX_LINE_BYTES }
    );
}

#[test]
fn line_length_counts_utf8_bytes() {
    let exact = "a".repeat(MAX_LINE_BYTES);
    assert!(check_line_length(&exact).is_ok());
    let mut wide = "a".repeat(MAX_LINE_BYTES - 1);
    wide.push('é');
    assert!(check_line_length(&wide).is_err());
}

#[test]
fn framing_appends_a_newline_or_refuses() {
    assert_eq!(frame_line("{\"v\":1}".into()), Ok("{\"v\":1}\n".to_string()));
    assert!(frame_line("a".repeat(MAX_LINE_BYTES + 1)).is_err());
}

#[test]
fn protocol_errors_render_messages() {
    assert_eq!(
        ProtocolError::LineTooLong { got: 5, max: 4 }.message(),
        "line exceeded maximum size of 4 bytes (got 5)"
    );
    assert_eq!(
        ProtocolError::UnknownCommand("does-not-exist".into()).message(),
        "unknown bridge command kind \"does-not-exist\""
    );
    assert_eq!(
        ProtocolError::UnknownEvent("ghost-event".into()).message(),
        "unknown bridge event kind \"ghost-event\""
    );
}

#[test]
fn command_envelopes_carry_kind_run_and_tab() {
    let command = BridgeCommand::OpenTab(OpenTabPayload {
        chat_url: "https://chatgpt.com/".into(),
        model: "pro-extended".into(),
        profile_dir: "/tmp/profile".into(),
    });
    assert_eq!(command.kind(), "open-tab");
    let e = envelope_for_command(
        &command,
        "run-test",
        "2026-05-31T12:00:00Z",
        Some(3),
        serde_json::Value::Null,
    );
    assert_eq!(e.v, 1);
    assert_eq!(e.kind, "open-tab");
    assert_eq!(e.run_id, "run-test");
    assert_eq!(e.tab_id, Some(3));
    assert_eq!(e.ts, "2026-05-31T12:00:00Z");
}

#[test]
fn upload_defaults() {
    assert_eq!(default_ref_name(), "HEAD");
    assert!(default_delete_after_upload());
    assert_eq!(default_upload_timeout_ms(), 45000);
}
