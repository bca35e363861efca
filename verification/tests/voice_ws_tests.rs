use voxtype::voice_ws::{
    check_runtime_health, runtime_health_from, HealthFields, JsonText, ServerMessage,
    SessionState,
};

fn msg(sid: Option<&str>, kind: Option<&str>, text: Option<&str>) -> ServerMessage {
    ServerMessage {
        session_id: sid.map(|s| s.to_string()),
        kind: kind.map(|s| s.to_string()),
        text: text.map(|s| s.to_string()),
        message: JsonText::Absent,
        code: None,
    }
}

fn error_msg(message: JsonText, code: Option<&str>) -> ServerMessage {
    ServerMessage {
        session_id: Some("s1".into()),
        kind: Some("error".into()),
        text: None,
        message,
        code: code.map(|s| s.to_string()),
    }
}

#[test]
fn health_fields_default_to_false() {
    let h = runtime_health_from(HealthFields {
        ok: Some(true),
        ready: None,
        model_loaded: Some(true),
        model_id: Some("sensevoice-int8".into()),
        message: Some("loading".into()),
        execution_provider: None,
    });
    assert!(h.ok && !h.ready && h.model_loaded);
    assert_eq!(h.model_id.as_deref(), Some("sensevoice-int8"));
    assert_eq!(h.detail.as_deref(), Some("loading"));
    assert!(!check_runtime_health(&Some(h)));
    assert!(!check_runtime_health(&None));
    let ready = runtime_health_from(HealthFields {
        ok: Some(true),
        ready: Some(true),
        model_loaded: None,
        model_id: None,
        message: None,
        execution_provider: Some("cuda".into()),
    });
    assert!(check_runtime_health(&Some(ready)));
}

#[test]
fn session_start_handshake() {
    let mut s = SessionState::new();
    assert_eq!(s.start_status(), None);
    let e = s.handle_server_message("s1", &msg(Some("s1"), Some("session.started"), None));
    assert!(e.overlay_text.is_none() && e.deliver.is_none());
    assert_eq!(s.start_status(), Some(Ok(())));
    // An error after the start does not become a start error.
    s.handle_server_message("s1", &error_msg(JsonText::Text("boom".into()), None));
    assert_eq!(s.start_status(), Some(Ok(())));
}

#[test]
fn error_before_start_fails_the_handshake() {
    let mut s = SessionState::new();
    s.handle_server_message("s1", &error_msg(JsonText::Text("model not loaded".into()), None));
    assert_eq!(s.start_status(), Some(Err("model not loaded".to_string())));
    assert_eq!(s.start_timeout_result(), Err("model not loaded".to_string()));
    let fresh = SessionState::new();
    assert_eq!(fresh.start_timeout_result(), Err("语音服务响应超时，请确认模型已加载完成".to_string()));
}

#[test]
fn error_text_sources() {
    let mut s = SessionState::new();
    s.handle_server_message("s1", &error_msg(JsonText::Absent, Some("E_MODEL")));
    assert_eq!(s.start_error.as_deref(), Some("E_MODEL"));
    s.handle_server_message("s1", &error_msg(JsonText::NotText, Some("E_MODEL")));
    assert_eq!(s.start_error.as_deref(), Some("语音识别失败"));
    s.handle_server_message("s1", &error_msg(JsonText::Absent, None));
    assert_eq!(s.start_error.as_deref(), Some("语音识别失败"));
}

#[test]
fn foreign_session_messages_ignored() {
    let mut s = SessionState::new();
    let e = s.handle_server_message("s1", &msg(Some("other"), Some("session.started"), None));
    assert!(e.overlay_text.is_none() && e.deliver.is_none());
    assert!(!s.started);
    // A message without a session id is taken as ours.
    s.handle_server_message("s1", &msg(None, Some("session.started"), None));
    assert!(s.started);
}

#[test]
fn partial_and_final_transcripts() {
    let mut s = SessionState::new();
    let e = s.handle_server_message("s1", &msg(Some("s1"), Some("partial"), Some("今天")));
    assert_eq!(e.overlay_text.as_deref(), Some("今天"));
    assert!(e.deliver.is_none());
    let e = s.handle_server_message("s1", &msg(Some("s1"), Some("partial"), None));
    assert_eq!(e.overlay_text.as_deref(), Some(""));
    // A final before session.end was sent is shown but not delivered.
    let e = s.handle_server_message("s1", &msg(Some("s1"), Some("final"), Some("早")));
    assert!(e.deliver.is_none());
    s.begin_end_session();
    let e = s.handle_server_message("s1", &msg(Some("s1"), Some("final"), Some("今天天气很好。")));
    assert_eq!(e.overlay_text.as_deref(), Some("今天天气很好。"));
    match e.deliver {
        Some(Ok(r)) => assert_eq!(r.text, "今天天气很好。"),
        _ => panic!("expected the transcript"),
    }
    let e = s.handle_server_message("s1", &msg(Some("s1"), Some("final"), Some("again")));
    assert!(e.deliver.is_none());
}

#[test]
fn error_after_end_is_delivered() {
    let mut s = SessionState::new();
    s.handle_server_message("s1", &msg(Some("s1"), Some("session.started"), None));
    s.begin_end_session();
    let e = s.handle_server_message("s1", &error_msg(JsonText::Text("decode failed".into()), None));
    match e.deliver {
        Some(Err(m)) => assert_eq!(m, "decode failed"),
        _ => panic!("expected the error"),
    }
    assert!(!s.awaiting_final);
}

#[test]
fn unknown_messages_ignored() {
    let mut s = SessionState::new();
    let e = s.handle_server_message("s1", &msg(Some("s1"), Some("pong"), Some("x")));
    assert!(e.overlay_text.is_none() && e.deliver.is_none());
    let e = s.handle_server_message("s1", &msg(Some("s1"), None, Some("x")));
    assert!(e.overlay_text.is_none() && e.deliver.is_none());
}
