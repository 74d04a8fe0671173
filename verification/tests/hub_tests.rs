use kb_svc::hub::{ask_turn_id, ActiveTurn, HubState, SERVER_VERSION};
use kb_svc::llm;
use kb_svc::settings::{LlmServiceConfig, Settings};
use kb_svc::wire::{
    Capabilities, ErrorCode, FinishReason, LogicOutput, PluginEvent, PluginRequest, RawContent, RawPayload,
    ServerMessage, TokenCounts,
};

fn settings_with_service(with_key: bool) -> Settings {
    let mut settings = Settings::new();
    settings.insert(
        "deepseek".to_string(),
        LlmServiceConfig::new("deepseek", "deepseek-chat", "", if with_key { "sk-test" } else { "" }),
    );
    settings
}

fn ask(state: &HubState, settings: &Result<Settings, String>, service: Option<&str>) -> Result<PluginRequest, kb_svc::hub::HubError> {
    state.decide_ask("t1".to_string(), "你好".to_string(), service.map(|s| s.to_string()), settings)
}

fn raw(content: RawContent) -> PluginEvent {
    PluginEvent::Raw {
        turn_id: "t1".to_string(),
        payload: RawPayload { usage: None, finish_reason: None, content: Some(content) },
    }
}

/// A hub with the `deepseek` service (with a key), a plugin and turn `t1`
/// in flight.
fn busy_hub() -> HubState {
    let settings = settings_with_service(true);
    let mut state = HubState::new(&settings);
    state.register_plugin(7);
    let request = ask(&state, &Ok(settings), None).expect("应当转发");
    match request {
        PluginRequest::Ask { turn_id, service_id, .. } => {
            state.ask_delivered(turn_id, service_id, true).expect("插件在线");
        }
        other => panic!("应当是 ask: {other:?}"),
    }
    state
}

#[test]
fn ask_without_service_is_rejected() {
    let settings = Settings::new();
    let state = HubState::new(&settings);
    let err = ask(&state, &Ok(settings), None).expect_err("应当被拒绝");
    assert_eq!(err.code, ErrorCode::UnknownService);
    assert_eq!(err.turn_id.as_deref(), Some("t1"));
    assert_eq!(err.message, "尚未配置任何可用的 LLM 服务");
}

#[test]
fn ask_without_api_key_is_rejected() {
    let settings = settings_with_service(false);
    let state = HubState::new(&settings);
    let err = ask(&state, &Ok(settings), Some("deepseek")).expect_err("应当被拒绝");
    assert_eq!(err.code, ErrorCode::MissingApiKey);
    assert_eq!(err.message, "服务 deepseek 还未配置 API key，请在设置里填写");
}

#[test]
fn ask_falls_back_only_to_services_with_key() {
    let settings = settings_with_service(false);
    let state = HubState::new(&settings);
    assert_eq!(state.active_service(), None);
    let err = ask(&state, &Ok(settings), None).expect_err("应当被拒绝");
    assert_eq!(err.code, ErrorCode::UnknownService);
}

#[test]
fn ask_for_an_unknown_service_names_it() {
    let settings = settings_with_service(true);
    let state = HubState::new(&settings);
    let err = ask(&state, &Ok(settings), Some("nope")).expect_err("应当被拒绝");
    assert_eq!(err.code, ErrorCode::UnknownService);
    assert_eq!(err.message, "服务 nope 不存在");
}

#[test]
fn blank_question_and_unreadable_settings_are_refused() {
    let settings = settings_with_service(true);
    let state = HubState::new(&settings);
    let err = state
        .decide_ask("t1".to_string(), "  \n".to_string(), None, &Ok(settings))
        .expect_err("空问题应当被拒绝");
    assert_eq!(err.code, ErrorCode::BadRequest);
    assert_eq!(err.message, "问题不能为空");

    let err = ask(&state, &Err("坏了".to_string()), None).expect_err("读不到设置");
    assert_eq!(err.code, ErrorCode::Internal);
    assert_eq!(err.message, "读取设置失败: 坏了");
}

#[test]
fn ask_without_plugin_reports_offline() {
    let settings = settings_with_service(true);
    let mut state = HubState::new(&settings);
    assert!(!state.plugin_online());
    let request = ask(&state, &Ok(settings), None).expect("检查应当通过");
    let (turn_id, service_id) = match request {
        PluginRequest::Ask { turn_id, service_id, .. } => (turn_id, service_id),
        other => panic!("应当是 ask: {other:?}"),
    };
    let err = state.ask_delivered(turn_id, service_id, false).expect_err("插件不在线");
    assert_eq!(err.code, ErrorCode::PluginOffline);
    assert_eq!(err.message, "LLM 插件当前未连接");
    assert!(state.active_turn.is_none());
}

#[test]
fn ask_is_forwarded_and_events_are_broadcast() {
    let settings = settings_with_service(true);
    let mut state = HubState::new(&settings);
    state.register_plugin(1);
    match ask(&state, &Ok(settings), None).expect("应当转发") {
        PluginRequest::Ask { turn_id, service_id, service, question } => {
            assert_eq!(turn_id, "t1");
            assert_eq!(service_id, "deepseek");
            assert_eq!(service.model, "deepseek-chat");
            assert_eq!(question, "你好");
            state.ask_delivered(turn_id, service_id, true).expect("插件在线");
        }
        other => panic!("应当是 ask: {other:?}"),
    }

    let mut seen = Vec::new();
    seen.extend(state.handle_plugin_event(PluginEvent::Started {
        turn_id: "t1".to_string(),
        model: "deepseek-chat".to_string(),
        capabilities: Capabilities::default(),
    }));
    seen.extend(state.handle_plugin_event(raw(RawContent::TextDelta {
        logic: llm::LogicOutput::Answer,
        text: "你好".to_string(),
    })));
    seen.extend(state.handle_plugin_event(raw(RawContent::TextDelta {
        logic: llm::LogicOutput::Reasoning,
        text: "先想想".to_string(),
    })));
    seen.extend(state.handle_plugin_event(PluginEvent::Raw {
        turn_id: "t1".to_string(),
        payload: RawPayload {
            usage: Some(TokenCounts { input: Some(10), output: Some(2), total: Some(12) }),
            finish_reason: None,
            content: None,
        },
    }));
    seen.extend(state.handle_plugin_event(PluginEvent::Finished {
        turn_id: "t1".to_string(),
        reason: Some(FinishReason::Completed),
    }));

    assert_eq!(seen.len(), 5);
    assert!(matches!(&seen[0], ServerMessage::Started { turn_id, model, service_id, .. }
        if turn_id == "t1" && model == "deepseek-chat" && service_id == "deepseek"));
    assert!(matches!(&seen[1], ServerMessage::Delta { logic: LogicOutput::Answer, text, .. } if text == "你好"));
    assert!(matches!(&seen[2], ServerMessage::Delta { logic: LogicOutput::Reasoning, text, .. } if text == "先想想"));
    assert!(matches!(&seen[3], ServerMessage::Usage { usage, .. } if usage.total_tokens == Some(12)));
    assert!(matches!(&seen[4], ServerMessage::Finished { reason: Some(FinishReason::Completed), .. }));

    assert!(state.take_active_turn().is_none());
}

#[test]
fn cancel_finishes_turn_immediately() {
    let mut state = busy_hub();
    let (to_plugin, to_browsers) = state.handle_cancel("t1").expect("取消应当成功");
    assert_eq!(to_plugin, PluginRequest::Cancel { turn_id: "t1".to_string() });
    assert_eq!(
        to_browsers,
        ServerMessage::Finished { turn_id: "t1".to_string(), reason: Some(FinishReason::Cancelled) }
    );
    assert!(state.active_turn.is_none());

    let err = state.handle_cancel("t1").expect_err("已经没有进行中的生成");
    assert_eq!(err.code, ErrorCode::BadRequest);
    assert_eq!(err.message, "没有正在进行的该轮生成");
}

#[test]
fn plugin_disconnect_fails_active_turn() {
    let mut state = busy_hub();
    let message = state.unregister_plugin(7).expect("应当广播错误");
    assert_eq!(
        message,
        ServerMessage::Error {
            turn_id: Some("t1".to_string()),
            code: ErrorCode::PluginOffline,
            message: "插件在生成过程中断开连接".to_string(),
        }
    );
    assert!(state.take_active_turn().is_none(), "turn 状态应当被清空");
    assert!(!state.plugin_online());
    assert!(state.unregister_plugin(7).is_none());
}

#[test]
fn unrelated_events_are_ignored() {
    let settings = settings_with_service(true);
    let mut state = HubState::new(&settings);
    let before = state.clone();
    let out = state.handle_plugin_event(PluginEvent::Raw {
        turn_id: "ghost".to_string(),
        payload: RawPayload {
            usage: None,
            finish_reason: None,
            content: Some(RawContent::TextDelta { logic: llm::LogicOutput::Answer, text: "不该出现".to_string() }),
        },
    });
    assert!(out.is_empty(), "无关事件不应产生广播");
    assert_eq!(state, before);

    let mut busy = busy_hub();
    let out = busy.handle_plugin_event(PluginEvent::Error { turn_id: Some("ghost".to_string()), message: "x".to_string() });
    assert!(out.is_empty());
    assert!(busy.is_active_turn("t1"));
}

#[test]
fn provider_error_ends_the_turn() {
    let mut state = busy_hub();
    let out = state.handle_plugin_event(PluginEvent::Error { turn_id: None, message: "限流".to_string() });
    assert_eq!(
        out,
        vec![ServerMessage::Error { turn_id: None, code: ErrorCode::Provider, message: "限流".to_string() }]
    );
    assert!(state.active_turn.is_none());
}

#[test]
fn one_turn_at_a_time() {
    let state = busy_hub();
    let err = ask(&state, &Ok(settings_with_service(true)), None).expect_err("应当被拒绝");
    assert_eq!(err.code, ErrorCode::BadRequest);
    assert_eq!(err.message, "上一轮仍在生成中，请先取消");
    assert_eq!(
        state.active_turn,
        Some(ActiveTurn { turn_id: "t1".to_string(), service_id: "deepseek".to_string(), started: false })
    );
}

#[test]
fn ready_reports_current_state() {
    let settings = settings_with_service(true);
    let state = HubState::new(&settings);
    match state.ready_message(settings.keys()) {
        ServerMessage::Ready { plugin_online, services, active_service, server_version } => {
            assert!(!plugin_online);
            assert_eq!(services, vec!["deepseek".to_string()]);
            assert_eq!(active_service.as_deref(), Some("deepseek"));
            assert_eq!(server_version, SERVER_VERSION);
        }
        other => panic!("应当返回 ready，实际: {other:?}"),
    }
}

#[test]
fn use_service_switches_only_to_configured_services() {
    let settings = settings_with_service(false);
    let mut state = HubState::new(&settings);
    let ok = Ok(settings);
    let err = state.use_service(&ok, "nope").expect_err("不存在的服务");
    assert_eq!(err.code, ErrorCode::UnknownService);
    assert_eq!(state.active_service(), None);
    state.use_service(&ok, "deepseek").expect("应当成功");
    assert_eq!(state.active_service(), Some("deepseek".to_string()));
    state.clear_active_service();
    assert_eq!(state.active_service(), None);
}

#[test]
fn registering_a_plugin_twice_keeps_one_entry() {
    let mut state = HubState::new(&Settings::new());
    state.register_plugin(3);
    state.register_plugin(3);
    assert_eq!(state.plugins, vec![3u128]);
}

#[test]
fn generated_turn_ids_are_simple_uuids() {
    assert_eq!(ask_turn_id(Some("mine".to_string())), "mine");
    let id = ask_turn_id(None);
    assert_eq!(id.len(), 32);
    assert!(id.chars().all(|c| c.is_ascii_hexdigit()));
}

#[test]
fn a_cancelled_turn_frees_the_hub_for_the_next_question() {
    let mut state = busy_hub();
    state.handle_cancel("t1").expect("取消应当成功");
    let request = state
        .decide_ask("t2".to_string(), "下一个问题".to_string(), None, &Ok(settings_with_service(true)))
        .expect("空闲后应当接受新的提问");
    assert!(matches!(request, PluginRequest::Ask { turn_id, .. } if turn_id == "t2"));
}
