use kb_svc::chat_session::{follow_up, is_use_service, lagged_notice, unreadable_request_notice, FollowUp};
use kb_svc::hub::HubError;
use kb_svc::settings::{LlmServiceConfig, Settings, MASKED_KEY};
use kb_svc::settings_api::{
    activates_after_upsert, active_after_removal, plan_service_update, service_views, ActiveAfterRemoval,
    ServiceUpdate,
};
use kb_svc::wire::{ClientMessage, ErrorCode, ServerMessage};

fn update(id: &str, provider: &str, key: &str) -> ServiceUpdate {
    ServiceUpdate {
        id: id.to_string(),
        provider: provider.to_string(),
        model: " deepseek-chat ".to_string(),
        base_url: "".to_string(),
        api_key: key.to_string(),
    }
}

fn stored() -> Settings {
    let mut settings = Settings::new();
    settings.insert("deepseek".to_string(), LlmServiceConfig::new("deepseek", "deepseek-chat", "", "sk-old"));
    settings
}

#[test]
fn masked_key_keeps_the_stored_key() {
    let settings = stored();
    let c = plan_service_update(&update("deepseek", "deepseek", MASKED_KEY), Some(&settings)).expect("应当成功");
    assert_eq!(c.api_key, "sk-old");
    assert_eq!(c.model, "deepseek-chat");

    let c = plan_service_update(&update("other", "x", MASKED_KEY), Some(&settings)).expect("应当成功");
    assert_eq!(c.api_key, "");
    let c = plan_service_update(&update("deepseek", "x", MASKED_KEY), None).expect("应当成功");
    assert_eq!(c.api_key, "");

    let c = plan_service_update(&update("deepseek", " deepseek ", " sk-new "), Some(&settings)).expect("应当成功");
    assert_eq!(c.api_key, "sk-new");
    assert_eq!(c.provider, "deepseek");
}

#[test]
fn blank_identifier_or_provider_is_refused() {
    assert_eq!(plan_service_update(&update(" ", "x", "k"), None), Err("服务标识不能为空".to_string()));
    assert_eq!(plan_service_update(&update("a", "  ", "k"), None), Err("provider 不能为空".to_string()));
}

#[test]
fn first_keyed_service_becomes_active() {
    let keyed = LlmServiceConfig::new("p", "m", "", "k");
    let unkeyed = LlmServiceConfig::new("p", "m", "", "");
    assert!(activates_after_upsert(&None, &keyed));
    assert!(!activates_after_upsert(&None, &unkeyed));
    assert!(!activates_after_upsert(&Some("x".to_string()), &keyed));
}

#[test]
fn removing_the_active_service_picks_the_next_keyed_one() {
    let mut reloaded = Settings::new();
    reloaded.insert("a".to_string(), LlmServiceConfig::new("p", "m", "", ""));
    reloaded.insert("b".to_string(), LlmServiceConfig::new("p", "m", "", "k"));
    let active = Some("gone".to_string());
    assert_eq!(active_after_removal(&active, "gone", Some(&reloaded)), ActiveAfterRemoval::Use("b".to_string()));
    assert_eq!(active_after_removal(&active, "other", Some(&reloaded)), ActiveAfterRemoval::Keep);
    assert_eq!(active_after_removal(&active, "gone", None), ActiveAfterRemoval::Clear);
    assert_eq!(active_after_removal(&active, "gone", Some(&Settings::new())), ActiveAfterRemoval::Clear);
    assert_eq!(active_after_removal(&None, "gone", Some(&reloaded)), ActiveAfterRemoval::Keep);
}

#[test]
fn settings_page_never_shows_a_key() {
    let mut settings = stored();
    settings.insert("local".to_string(), LlmServiceConfig::new("ollama", "llama", "http://x", ""));
    let views = service_views(&settings);
    assert_eq!(views.len(), 2);
    assert_eq!(views[0].id, "deepseek");
    assert_eq!(views[0].api_key, MASKED_KEY);
    assert!(views[0].has_api_key);
    assert_eq!(views[1].id, "local");
    assert_eq!(views[1].api_key, "");
    assert_eq!(views[1].base_url, "http://x");
    assert!(!views[1].has_api_key);
}

#[test]
fn chat_connection_notices() {
    assert_eq!(
        lagged_notice(3),
        ServerMessage::Error {
            turn_id: None,
            code: ErrorCode::Internal,
            message: "事件积压，已丢弃 3 条增量，界面可能不完整".to_string(),
        }
    );
    assert_eq!(
        unreadable_request_notice("expected value"),
        ServerMessage::Error {
            turn_id: None,
            code: ErrorCode::BadRequest,
            message: "无法解析请求: expected value".to_string(),
        }
    );

    assert!(is_use_service(&ClientMessage::UseService { service_id: "a".to_string() }));
    assert!(!is_use_service(&ClientMessage::Cancel { turn_id: "t".to_string() }));
    assert!(matches!(follow_up(true, Ok(())), FollowUp::BroadcastReady));
    assert!(matches!(follow_up(false, Ok(())), FollowUp::Nothing));
    let err = HubError::new(ErrorCode::UnknownService, "服务 x 不存在".to_string());
    match follow_up(true, Err(err)) {
        FollowUp::Reply(ServerMessage::Error { turn_id: None, code: ErrorCode::UnknownService, message }) => {
            assert_eq!(message, "服务 x 不存在")
        }
        _ => panic!("应当回给发送者"),
    }
}
