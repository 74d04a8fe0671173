use kb_svc::launch::KbSvcError;
use kb_svc::settings::{LlmServiceConfig, Settings, MASKED_KEY};

#[test]
fn masked_hides_only_api_key() {
    let service = LlmServiceConfig::new("deepseek", "deepseek-chat", "https://x", "sk-secret");
    let masked = service.masked();

    assert_eq!(masked.api_key, MASKED_KEY);
    assert_eq!(masked.provider, service.provider);
    assert_eq!(masked.model, service.model);
    assert_eq!(masked.base_url, service.base_url);

    let empty = LlmServiceConfig::new("local", "m", "", "").masked();
    assert_eq!(empty.api_key, "");
}

#[test]
fn blank_key_counts_as_missing() {
    assert!(!LlmServiceConfig::new("p", "m", "", "   ").has_api_key());
    assert!(LlmServiceConfig::new("p", "m", "", " k ").has_api_key());
}

#[test]
fn insert_get_remove_keep_identifier_order() {
    let mut settings = Settings::new();
    settings.insert("openai".to_string(), LlmServiceConfig::new("openai", "gpt", "", ""));
    settings.insert("deepseek".to_string(), LlmServiceConfig::new("deepseek", "chat", "", "k"));
    settings.insert("ollama".to_string(), LlmServiceConfig::new("ollama", "llama", "", ""));
    assert_eq!(settings.keys(), vec!["deepseek".to_string(), "ollama".to_string(), "openai".to_string()]);

    settings.insert("openai".to_string(), LlmServiceConfig::new("openai", "gpt-4", "", "k2"));
    assert_eq!(settings.keys().len(), 3);
    assert_eq!(settings.get("openai").map(|c| c.model.clone()), Some("gpt-4".to_string()));
    assert!(settings.contains_key("ollama"));
    assert!(settings.get("nope").is_none());

    settings.remove("ollama");
    settings.remove("ollama");
    assert!(!settings.contains_key("ollama"));
    assert_eq!(settings.keys(), vec!["deepseek".to_string(), "openai".to_string()]);
    assert_eq!(settings.first_with_api_key(), Some("deepseek".to_string()));
}

#[test]
fn first_with_api_key_skips_services_without_key() {
    let mut settings = Settings::new();
    assert_eq!(settings.first_with_api_key(), None);
    settings.insert("a".to_string(), LlmServiceConfig::new("p", "m", "", ""));
    settings.insert("b".to_string(), LlmServiceConfig::new("p", "m", "", "k"));
    assert_eq!(settings.first_with_api_key(), Some("b".to_string()));
}

#[test]
fn upsert_refuses_a_blank_identifier() {
    let mut settings = Settings::new();
    match settings.upsert_checked("  ", LlmServiceConfig::new("p", "m", "", "")) {
        Err(KbSvcError::Config(m)) => assert_eq!(m, "服务标识不能为空"),
        other => panic!("应当被拒绝: {other:?}"),
    }
    assert!(settings.keys().is_empty());
    settings.upsert_checked("x", LlmServiceConfig::new("p", "m", "", "")).expect("应当成功");
    assert!(settings.contains_key("x"));
}
