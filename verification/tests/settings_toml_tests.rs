use kb_svc::launch::KbSvcError;
use kb_svc::settings::{LlmServiceConfig, Settings};
use kb_svc::settings_toml::settings_from_items;

#[test]
fn parse_toml_reads_all_services() {
    let text = r#"
[services.deepseek]
provider = "deepseek"
model = "deepseek-chat"
base_url = "https://api.deepseek.com"
api_key = "sk-1"

[services.local]
provider = "ollama"
model = "qwen2.5"
"#;

    let settings = Settings::from_toml(text).expect("应当解析成功");
    assert_eq!(settings.services.len(), 2);

    let deepseek = settings.get("deepseek").expect("应当有 deepseek");
    assert_eq!(deepseek.provider, "deepseek");
    assert_eq!(deepseek.model, "deepseek-chat");
    assert_eq!(deepseek.base_url, "https://api.deepseek.com");
    assert_eq!(deepseek.api_key, "sk-1");
    assert!(deepseek.has_api_key());

    let local = settings.get("local").expect("应当有 local");
    assert_eq!(local.base_url, "");
    assert_eq!(local.api_key, "");
    assert!(!local.has_api_key());
}

#[test]
fn parse_toml_rejects_wrong_type() {
    let text = r#"
[services.bad]
provider = "deepseek"
model = "m"
api_key = 123
"#;

    match Settings::from_toml(text) {
        Err(KbSvcError::Config(m)) => assert_eq!(m, "services.bad.api_key 必须是字符串"),
        other => panic!("应当返回配置错误，实际: {other:?}"),
    }
}

#[test]
fn to_toml_round_trips() {
    let mut settings = Settings::default();
    settings.insert(
        "deepseek".to_string(),
        LlmServiceConfig::new("deepseek", "deepseek-chat", "https://api.deepseek.com", "sk-1"),
    );

    let text = settings.to_toml().expect("应当渲染成功");
    let parsed = Settings::from_toml(&text).expect("应当解析回来");

    assert_eq!(settings, parsed);
}

#[test]
fn items_that_are_not_tables_and_bad_text_are_refused() {
    match Settings::from_toml("services = { x = 1 }") {
        Err(KbSvcError::Config(m)) => assert_eq!(m, "services.x 必须是一个表"),
        other => panic!("应当被拒绝: {other:?}"),
    }
    match Settings::from_toml("[services\n") {
        Err(KbSvcError::Config(m)) => assert!(m.starts_with("TOML 解析失败: "), "{m}"),
        other => panic!("应当被拒绝: {other:?}"),
    }
    let empty = Settings::from_toml("# 没有服务\ntitle = \"x\"\n").expect("应当成功");
    assert!(empty.services.is_empty());
    let not_a_table = Settings::from_toml("services = 3\n").expect("不是表的 services 视为没有服务");
    assert!(not_a_table.services.is_empty());
}

#[test]
fn items_are_read_in_order_and_sorted_by_identifier() {
    let items = vec![
        ("zeta".to_string(), Some(vec![Some(Some("p".to_string())), None, None, None])),
        ("alpha".to_string(), Some(vec![None, Some(Some("m".to_string())), None, Some(Some("k".to_string()))])),
    ];
    let settings = settings_from_items(Some(items)).expect("应当成功");
    assert_eq!(settings.keys(), vec!["alpha".to_string(), "zeta".to_string()]);
    assert_eq!(settings.get("alpha").map(|c| c.api_key.clone()), Some("k".to_string()));
    assert_eq!(settings.get("zeta").map(|c| c.model.clone()), Some(String::new()));

    let bad = vec![("x".to_string(), Some(vec![None, Some(None), Some(None), None]))];
    match settings_from_items(Some(bad)) {
        Err(KbSvcError::Config(m)) => assert_eq!(m, "services.x.model 必须是字符串"),
        other => panic!("应当被拒绝: {other:?}"),
    }
    assert!(settings_from_items(None).expect("应当成功").services.is_empty());
}
