use kb_svc::launch::KbSvcError;
use kb_svc::settings::{LlmServiceConfig, Settings};
use kb_svc::settings_file::{remove_service_text, upsert_service_text};

fn config_message(r: Result<String, KbSvcError>) -> String {
    match r {
        Err(KbSvcError::Config(m)) => m,
        other => panic!("应当返回配置错误，实际: {other:?}"),
    }
}

#[test]
fn upsert_text_keeps_comments() {
    let text = "# 这是用户的注释\n[services.deepseek]\nprovider = \"deepseek\"\nmodel = \"deepseek-chat\"\nbase_url = \"\"\napi_key = \"\"\n";
    let service = LlmServiceConfig::new("deepseek", "deepseek-reasoner", "", "sk-new");

    let written = upsert_service_text(text, "deepseek", &service).expect("覆盖应当成功");
    assert!(written.contains("# 这是用户的注释"), "注释应当被保留:\n{written}");

    let settings = Settings::from_toml(&written).expect("应当能解析");
    let stored = settings.get("deepseek").expect("应当有 deepseek");
    assert_eq!(stored.api_key, "sk-new");
    assert_eq!(stored.model, "deepseek-reasoner");
    assert_eq!(stored.provider, "deepseek");
}

#[test]
fn upsert_text_keeps_comments_inside_the_table() {
    let text = "[services.deepseek]\n# 从控制台复制的 key\napi_key = \"old\"\nmodel = \"m\"\n";
    let service = LlmServiceConfig::new("deepseek", "m2", "https://x", "sk-2");

    let written = upsert_service_text(text, "deepseek", &service).expect("覆盖应当成功");
    assert!(written.contains("# 从控制台复制的 key\napi_key = \"sk-2\""), "键上方的注释应当被保留:\n{written}");

    let settings = Settings::from_toml(&written).expect("应当能解析");
    let stored = settings.get("deepseek").expect("应当有 deepseek");
    assert_eq!(stored.base_url, "https://x");
    assert_eq!(stored.model, "m2");
}

#[test]
fn upsert_text_into_an_empty_file_adds_the_table() {
    let service = LlmServiceConfig::new("p", "m", "", "k");
    let written = upsert_service_text("", "a", &service).expect("写入应当成功");

    let settings = Settings::from_toml(&written).expect("应当能解析");
    assert_eq!(settings.keys(), vec!["a".to_string()]);
    assert_eq!(settings.get("a").expect("应当有 a").api_key, "k");
}

#[test]
fn upsert_text_keeps_other_services() {
    let text = "# 头部注释\n[services.a]\nprovider = \"p\"\nmodel = \"m\"\n";
    let service = LlmServiceConfig::new("q", "n", "", "");
    let written = upsert_service_text(text, "b", &service).expect("写入应当成功");
    assert!(written.contains("# 头部注释"));

    let settings = Settings::from_toml(&written).expect("应当能解析");
    assert_eq!(settings.keys(), vec!["a".to_string(), "b".to_string()]);
    assert_eq!(settings.get("a").expect("应当有 a").provider, "p");
    assert_eq!(settings.get("b").expect("应当有 b").provider, "q");
}

#[test]
fn upsert_text_replaces_an_entry_that_is_not_a_table() {
    let text = "[services]\ndeepseek = \"旧的写法\"\n";
    let service = LlmServiceConfig::new("deepseek", "deepseek-chat", "", "sk");
    let written = upsert_service_text(text, "deepseek", &service).expect("写入应当成功");

    let settings = Settings::from_toml(&written).expect("应当能解析");
    assert_eq!(settings.get("deepseek").expect("应当有 deepseek").model, "deepseek-chat");
}

#[test]
fn upsert_text_refuses_a_blank_id() {
    let service = LlmServiceConfig::new("p", "m", "", "k");
    assert_eq!(config_message(upsert_service_text("", "  \t", &service)), "服务标识不能为空");
    assert_eq!(config_message(upsert_service_text("not toml [[", "", &service)), "服务标识不能为空");
}

#[test]
fn upsert_text_refuses_services_that_is_not_a_table() {
    let service = LlmServiceConfig::new("p", "m", "", "k");
    assert_eq!(
        config_message(upsert_service_text("services = 1\n", "a", &service)),
        "services 必须是一个表（table）"
    );
    assert_eq!(
        config_message(upsert_service_text("services = { a = 1 }\n", "a", &service)),
        "services 必须是一个表（table）"
    );
}

#[test]
fn upsert_text_reports_a_parse_error() {
    let service = LlmServiceConfig::new("p", "m", "", "k");
    let message = config_message(upsert_service_text("[services\n", "a", &service));
    assert!(message.starts_with("TOML 解析失败: "), "{message}");
    assert!(message.len() > "TOML 解析失败: ".len());
}

#[test]
fn remove_text_is_idempotent() {
    let a = LlmServiceConfig::new("p", "m", "", "k");
    let text = upsert_service_text("", "a", &a).expect("写入 a 应当成功");
    let text = upsert_service_text(&text, "b", &a).expect("写入 b 应当成功");

    let once = remove_service_text(&text, "a").expect("删除应当成功");
    let twice = remove_service_text(&once, "a").expect("重复删除应当成功");

    let settings = Settings::from_toml(&twice).expect("应当能解析");
    assert!(!settings.contains_key("a"));
    assert!(settings.contains_key("b"));
    assert_eq!(Settings::from_toml(&once).expect("应当能解析"), settings);
}

#[test]
fn remove_text_keeps_comments() {
    let text = "[services.a]\nprovider = \"p\"\n\n# 用户的注释\n[services.b]\nprovider = \"q\"\n";
    let written = remove_service_text(text, "a").expect("删除应当成功");
    assert!(written.contains("# 用户的注释"));
    let settings = Settings::from_toml(&written).expect("应当能解析");
    assert_eq!(settings.keys(), vec!["b".to_string()]);
}

#[test]
fn remove_text_without_services_leaves_the_text() {
    let text = "# 只有注释\ntitle = \"x\"\n";
    assert_eq!(remove_service_text(text, "a").expect("删除应当成功"), text);
    assert_eq!(remove_service_text("", "a").expect("删除应当成功"), "");
}

#[test]
fn remove_text_reports_a_parse_error() {
    let message = config_message(remove_service_text("a = = 1\n", "a"));
    assert!(message.starts_with("TOML 解析失败: "), "{message}");
}
