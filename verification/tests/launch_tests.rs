use kb_svc::launch::{default_config_path, service_log_lines, KbSvcError, LaunchConfig, DEFAULT_TCP_ADDR};
use kb_svc::settings::{LlmServiceConfig, Settings};

#[test]
fn defaults_resolve_to_documented_values() {
    let config = LaunchConfig::new();

    assert_eq!(config.resolved_tcp_addr(), DEFAULT_TCP_ADDR);
    let xdg = Some("/home/me/.cfg".to_string());
    let home = Some("/home/me".to_string());
    assert_eq!(
        config.resolved_config_path(xdg.clone(), home.clone()),
        default_config_path(xdg, home)
    );
}

#[test]
fn setters_override_defaults() {
    let config = LaunchConfig::new()
        .with_tcp_addr("127.0.0.1:0")
        .with_config_path("/tmp/x.toml")
        .with_runtime_dir("/tmp/run")
        .with_assets_dir("/tmp/assets");

    assert_eq!(config.resolved_tcp_addr(), "127.0.0.1:0");
    assert_eq!(config.resolved_config_path(None, None), "/tmp/x.toml");
    assert_eq!(config.runtime_dir(), Some("/tmp/run".to_string()));
    assert_eq!(config.assets_dir(), Some("/tmp/assets".to_string()));
}

#[test]
fn default_config_path_prefers_xdg_then_home() {
    assert_eq!(default_config_path(Some("/x".to_string()), Some("/h".to_string())), "/x/llm_kb/config.toml");
    assert_eq!(default_config_path(None, Some("/h".to_string())), "/h/.config/llm_kb/config.toml");
    assert_eq!(default_config_path(None, None), "./llm_kb/config.toml");
    assert_eq!(DEFAULT_TCP_ADDR, "127.0.0.1:8788");
}

#[test]
fn unset_items_read_back_as_none() {
    let config = LaunchConfig::new();
    assert_eq!(config.tcp_addr(), None);
    assert_eq!(config.config_path(), None);
    assert_eq!(config.runtime_dir(), None);
    assert_eq!(config.assets_dir(), None);
}

#[test]
fn service_log_lines_report_keys() {
    let empty = service_log_lines(&Settings::new());
    assert_eq!(empty, vec!["尚未配置任何 LLM 服务，可在网页右上角「设置」里添加".to_string()]);

    let mut settings = Settings::new();
    settings.insert("deepseek".to_string(), LlmServiceConfig::new("deepseek", "deepseek-chat", "", "sk"));
    settings.insert("local".to_string(), LlmServiceConfig::new("ollama", "llama", "", ""));
    assert_eq!(
        service_log_lines(&settings),
        vec![
            "服务 deepseek: provider=deepseek model=deepseek-chat api_key=已配置".to_string(),
            "服务 local: provider=ollama model=llama api_key=缺失".to_string(),
        ]
    );
}

#[test]
fn service_errors_render_their_kind() {
    assert_eq!(KbSvcError::Io("boom".to_string()).message(), "io error: boom");
    assert_eq!(KbSvcError::Config("bad".to_string()).message(), "config error: bad");
    assert_eq!(KbSvcError::Server("down".to_string()).message(), "server error: down");
}
