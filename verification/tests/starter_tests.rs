use kb_svc::args::{parse, Command, HandshakePrompt};
use kb_svc::assets::{Asset, AssetSettings};
use kb_svc::starter::{child_args, kb_core_candidate, kb_core_file_name_, LaunchSpec};

#[test]
fn child_is_started_in_stdio_handshake_mode() {
    let spec = LaunchSpec {
        kb_core: "/opt/kb/kb-core".to_string(),
        runtime_dir: "/run/kb".to_string(),
        storage_dir: "/data/kb".to_string(),
    };
    let args = child_args(&spec);
    assert_eq!(args, vec!["--handshake-prompt", "stdio", "--runtime-dir", "/run/kb", "--storage-dir", "/data/kb"]);

    let parsed = parse(args, None, "/tmp".to_string()).expect("子进程应当能解析自己的参数");
    assert_eq!(parsed.command, Command::Serve);
    assert_eq!(parsed.handshake_prompt, HandshakePrompt::Stdio);
    assert_eq!(parsed.paths.runtime_dir, "/run/kb");
    assert_eq!(parsed.paths.storage_dir, "/data/kb");
}

#[test]
fn directories_that_look_like_options_still_reach_the_child() {
    let spec = LaunchSpec {
        kb_core: "kb-core".to_string(),
        runtime_dir: "--help".to_string(),
        storage_dir: "-x".to_string(),
    };
    let parsed = parse(child_args(&spec), None, "/tmp".to_string()).expect("应当能解析");
    assert_eq!(parsed.command, Command::Serve);
    assert_eq!(parsed.paths.runtime_dir, "--help");
    assert_eq!(parsed.paths.storage_dir, "-x");
}

#[test]
fn kb_core_is_looked_for_beside_the_directory() {
    assert_eq!(kb_core_file_name_(false), "kb-core");
    assert_eq!(kb_core_file_name_(true), "kb-core.exe");
    assert_eq!(kb_core_candidate("/opt/kb", false), "/opt/kb/kb-core");
    assert_eq!(kb_core_candidate("/opt/kb/", true), "/opt/kb/kb-core.exe");
}

#[test]
fn assets_prefer_the_override_directory() {
    let asset = Asset { file: "app.js", embedded: "console.log(1)" };
    let embedded_only = AssetSettings::default();
    assert_eq!(embedded_only.override_dir(), None);
    assert_eq!(embedded_only.override_path(&asset), None);
    assert_eq!(embedded_only.resolve_with(&asset, Some("x".to_string())), "console.log(1)");

    let dev = AssetSettings::with_override_dir("/src/assets");
    assert_eq!(dev.override_dir(), Some("/src/assets".to_string()));
    assert_eq!(dev.override_path(&asset), Some("/src/assets/app.js".to_string()));
    assert_eq!(dev.resolve_with(&asset, Some("覆盖".to_string())), "覆盖");
    assert_eq!(dev.resolve_with(&asset, None), "console.log(1)");
}
