use kb_svc::args::{
    parse, resolve_paths_, Command, HandshakePrompt, Parsed, SessionCommand, UsageError, WorkspaceCommand,
};

fn argv_(items: &[&str]) -> Vec<String> {
    items.iter().map(|item| item.to_string()).collect()
}

fn parse_(items: &[&str]) -> Result<Parsed, UsageError> {
    parse(argv_(items), None, "/tmp".to_string())
}

#[test]
fn parse_without_subcommand_is_serve_() {
    let parsed = parse_(&["--runtime-dir", "/run/kb"]).expect("应当能解析");

    assert_eq!(parsed.command, Command::Serve);
    assert_eq!(parsed.paths.runtime_dir, "/run/kb");
    assert_eq!(parsed.paths.storage_dir, "/run/kb/storage");
}

#[test]
fn explicit_storage_dir_is_independent_() {
    let parsed = parse_(&["--storage-dir", "/data/kb", "--runtime-dir", "/run/kb"]).expect("应当能解析");

    assert_eq!(parsed.paths.runtime_dir, "/run/kb");
    assert_eq!(parsed.paths.storage_dir, "/data/kb");
}

#[test]
fn path_resolution_prefers_explicit_then_xdg_() {
    let explicit = resolve_paths_(
        Some("/run/kb".to_string()),
        None,
        Some("/run/user/1000".to_string()),
        "/tmp".to_string(),
    );
    assert_eq!(explicit.runtime_dir, "/run/kb");

    let xdg = resolve_paths_(None, None, Some("/run/user/1000".to_string()), "/tmp".to_string());
    assert_eq!(xdg.runtime_dir, "/run/user/1000/llm_kb");
    assert_eq!(xdg.storage_dir, "/run/user/1000/llm_kb/storage");

    let fallback = resolve_paths_(None, None, None, "/tmp".to_string());
    assert_eq!(fallback.runtime_dir, "/tmp/llm_kb");
    assert_eq!(fallback.storage_dir, "/tmp/llm_kb/storage");
}

#[test]
fn parse_help_wins_() {
    for argv in [argv_(&["--help"]), argv_(&["--runtime-dir", "/run/kb", "-h", "workspace", "list"])] {
        let parsed = parse(argv, None, "/tmp".to_string()).expect("应当能解析");
        assert_eq!(parsed.command, Command::Help);
    }
}

#[test]
fn parse_workspace_commands_() {
    let add = parse_(&["workspace", "add", "--path", "/tmp/notes", "--name", "笔记"]).expect("应当能解析");
    assert_eq!(
        add.command,
        Command::Workspace(WorkspaceCommand::Add { name: "笔记".to_string(), path: "/tmp/notes".to_string() })
    );

    let list = parse_(&["workspace", "list"]).expect("应当能解析");
    assert_eq!(list.command, Command::Workspace(WorkspaceCommand::List));

    let show = parse_(&["workspace", "show", "w-1"]).expect("应当能解析");
    assert_eq!(show.command, Command::Workspace(WorkspaceCommand::Show { workspace_id: "w-1".to_string() }));

    let update = parse_(&["workspace", "update", "w-1", "--name", "新名字"]).expect("应当能解析");
    assert_eq!(
        update.command,
        Command::Workspace(WorkspaceCommand::Update {
            workspace_id: "w-1".to_string(),
            name: Some("新名字".to_string()),
            path: None,
        })
    );

    let remove = parse_(&["workspace", "remove", "w-1"]).expect("应当能解析");
    assert_eq!(remove.command, Command::Workspace(WorkspaceCommand::Remove { workspace_id: "w-1".to_string() }));
}

#[test]
fn parse_session_commands_() {
    let add = parse_(&["session", "add", "--workspace", "w-1"]).expect("应当能解析");
    assert_eq!(add.command, Command::Session(SessionCommand::Add { workspace_id: "w-1".to_string(), title: None }));

    let list = parse_(&["session", "list", "--workspace", "w-1"]).expect("应当能解析");
    assert_eq!(list.command, Command::Session(SessionCommand::List { workspace_id: "w-1".to_string() }));

    let show = parse_(&["session", "show", "s-1", "--workspace", "w-1"]).expect("应当能解析");
    assert_eq!(
        show.command,
        Command::Session(SessionCommand::Show { workspace_id: "w-1".to_string(), session_id: "s-1".to_string() })
    );

    let update = parse_(&["session", "update", "s-1", "--title", "改名", "--workspace", "w-1"]).expect("应当能解析");
    assert_eq!(
        update.command,
        Command::Session(SessionCommand::Update {
            workspace_id: "w-1".to_string(),
            session_id: "s-1".to_string(),
            title: "改名".to_string(),
        })
    );

    let remove = parse_(&["session", "remove", "s-1", "--workspace", "w-1"]).expect("应当能解析");
    assert_eq!(
        remove.command,
        Command::Session(SessionCommand::Remove { workspace_id: "w-1".to_string(), session_id: "s-1".to_string() })
    );
}

#[test]
fn parse_rejects_bad_input_() {
    let cases: Vec<(Vec<String>, UsageError)> = vec![
        (argv_(&["--nope"]), UsageError::UnknownOption("--nope".to_string())),
        (argv_(&["--runtime-dir"]), UsageError::MissingValue("--runtime-dir".to_string())),
        (argv_(&["workspace", "add", "--name", "笔记"]), UsageError::MissingOption("path")),
        (argv_(&["workspace", "show"]), UsageError::MissingOperand("<工作区标识>")),
        (argv_(&["workspace", "list", "多余"]), UsageError::UnexpectedArgument("多余".to_string())),
        (
            argv_(&["workspace", "update", "w-1"]),
            UsageError::Invalid("workspace update 至少要给出 --name 或 --path 之一"),
        ),
        (
            argv_(&["workspace", "frobnicate"]),
            UsageError::UnknownAction("workspace".to_string(), "frobnicate".to_string()),
        ),
        (argv_(&["notes", "list"]), UsageError::UnknownCommand("notes".to_string())),
        (argv_(&["session", "add", "--workspace"]), UsageError::MissingValue("--workspace".to_string())),
        (argv_(&["session"]), UsageError::MissingOperand("session <动作>")),
    ];

    for (argv, expected) in cases {
        let error = parse(argv.clone(), None, "/tmp".to_string()).expect_err("应当被拒绝");
        assert_eq!(error, expected, "输入: {argv:?}");
    }
}

#[test]
fn handshake_prompt_defaults_to_none_() {
    let default = parse_(&["--runtime-dir", "/run/kb"]).expect("应当能解析");
    assert_eq!(default.handshake_prompt, HandshakePrompt::Silent);

    let stdio = parse_(&["--handshake-prompt", "stdio"]).expect("应当能解析");
    assert_eq!(stdio.handshake_prompt, HandshakePrompt::Stdio);

    let none = parse_(&["--handshake-prompt", "none"]).expect("应当能解析");
    assert_eq!(none.handshake_prompt, HandshakePrompt::Silent);

    let bad = parse_(&["--handshake-prompt", "carrier-pigeon"]).expect_err("非法取值");
    assert_eq!(
        bad,
        UsageError::InvalidOptionValue { option: "handshake-prompt", value: "carrier-pigeon".to_string() }
    );
}

#[test]
fn default_runtime_dir_uses_xdg_then_temp() {
    let xdg = parse(argv_(&[]), Some("/run/user/7".to_string()), "/tmp".to_string()).expect("应当能解析");
    assert_eq!(xdg.paths.runtime_dir, "/run/user/7/llm_kb");
    assert_eq!(xdg.paths.storage_dir, "/run/user/7/llm_kb/storage");

    let empty_xdg = parse(argv_(&[]), Some(String::new()), "/var/tmp".to_string()).expect("应当能解析");
    assert_eq!(empty_xdg.paths.runtime_dir, "/var/tmp/llm_kb");
}

#[test]
fn workspace_add_options_in_either_order_agree() {
    let a = parse_(&["workspace", "add", "--name", "甲", "--path", "/p"]).expect("应当能解析");
    let b = parse_(&["workspace", "add", "--path", "/p", "--name", "甲"]).expect("应当能解析");
    assert_eq!(a, b);
}

#[test]
fn help_after_a_bad_subcommand_still_wins() {
    let parsed = parse_(&["--storage-dir", "/d", "--help", "nonsense"]).expect("应当能解析");
    assert_eq!(parsed.command, Command::Help);
    assert_eq!(parsed.paths.storage_dir, "/d");
}

#[test]
fn usage_errors_explain_themselves() {
    assert_eq!(UsageError::UnknownOption("--nope".to_string()).message(), "未知选项: --nope（用 --help 查看用法）");
    assert_eq!(
        UsageError::InvalidOptionValue { option: "handshake-prompt", value: "carrier-pigeon".to_string() }.message(),
        "选项 --handshake-prompt 的取值不合法: \"carrier-pigeon\"（可用值见 --help）"
    );
    assert_eq!(UsageError::MissingValue("--runtime-dir".to_string()).message(), "选项 --runtime-dir 缺少取值");
    assert_eq!(UsageError::MissingOption("path").message(), "缺少必需选项: --path");
    assert_eq!(
        UsageError::UnknownAction("workspace".to_string(), "frobnicate".to_string()).message(),
        "未知动作: workspace frobnicate"
    );
    assert_eq!(UsageError::Invalid("组合不成立").message(), "组合不成立");
}

#[test]
fn option_order_does_not_change_the_command() {
    let a = parse_(&["session", "update", "s-1", "--workspace", "w-1", "--title", "新标题"]).expect("应当能解析");
    let b = parse_(&["session", "update", "--title", "新标题", "s-1", "--workspace", "w-1"]).expect("应当能解析");
    assert_eq!(a, b);
    assert_eq!(
        a.command,
        Command::Session(SessionCommand::Update {
            workspace_id: "w-1".to_string(),
            session_id: "s-1".to_string(),
            title: "新标题".to_string(),
        })
    );

    let c = parse_(&["workspace", "update", "--path", "/p", "w-1", "--name", "n"]).expect("应当能解析");
    let d = parse_(&["workspace", "update", "w-1", "--name", "n", "--path", "/p"]).expect("应当能解析");
    assert_eq!(c, d);

    assert!(parse_(&["session", "add", "--title", "t"]).is_err());
    assert!(parse_(&["session", "add", "--title", "t", "--workspace", "w"]).is_ok());
}

#[test]
fn option_order_does_not_change_a_refusal() {
    assert!(parse_(&["workspace", "add", "--name", "n", "-x", "--path", "/p"]).is_err());
    assert!(parse_(&["workspace", "add", "-x", "--path", "/p", "--name", "n"]).is_err());

    assert!(parse_(&["session", "show", "s-1", "extra", "--workspace", "w"]).is_err());
    assert!(parse_(&["session", "show", "--workspace", "w", "s-1", "extra"]).is_err());

    assert!(parse_(&["workspace", "update", "w-1", "--name"]).is_err());
    assert!(parse_(&["workspace", "update", "--name", "w-1"]).is_err());
}
