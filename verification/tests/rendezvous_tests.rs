use kb_svc::rendezvous::{connect_deadline, connect_step, ConnectStep, RETRY_GAP_MS};
use kb_svc::rendezvous::{
    is_name_file, name_in_content, new_name_file_in, newest_name_file, select_name_files, Listener,
    NAME_FILE_EXTENSION, NAME_FILE_PREFIX,
};
use kb_svc::socket_path::{default_runtime_dir, generate_for_today, generate_path, SocketFileGuard};
use std::collections::HashSet;

fn file_name(path: &str) -> &str {
    path.rsplit('/').next().unwrap()
}

fn check_name_file(root: &str, path: &str) {
    assert_eq!(&path[..root.len() + 1], format!("{root}/"));
    let name = file_name(path);
    let body = name
        .strip_prefix("kb-")
        .and_then(|rest| rest.strip_suffix(".ipc"))
        .unwrap_or_else(|| panic!("实际文件名: {name}"));
    let mut parts = body.split('-');
    let date = parts.next().expect("应当有日期段");
    let uuid = parts.next().expect("应当有 UUID 段");
    assert_eq!(parts.next(), None, "只应当有两段: {body}");

    assert_eq!(date.len(), 8, "日期段应当是 YYYYMMDD: {date}");
    assert!(date.chars().all(|ch| ch.is_ascii_digit()), "日期段: {date}");
    assert_eq!(uuid.len(), 32, "UUID 段应当是 32 位: {uuid}");
    assert!(uuid.chars().all(|ch| ch.is_ascii_hexdigit() && !ch.is_ascii_uppercase()), "UUID 段: {uuid}");
}

#[test]
fn generated_name_file_follows_date_and_uuid_convention_() {
    let root = "/run/kb";
    let first = new_name_file_in(root);
    let second = new_name_file_in(root);

    for path in [&first, &second] {
        check_name_file(root, path);
    }

    assert_ne!(first, second, "每次生成的名字应当不同");
}

#[test]
fn listener_owns_a_fresh_name_file() {
    let listener = Listener::new("/run/kb");
    check_name_file("/run/kb", listener.name_file());
    assert_eq!(NAME_FILE_PREFIX, "kb-");
    assert_eq!(NAME_FILE_EXTENSION, "ipc");
}

#[test]
fn generate_path_embeds_date_and_uuid() {
    let path = generate_path("/run/llm_kb", "20260913");
    let file_name = file_name(&path);

    assert!(path.starts_with("/run/llm_kb/"));
    assert!(file_name.starts_with("kb-20260913-"), "实际文件名: {file_name}");
    assert!(file_name.ends_with(".sock"), "实际文件名: {file_name}");

    let uuid_part = file_name.trim_start_matches("kb-20260913-").trim_end_matches(".sock");
    assert_eq!(uuid_part.len(), 32, "UUID simple 形式应为 32 字符");
    assert!(uuid_part.chars().all(|c| c.is_ascii_hexdigit()), "UUID 部分应全部为十六进制字符，实际: {uuid_part}");
}

#[test]
fn generate_path_is_unique_per_call() {
    let paths: HashSet<String> = (0..128).map(|_| generate_path("/run/llm_kb", "20260913")).collect();

    assert_eq!(paths.len(), 128, "生成的路径不应重复");
}

#[test]
fn generate_for_today_uses_a_compact_date() {
    let path = generate_for_today("/run/llm_kb");
    let name = file_name(&path);
    assert!(name.starts_with("kb-") && name.ends_with(".sock"));
    assert_eq!(name.len(), "kb-".len() + 8 + 1 + 32 + ".sock".len());
    assert!(name[3..11].chars().all(|c| c.is_ascii_digit()));
}

#[test]
fn default_runtime_dir_falls_back_to_temp() {
    assert_eq!(default_runtime_dir(Some("/run/user/1000".to_string()), "/tmp".to_string()), "/run/user/1000/llm_kb");
    assert_eq!(default_runtime_dir(None, "/tmp".to_string()), "/tmp/llm_kb");
}

#[test]
fn socket_guard_keeps_its_path() {
    let guard = SocketFileGuard::new("/run/llm_kb/kb-x.sock".to_string());
    assert_eq!(guard.path(), "/run/llm_kb/kb-x.sock");
}

#[test]
fn only_kb_ipc_files_are_name_files() {
    assert!(is_name_file("kb-20260917-abc.ipc"));
    assert!(is_name_file("kb-.ipc"));
    assert!(!is_name_file("notes.txt"));
    assert!(!is_name_file("kb-20260917-abc.ipc.tmp"));
    assert!(!is_name_file("xkb-1.ipc"));
    assert!(!is_name_file("kb-"));

    let names = vec![
        "notes.txt".to_string(),
        "kb-2.ipc".to_string(),
        "kb-1.ipc".to_string(),
        "kb-1.ipc.tmp".to_string(),
    ];
    assert_eq!(select_name_files("/run/kb", names), vec!["/run/kb/kb-1.ipc".to_string(), "/run/kb/kb-2.ipc".to_string()]);
}

#[test]
fn name_file_content_is_trimmed_and_blank_means_none() {
    assert_eq!(name_in_content("  端点甲\n"), Some("端点甲".to_string()));
    assert_eq!(name_in_content(""), None);
    assert_eq!(name_in_content(" \n\t"), None);
}

#[test]
fn newest_name_file_wins_and_ties_keep_the_first() {
    assert_eq!(newest_name_file(&Vec::new()), None);
    let cands = vec![("a".to_string(), 5i128), ("b".to_string(), 9), ("c".to_string(), 9), ("d".to_string(), 1)];
    assert_eq!(newest_name_file(&cands), Some("b".to_string()));
}

#[test]
fn connect_retries_until_the_deadline() {
    let deadline = connect_deadline(1_000, 5_000);
    assert_eq!(deadline, 6_000);
    assert_eq!(connect_deadline(u64::MAX - 1, 5_000), u64::MAX);
    assert_eq!(RETRY_GAP_MS, 20);

    assert_eq!(connect_step(false, 1_000, deadline), ConnectStep::Retry);
    assert_eq!(connect_step(false, 5_999, deadline), ConnectStep::Retry);
    assert_eq!(connect_step(false, 6_000, deadline), ConnectStep::TimedOut);
    assert_eq!(connect_step(true, 7_000, deadline), ConnectStep::Connected);
    assert_eq!(connect_step(true, 1_000, deadline), ConnectStep::Connected);
}
