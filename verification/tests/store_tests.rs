use kb_svc::ids::{SessionId, TurnId, WorkspaceId};
use kb_svc::layout::{
    check_id_, session_file_, sessions_dir_, sessions_root_, workspace_file_, workspaces_dir_, MAX_ID_BYTES,
};
use kb_svc::llm::Role;
use kb_svc::protocol::{ErrorCode, Turn, TurnState};
use kb_svc::service::store_error_;
use kb_svc::store::{
    append_turns_at, file_stem_, is_json_file, new_session_at, new_workspace, now_millis_, rename_session_at,
    select_json_files, store_error_reply, temp_path_, turn_count_of_, Store, StoreError,
};
use kb_svc::title::{derive_title_, normalize_title_};

fn user_turn(id: &str, text: &str) -> Turn {
    Turn {
        turn_id: TurnId::new(id),
        role: Role::User,
        text: text.to_string(),
        reasoning: String::new(),
        state: TurnState::Done,
        tool_calls: Vec::new(),
        usage: None,
        notice: None,
    }
}

#[test]
fn layout_paths_match_documented_tree_() {
    let root = "/data/kb";

    assert_eq!(workspaces_dir_(root), "/data/kb/workspaces");
    assert_eq!(workspace_file_(root, "w-1"), "/data/kb/workspaces/w-1.json");
    assert_eq!(sessions_root_(root), "/data/kb/sessions");
    assert_eq!(sessions_dir_(root, "w-1"), "/data/kb/sessions/w-1");
    assert_eq!(session_file_(root, "w-1", "s-1"), "/data/kb/sessions/w-1/s-1.json");
}

#[test]
fn check_id_accepts_safe_and_rejects_path_like_() {
    assert!(check_id_("工作区", WorkspaceId::generate().as_str()).is_ok());
    assert!(check_id_("工作区", "w-1").is_ok());
    assert!(check_id_("工作区", "w_1").is_ok());

    for bad in ["", "../escape", "a/b", "a\\b", ".hidden", "w 1", "工作区"] {
        let error = check_id_("工作区", bad).expect_err("应当被拒绝");
        assert!(matches!(&error, StoreError::InvalidId { id, .. } if id == bad), "实际错误: {error:?}");
    }

    let long = "w".repeat(MAX_ID_BYTES + 1);
    assert!(check_id_("工作区", &long).is_err(), "超长标识应当被拒绝");
    let longest = "w".repeat(MAX_ID_BYTES);
    assert!(check_id_("工作区", &longest).is_ok());
}

#[test]
fn store_errors_map_to_protocol_codes_() {
    let not_found = store_error_(StoreError::NotFound { kind: "工作区", id: "w-1".to_string() });
    assert_eq!(not_found.as_business().map(|reply| reply.code), Some(ErrorCode::NotFound));

    let invalid = store_error_(StoreError::InvalidId { kind: "工作区", id: "../evil".to_string() });
    assert_eq!(invalid.as_business().map(|reply| reply.code), Some(ErrorCode::BadRequest));

    let internal = store_error_(StoreError::BlockingTask("线程没了".to_string()));
    assert_eq!(internal.as_business().map(|reply| reply.code), Some(ErrorCode::Internal));
}

#[test]
fn store_error_messages_name_the_failure() {
    let e = StoreError::NotFound { kind: "会话", id: "s-9".to_string() };
    assert_eq!(e.message(), "会话不存在: s-9");
    assert_eq!(store_error_reply(&e).message, "会话不存在: s-9");

    let e = StoreError::InvalidId { kind: "工作区", id: "a/b".to_string() };
    assert_eq!(
        e.message(),
        "工作区标识不合法: \"a/b\"（只允许 ASCII 字母/数字/连字符/下划线，且不超过 128 字节）"
    );

    let e = StoreError::Io { path: "/x".to_string(), message: "denied".to_string() };
    assert_eq!(e.message(), "文件操作失败: /x: denied");
    assert_eq!(StoreError::Encode("bad".to_string()).message(), "编码为 JSON 失败: bad");
}

#[test]
fn store_keeps_its_root() {
    let store = Store::new("/data/kb".to_string());
    assert_eq!(store.root(), "/data/kb");
}

#[test]
fn new_session_derives_title_and_counts_turns() {
    let turns = vec![user_turn("t-1", "  第一行问题\n第二行"), user_turn("t-2", "再问")];
    let detail = new_session_at(SessionId::new("s-1"), WorkspaceId::new("w-1"), None, turns, 1234);
    assert_eq!(detail.summary.title, "第一行问题");
    assert_eq!(detail.summary.turn_count, 2);
    assert_eq!(detail.summary.updated_at_millis, 1234);
    assert_eq!(detail.turns.len(), 2);

    let explicit = new_session_at(
        SessionId::new("s-2"),
        WorkspaceId::new("w-1"),
        Some("  我的标题 ".to_string()),
        Vec::new(),
        5,
    );
    assert_eq!(explicit.summary.title, "我的标题");

    let blank = new_session_at(SessionId::new("s-3"), WorkspaceId::new("w-1"), Some("   ".to_string()), Vec::new(), 5);
    assert_eq!(blank.summary.title, "新会话");
}

#[test]
fn derived_title_is_cut_at_24_chars_with_ellipsis() {
    let long = "一二三四五六七八九十一二三四五六七八九十一二三四五六";
    let title = derive_title_(&vec![user_turn("t-1", long)]);
    assert_eq!(title.chars().count(), 25);
    assert!(title.ends_with('…'));
    assert_eq!(normalize_title_(None, &Vec::new()), "新会话");
}

#[test]
fn append_and_rename_refresh_the_summary() {
    let detail = new_session_at(SessionId::new("s-1"), WorkspaceId::new("w-1"), Some("t".to_string()), Vec::new(), 1);
    let appended = append_turns_at(detail, vec![user_turn("t-1", "a"), user_turn("t-2", "b")], 7);
    assert_eq!(appended.summary.turn_count, 2);
    assert_eq!(appended.summary.updated_at_millis, 7);
    assert_eq!(appended.summary.title, "t");

    let renamed = rename_session_at(appended, "  新标题  ", 9);
    assert_eq!(renamed.summary.title, "新标题");
    assert_eq!(renamed.summary.updated_at_millis, 9);
    assert_eq!(renamed.summary.turn_count, 2);
    assert_eq!(turn_count_of_(&renamed.turns), 2);
}

#[test]
fn json_files_are_selected_and_sorted() {
    assert!(is_json_file("w-1.json"));
    assert!(!is_json_file(".json"));
    assert!(!is_json_file("w-1.json.tmp"));
    assert!(!is_json_file("notes.txt"));

    let names = vec![
        "w-2.json".to_string(),
        "notes.txt".to_string(),
        "w-1.json".to_string(),
        ".json".to_string(),
        "w-1.json.tmp".to_string(),
    ];
    assert_eq!(select_json_files("/d", names), vec!["/d/w-1.json".to_string(), "/d/w-2.json".to_string()]);
}

#[test]
fn temp_path_and_stem_follow_std_paths() {
    assert_eq!(temp_path_("/d/w-1.json"), "/d/w-1.json.tmp");
    assert_eq!(file_stem_("/d/w-1.json"), "w-1");
    assert_eq!(file_stem_("/"), "");
}

#[test]
fn new_workspace_gets_a_generated_id() {
    let w = new_workspace("笔记", "/home/me/notes");
    assert!(w.workspace_id.as_str().starts_with("w-"));
    assert_eq!(w.name, "笔记");
    assert_eq!(w.path, "/home/me/notes");
    assert!(now_millis_() > 0);
}

#[test]
fn distinct_ids_name_distinct_files() {
    assert_ne!(session_file_("/r", "w-1", "s-1"), session_file_("/r", "w-1", "s-2"));
    assert_ne!(session_file_("/r", "w-1", "s-1"), session_file_("/r", "w-2", "s-1"));
    assert_ne!(workspace_file_("/r", "w-1"), workspace_file_("/r", "w-12"));
    assert_eq!(workspace_file_("/r/", "w-1"), "/r/workspaces/w-1.json");
}
