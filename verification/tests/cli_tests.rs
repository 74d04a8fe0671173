use kb_svc::cli::{
    apply_workspace_update, format_session_, format_workspace_, session_list_lines, session_removed_line,
    workspace_list_lines, workspace_removed_line,
};
use kb_svc::ids::{SessionId, WorkspaceId};
use kb_svc::protocol::{SessionList, SessionSummary, Workspace, WorkspaceList};

fn workspace(id: &str) -> Workspace {
    Workspace { workspace_id: WorkspaceId::new(id), name: "笔记".to_string(), path: "/home/me/notes".to_string() }
}

fn summary(id: &str, millis: i64) -> SessionSummary {
    SessionSummary {
        session_id: SessionId::new(id),
        workspace_id: WorkspaceId::new("w-1"),
        title: "标题".to_string(),
        updated_at_millis: millis,
        turn_count: 3,
    }
}

#[test]
fn lines_are_tab_separated() {
    assert_eq!(format_workspace_(&workspace("w-1")), "w-1\t笔记\t/home/me/notes");
    assert_eq!(format_session_(&summary("s-1", 1700000000000)), "s-1\t标题\t3 条\t更新于 1700000000000");
    assert_eq!(format_session_(&summary("s-2", -5)), "s-2\t标题\t3 条\t更新于 -5");
}

#[test]
fn listings_end_with_a_count() {
    let list = WorkspaceList { workspaces: vec![workspace("w-1"), workspace("w-2")] };
    let lines = workspace_list_lines(&list);
    assert_eq!(lines.len(), 3);
    assert_eq!(lines[1], "w-2\t笔记\t/home/me/notes");
    assert_eq!(lines[2], "# 共 2 个工作区");

    let lines = session_list_lines(&SessionList { sessions: Vec::new() });
    assert_eq!(lines, vec!["# 共 0 个会话".to_string()]);
}

#[test]
fn removal_and_update_messages() {
    assert_eq!(workspace_removed_line(&WorkspaceId::new("w-1")), "已删除工作区 w-1（连同它名下的会话）");
    assert_eq!(session_removed_line(&SessionId::new("s-1")), "已删除会话 s-1");

    let updated = apply_workspace_update(workspace("w-1"), Some("新名字".to_string()), None);
    assert_eq!(updated.name, "新名字");
    assert_eq!(updated.path, "/home/me/notes");
    assert_eq!(updated.workspace_id, WorkspaceId::new("w-1"));
}
