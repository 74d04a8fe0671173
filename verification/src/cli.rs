//! Output of the maintenance sub-commands of `kb_core`: one line per item,
//! fields separated by tabs, listings closed by a count line.
use vstd::prelude::*;
use crate::calendar::{padded_i64, padded_int};
use crate::ids::{SessionId, WorkspaceId};
use crate::protocol::{SessionList, SessionSummary, Workspace, WorkspaceList};
use crate::text::{concat2, concat3, decimal, decimal_string, strs};

verus! {

/// A signed integer in decimal.
pub open spec fn int_text(v: int) -> Seq<char> {
    padded_int(v, 1)
}

/// The line of a workspace: `<id>\t<name>\t<path>`.
pub open spec fn workspace_line(w: Workspace) -> Seq<char> {
    w.workspace_id@ + "\t"@ + w.name@ + "\t"@ + w.path@
}

/// The line of a session: `<id>\t<title>\t<count> 条\t更新于 <millis>`.
pub open spec fn session_line(s: SessionSummary) -> Seq<char> {
    s.session_id@ + "\t"@ + s.title@ + "\t"@ + decimal(s.turn_count as nat) + " 条\t更新于 "@ + int_text(
        s.updated_at_millis as int,
    )
}

/// The line of a workspace.
pub fn format_workspace_(workspace: &Workspace) -> (r: String)
    ensures
        r@ == workspace_line(*workspace),
{
    let head = concat3(workspace.workspace_id.as_str(), "\t", workspace.name.as_str());
    concat3(head.as_str(), "\t", workspace.path.as_str())
}

/// The line of a session summary. The time stays milliseconds since the
/// Unix epoch.
pub fn format_session_(summary: &SessionSummary) -> (r: String)
    ensures
        r@ == session_line(*summary),
{
    let head = concat3(summary.session_id.as_str(), "\t", summary.title.as_str());
    let count = decimal_string(summary.turn_count as u64);
    let mid = concat3(head.as_str(), "\t", count.as_str());
    let millis = padded_i64(summary.updated_at_millis, 1);
    concat3(mid.as_str(), " 条\t更新于 ", millis.as_str())
}

/// The output of `workspace list`: a line per workspace, then the count.
pub fn workspace_list_lines(list: &WorkspaceList) -> (r: Vec<String>)
    ensures
        r@.len() == list.workspaces@.len() + 1,
        forall|k: int| 0 <= k < list.workspaces@.len() ==> #[trigger] r@[k]@ == workspace_line(list.workspaces@[k]),
        r@[list.workspaces@.len() as int]@ == "# 共 "@ + decimal(list.workspaces@.len()) + " 个工作区"@,
{
    let mut r: Vec<String> = Vec::new();
    let mut k: usize = 0;
    while k < list.workspaces.len()
        invariant
            k <= list.workspaces@.len(),
            r@.len() == k,
            forall|q: int| 0 <= q < k ==> #[trigger] r@[q]@ == workspace_line(list.workspaces@[q]),
        decreases list.workspaces@.len() - k,
    {
        r.push(format_workspace_(&list.workspaces[k]));
        k = k + 1;
    }
    let n = decimal_string(list.workspaces.len() as u64);
    r.push(concat3("# 共 ", n.as_str(), " 个工作区"));
    r
}

/// The output of `session list`: a line per session, then the count.
pub fn session_list_lines(list: &SessionList) -> (r: Vec<String>)
    ensures
        r@.len() == list.sessions@.len() + 1,
        forall|k: int| 0 <= k < list.sessions@.len() ==> #[trigger] r@[k]@ == session_line(list.sessions@[k]),
        r@[list.sessions@.len() as int]@ == "# 共 "@ + decimal(list.sessions@.len()) + " 个会话"@,
{
    let mut r: Vec<String> = Vec::new();
    let mut k: usize = 0;
    while k < list.sessions.len()
        invariant
            k <= list.sessions@.len(),
            r@.len() == k,
            forall|q: int| 0 <= q < k ==> #[trigger] r@[q]@ == session_line(list.sessions@[q]),
        decreases list.sessions@.len() - k,
    {
        r.push(format_session_(&list.sessions[k]));
        k = k + 1;
    }
    let n = decimal_string(list.sessions.len() as u64);
    r.push(concat3("# 共 ", n.as_str(), " 个会话"));
    r
}

/// The output of `workspace remove`.
pub fn workspace_removed_line(id: &WorkspaceId) -> (r: String)
    ensures
        r@ == "已删除工作区 "@ + id@ + "（连同它名下的会话）"@,
{
    concat3("已删除工作区 ", id.as_str(), "（连同它名下的会话）")
}

/// The output of `session remove`.
pub fn session_removed_line(id: &SessionId) -> (r: String)
    ensures
        r@ == "已删除会话 "@ + id@,
{
    concat2("已删除会话 ", id.as_str())
}

/// `workspace update`: the workspace with the name and the path replaced
/// where given.
pub fn apply_workspace_update(workspace: Workspace, name: Option<String>, path: Option<String>) -> (r: Workspace)
    ensures
        r.workspace_id == workspace.workspace_id,
        r.name == match name {
            Some(n) => n,
            None => workspace.name,
        },
        r.path == match path {
            Some(p) => p,
            None => workspace.path,
        },
{
    let mut w = workspace;
    if let Some(n) = name {
        w.name = n;
    }
    if let Some(p) = path {
        w.path = p;
    }
    w
}

} // verus!
