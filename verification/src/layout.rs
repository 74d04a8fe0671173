//! Storage layout: where each object lives under the storage root, and which
//! identifiers may safely be used as file names.
//!
//! ```text
//! <storage_dir>/
//! ├── workspaces/
//! │   └── <workspace_id>.json
//! └── sessions/
//!     └── <workspace_id>/
//!         └── <session_id>.json
//! ```
use vstd::prelude::*;
use crate::args::{join_path, join_path_str};
use crate::text::{chars_of, concat2};
use crate::store::StoreError;

verus! {

/// Longest identifier accepted as a file name, in bytes.
pub const MAX_ID_BYTES: usize = 128;

/// `<root>/workspaces`.
pub open spec fn spec_workspaces_dir(root: Seq<char>) -> Seq<char> {
    join_path(root, "workspaces"@)
}

/// `<root>/workspaces/<workspace_id>.json`.
pub open spec fn spec_workspace_file(root: Seq<char>, workspace_id: Seq<char>) -> Seq<char> {
    join_path(spec_workspaces_dir(root), workspace_id + ".json"@)
}

/// `<root>/sessions`.
pub open spec fn spec_sessions_root(root: Seq<char>) -> Seq<char> {
    join_path(root, "sessions"@)
}

/// `<root>/sessions/<workspace_id>`.
pub open spec fn spec_sessions_dir(root: Seq<char>, workspace_id: Seq<char>) -> Seq<char> {
    join_path(spec_sessions_root(root), workspace_id)
}

/// `<root>/sessions/<workspace_id>/<session_id>.json`.
pub open spec fn spec_session_file(root: Seq<char>, workspace_id: Seq<char>, session_id: Seq<char>) -> Seq<char> {
    join_path(spec_sessions_dir(root, workspace_id), session_id + ".json"@)
}

/// A character allowed in an identifier: ASCII letter, digit, `-` or `_`.
pub open spec fn is_id_char(c: char) -> bool {
    ('a' <= c && c <= 'z') || ('A' <= c && c <= 'Z') || ('0' <= c && c <= '9') || c == '-' || c == '_'
}

/// An identifier that can safely be a file name: non-empty, at most
/// `MAX_ID_BYTES` bytes, made of allowed ASCII characters only (so that its
/// byte length is its character count).
pub open spec fn is_safe_id(id: Seq<char>) -> bool {
    &&& 0 < id.len() <= MAX_ID_BYTES
    &&& forall|i: int| 0 <= i < id.len() ==> #[trigger] is_id_char(id[i])
}

/// The directory of all workspace files.
pub fn workspaces_dir_(root: &str) -> (r: String)
    ensures
        r@ == spec_workspaces_dir(root@),
{
    join_path_str(root, "workspaces")
}

/// The file of one workspace.
pub fn workspace_file_(root: &str, workspace_id: &str) -> (r: String)
    ensures
        r@ == spec_workspace_file(root@, workspace_id@),
{
    let dir = workspaces_dir_(root);
    let name = concat2(workspace_id, ".json");
    join_path_str(dir.as_str(), name.as_str())
}

/// The parent directory of all session directories.
pub fn sessions_root_(root: &str) -> (r: String)
    ensures
        r@ == spec_sessions_root(root@),
{
    join_path_str(root, "sessions")
}

/// The directory of the sessions of one workspace.
pub fn sessions_dir_(root: &str, workspace_id: &str) -> (r: String)
    ensures
        r@ == spec_sessions_dir(root@, workspace_id@),
{
    let dir = sessions_root_(root);
    join_path_str(dir.as_str(), workspace_id)
}

/// The file of one session.
pub fn session_file_(root: &str, workspace_id: &str, session_id: &str) -> (r: String)
    ensures
        r@ == spec_session_file(root@, workspace_id@, session_id@),
{
    let dir = sessions_dir_(root, workspace_id);
    let name = concat2(session_id, ".json");
    join_path_str(dir.as_str(), name.as_str())
}

/// Whether `c` may appear in an identifier.
pub fn is_id_char_(c: char) -> (r: bool)
    ensures
        r == is_id_char(c),
{
    ('a' <= c && c <= 'z') || ('A' <= c && c <= 'Z') || ('0' <= c && c <= '9') || c == '-' || c == '_'
}

/// Refuses identifiers that cannot safely be file names, before any path is
/// built from them.
pub fn check_id_(kind: &'static str, id: &str) -> (r: Result<(), StoreError>)
    ensures
        is_safe_id(id@) ==> r is Ok,
        !is_safe_id(id@) ==> (r matches Err(StoreError::InvalidId { kind: k, id: i }) && k == kind && i@ == id@),
{
    let chars = chars_of(id);
    let mut allowed = chars.len() > 0 && chars.len() <= MAX_ID_BYTES;
    let mut i: usize = 0;
    while i < chars.len()
        invariant
            chars@ == id@,
            i <= chars.len(),
            allowed == (0 < id@.len() <= MAX_ID_BYTES && forall|k: int| 0 <= k < i ==> #[trigger] is_id_char(id@[k])),
        decreases chars.len() - i,
    {
        if !is_id_char_(chars[i]) {
            allowed = false;
        }
        i = i + 1;
    }
    if allowed {
        Ok(())
    } else {
        Err(StoreError::InvalidId { kind, id: id.to_owned() })
    }
}

/// A checked identifier cannot lead out of its directory: it holds no path
/// separator and is no dot name, and the files named after checked
/// identifiers sit directly in the directories of the documented tree.
pub proof fn law_checked_ids_stay_in_the_tree(root: Seq<char>, workspace_id: Seq<char>, session_id: Seq<char>)
    requires
        is_safe_id(workspace_id),
        is_safe_id(session_id),
    ensures
        forall|i: int| 0 <= i < workspace_id.len() ==> workspace_id[i] != '/' && workspace_id[i] != '\\',
        workspace_id[0] != '.',
        spec_workspace_file(root, workspace_id) == spec_workspaces_dir(root) + seq!['/'] + workspace_id + ".json"@,
        spec_sessions_dir(root, workspace_id) == spec_sessions_root(root) + seq!['/'] + workspace_id,
        spec_session_file(root, workspace_id, session_id) == spec_sessions_root(root) + seq!['/'] + workspace_id
            + seq!['/'] + session_id + ".json"@,
{
    reveal_strlit("workspaces");
    reveal_strlit("sessions");
    reveal_strlit(".json");
    assert(is_id_char(workspace_id[0]));
    assert forall|i: int| 0 <= i < workspace_id.len() implies workspace_id[i] != '/' && workspace_id[i] != '\\' by {
        assert(is_id_char(workspace_id[i]));
    }
    let wd = spec_workspaces_dir(root);
    assert(wd.len() > 0 && wd.last() == 's');
    let sr = spec_sessions_root(root);
    assert(sr.len() > 0 && sr.last() == 's');
    let sd = spec_sessions_dir(root, workspace_id);
    assert(is_id_char(workspace_id.last()));
    assert(sd == sr + seq!['/'] + workspace_id);
    assert(sd.len() > 0 && sd.last() == workspace_id.last());
    assert(sd.last() != '/');
    assert((sr + seq!['/'] + workspace_id) + seq!['/'] + (session_id + ".json"@) =~= sr + seq!['/'] + workspace_id
        + seq!['/'] + session_id + ".json"@);
    assert(wd + seq!['/'] + (workspace_id + ".json"@) =~= wd + seq!['/'] + workspace_id + ".json"@);
}

/// Two checked identifiers followed by the same separator are the same
/// when the texts around them agree: an identifier holds no `/`.
proof fn lemma_ids_split_alike(pre: Seq<char>, a: Seq<char>, post_a: Seq<char>, b: Seq<char>, post_b: Seq<char>)
    requires
        is_safe_id(a),
        is_safe_id(b),
        post_a.len() > 0 && post_a[0] == '/',
        post_b.len() > 0 && post_b[0] == '/',
        pre + a + post_a == pre + b + post_b,
    ensures
        a == b,
        post_a == post_b,
{
    let x = pre + a + post_a;
    let y = pre + b + post_b;
    if a.len() < b.len() {
        assert(x[(pre.len() + a.len()) as int] == post_a[0]);
        assert(y[(pre.len() + a.len()) as int] == b[a.len() as int]);
        assert(is_id_char(b[a.len() as int]));
    } else if b.len() < a.len() {
        assert(y[(pre.len() + b.len()) as int] == post_b[0]);
        assert(x[(pre.len() + b.len()) as int] == a[b.len() as int]);
        assert(is_id_char(a[b.len() as int]));
    }
    assert(a.len() == b.len());
    assert forall|i: int| 0 <= i < a.len() implies a[i] == b[i] by {
        assert(x[pre.len() + i] == a[i]);
        assert(y[pre.len() + i] == b[i]);
    }
    assert(a =~= b);
    assert(x.len() == y.len());
    assert(x.len() == pre.len() + a.len() + post_a.len());
    assert(y.len() == pre.len() + b.len() + post_b.len());
    assert(post_a.len() == post_b.len());
    assert forall|i: int| 0 <= i < post_a.len() implies post_a[i] == post_b[i] by {
        assert(x[pre.len() + a.len() + i] == post_a[i]);
        assert(y[pre.len() + b.len() + i] == post_b[i]);
    }
    assert(post_a =~= post_b);
}

/// Distinct objects never share a file: different checked identifiers name
/// different workspace files, and different checked pairs of identifiers
/// name different session files.
pub proof fn law_distinct_ids_name_distinct_files(
    root: Seq<char>,
    w1: Seq<char>,
    s1: Seq<char>,
    w2: Seq<char>,
    s2: Seq<char>,
)
    requires
        is_safe_id(w1),
        is_safe_id(s1),
        is_safe_id(w2),
        is_safe_id(s2),
    ensures
        spec_workspace_file(root, w1) == spec_workspace_file(root, w2) ==> w1 == w2,
        spec_session_file(root, w1, s1) == spec_session_file(root, w2, s2) ==> w1 == w2 && s1 == s2,
{
    reveal_strlit(".json");
    law_checked_ids_stay_in_the_tree(root, w1, s1);
    law_checked_ids_stay_in_the_tree(root, w2, s2);
    let wd = spec_workspaces_dir(root) + seq!['/'];
    if spec_workspace_file(root, w1) == spec_workspace_file(root, w2) {
        let a = wd + w1 + ".json"@;
        let b = wd + w2 + ".json"@;
        assert(a.len() == b.len());
        assert(w1.len() == w2.len());
        assert forall|i: int| 0 <= i < w1.len() implies w1[i] == w2[i] by {
            assert(a[wd.len() + i] == w1[i]);
            assert(b[wd.len() + i] == w2[i]);
        }
        assert(w1 =~= w2);
    }
    let sr = spec_sessions_root(root) + seq!['/'];
    if spec_session_file(root, w1, s1) == spec_session_file(root, w2, s2) {
        let pa = seq!['/'] + s1 + ".json"@;
        let pb = seq!['/'] + s2 + ".json"@;
        assert(spec_session_file(root, w1, s1) =~= sr + w1 + pa);
        assert(spec_session_file(root, w2, s2) =~= sr + w2 + pb);
        lemma_ids_split_alike(sr, w1, pa, w2, pb);
        assert(s1.len() == s2.len());
        assert forall|i: int| 0 <= i < s1.len() implies s1[i] == s2[i] by {
            assert(pa[1 + i] == s1[i]);
            assert(pb[1 + i] == s2[i]);
        }
        assert(s1 =~= s2);
    }
}

} // verus!
