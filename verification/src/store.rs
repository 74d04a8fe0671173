//! Decisions of the local file store of workspaces and sessions: what a new
//! session looks like, how appending and renaming refresh its summary, how
//! listings are ordered, and the store's own failures.
use vstd::prelude::*;
use crate::ids::{SessionId, WorkspaceId};
use crate::protocol::{ErrorCode, ErrorReply, SessionDetail, SessionSummary, Turn};
use crate::title::{normalize_title, normalize_title_};
use crate::args::opt_view;
use crate::text::{chars_of, concat2, strs};
use crate::args::{join_path, join_path_str};
use crate::order::{sort_texts, sorted_by_lt, string_lt};
use crate::protocol::Workspace;

verus! {

/// Failures of the local store.
#[derive(Debug, Clone, PartialEq, Eq)]
pub enum StoreError {
    /// A file-system operation failed on `path`.
    Io { path: String, message: String },
    /// A JSON file could not be read back.
    Decode { path: String, message: String },
    /// A value could not be encoded as JSON.
    Encode(String),
    /// An identifier that cannot safely be a file name.
    InvalidId { kind: &'static str, id: String },
    /// The target does not exist.
    NotFound { kind: &'static str, id: String },
    /// A blocking background task ended abnormally.
    BlockingTask(String),
}

/// Names the debug rendering (`{:?}`) of a string: quoted, with escapes.
pub uninterp spec fn debug_quoted(s: Seq<char>) -> Seq<char>;

/// `format!("{:?}", s)` for a string slice.
///
/// Trusted: std's `Debug` for `str` is a function of the text alone; the
/// result is named `debug_quoted`, its escaping rules are not restated.
#[verifier::external_body]
pub(crate) fn debug_quote_(s: &str) -> (r: String)
    ensures
        r@ == debug_quoted(s@),
{
    format!("{:?}", s)
}

/// The message of a store failure.
pub open spec fn store_error_message(e: StoreError) -> Seq<char> {
    match e {
        StoreError::Io { path, message } => "文件操作失败: "@ + path@ + ": "@ + message@,
        StoreError::Decode { path, message } => "读取 "@ + path@ + " 失败（文件可能被手工改坏）: "@ + message@,
        StoreError::Encode(message) => "编码为 JSON 失败: "@ + message@,
        StoreError::InvalidId { kind, id } => kind@ + "标识不合法: "@ + debug_quoted(id@)
            + "（只允许 ASCII 字母/数字/连字符/下划线，且不超过 128 字节）"@,
        StoreError::NotFound { kind, id } => kind@ + "不存在: "@ + id@,
        StoreError::BlockingTask(message) => "后台阻塞任务异常结束: "@ + message@,
    }
}

impl StoreError {
    /// The human-readable message of this failure.
    pub fn message(&self) -> (r: String)
        ensures
            r@ == store_error_message(*self),
    {
        match self {
            StoreError::Io { path, message } => {
                let mut s = concat2("文件操作失败: ", path.as_str());
                s.append(": ");
                s.append(message.as_str());
                s
            },
            StoreError::Decode { path, message } => {
                let mut s = concat2("读取 ", path.as_str());
                s.append(" 失败（文件可能被手工改坏）: ");
                s.append(message.as_str());
                s
            },
            StoreError::Encode(message) => concat2("编码为 JSON 失败: ", message.as_str()),
            StoreError::InvalidId { kind, id } => {
                let quoted = debug_quote_(id.as_str());
                let mut s = concat2(kind, "标识不合法: ");
                s.append(quoted.as_str());
                s.append("（只允许 ASCII 字母/数字/连字符/下划线，且不超过 128 字节）");
                s
            },
            StoreError::NotFound { kind, id } => {
                let mut s = concat2(kind, "不存在: ");
                s.append(id.as_str());
                s
            },
            StoreError::BlockingTask(message) => concat2("后台阻塞任务异常结束: ", message.as_str()),
        }
    }
}

/// The protocol code of a store failure: missing objects are `NotFound`,
/// unsafe identifiers `BadRequest`, everything else `Internal`.
pub open spec fn store_error_code(e: StoreError) -> ErrorCode {
    match e {
        StoreError::NotFound { .. } => ErrorCode::NotFound,
        StoreError::InvalidId { .. } => ErrorCode::BadRequest,
        _ => ErrorCode::Internal,
    }
}

/// The business error answered for a store failure.
pub fn store_error_reply(error: &StoreError) -> (r: ErrorReply)
    ensures
        r.code == store_error_code(*error),
        r.message@ == store_error_message(*error),
{
    let code = match error {
        StoreError::NotFound { .. } => ErrorCode::NotFound,
        StoreError::InvalidId { .. } => ErrorCode::BadRequest,
        _ => ErrorCode::Internal,
    };
    ErrorReply { code, message: error.message() }
}

/// A local file store rooted at one directory.
#[derive(Debug, Clone)]
pub struct Store {
    root_: String,
}

impl Store {
    /// A store rooted at `root`.
    pub fn new(root: String) -> (r: Self)
        ensures
            r.root_spec() == root@,
    {
        Store { root_: root }
    }

    /// The storage root.
    pub closed spec fn root_spec(&self) -> Seq<char> {
        self.root_@
    }

    /// The storage root.
    pub fn root(&self) -> (r: &str)
        ensures
            r@ == self.root_spec(),
    {
        self.root_.as_str()
    }
}

/// The message count of a session, clamped into `u32`.
pub open spec fn turn_count(n: nat) -> u32 {
    if n <= u32::MAX { n as u32 } else { u32::MAX }
}

/// The message count of `turns`, clamped into `u32`.
pub fn turn_count_of_(turns: &Vec<Turn>) -> (r: u32)
    ensures
        r == turn_count(turns@.len()),
{
    if turns.len() <= 4294967295usize {
        turns.len() as u32
    } else {
        4294967295u32
    }
}

/// Names what `Path::with_extension` makes of `path` and `ext`.
pub uninterp spec fn path_with_extension(path: Seq<char>, ext: Seq<char>) -> Seq<char>;

/// `Path::new(path).with_extension(ext)`, as a string.
///
/// Trusted: std documents that the result is the path with its file name's
/// extension replaced by `ext` (added when there is none, unchanged when
/// there is no file name); the result depends on the two texts only and is
/// named `path_with_extension`. std panics when `ext` holds a path
/// separator, so such an `ext` is not admitted.
#[verifier::external_body]
fn with_extension_(path: &str, ext: &str) -> (r: String)
    requires
        forall|i: int| 0 <= i < ext@.len() ==> ext@[i] != '/' && ext@[i] != '\\',
    ensures
        r@ == path_with_extension(path@, ext@),
{
    std::path::Path::new(path).with_extension(ext).to_string_lossy().into_owned()
}

/// Names what `Path::file_stem` gives of `path` (empty when none).
pub uninterp spec fn path_file_stem(path: Seq<char>) -> Seq<char>;

/// `Path::new(path).file_stem()`, as a string, empty when there is none.
///
/// Trusted: std documents the stem as the file name without its extension;
/// the result depends on the path only and is named `path_file_stem`.
#[verifier::external_body]
fn file_stem_of_(path: &str) -> (r: String)
    ensures
        r@ == path_file_stem(path@),
{
    std::path::Path::new(path).file_stem().map(|stem| stem.to_string_lossy().into_owned()).unwrap_or_default()
}

/// The temporary file a JSON file is written to before it replaces the
/// file: the same path with the extension `json.tmp`.
pub fn temp_path_(path: &str) -> (r: String)
    ensures
        r@ == path_with_extension(path@, "json.tmp"@),
{
    proof {
        reveal_strlit("json.tmp");
    }
    with_extension_(path, "json.tmp")
}

/// The identifier a stored file stands for: its file stem.
pub fn file_stem_(path: &str) -> (r: String)
    ensures
        r@ == path_file_stem(path@),
{
    file_stem_of_(path)
}

/// Milliseconds since the Unix epoch on the system clock; 0 when the clock
/// is set before the epoch.
///
/// Trusted: wraps `SystemTime::now()` and `duration_since(UNIX_EPOCH)`. The
/// value depends on the clock, so nothing is claimed of it.
#[verifier::external_body]
fn unix_now_millis() -> (r: u128) {
    std::time::SystemTime::now().duration_since(std::time::UNIX_EPOCH).map(|d| d.as_millis()).unwrap_or(0)
}

/// The current time in milliseconds since the Unix epoch, as a signed
/// count (`as i64`). The value comes from the clock, so nothing is claimed
/// of it.
pub fn now_millis_() -> i64 {
    let m = unix_now_millis();
    m as i64
}

/// A directory entry named `name` is a JSON file: it has the extension
/// `json` (a name that is only `.json` has none).
pub open spec fn is_json_file_name(name: Seq<char>) -> bool {
    name.len() > 5 && name.subrange(name.len() - 5, name.len() as int) == ".json"@
}

/// Whether a directory entry named `name` is a JSON file.
pub fn is_json_file(name: &str) -> (r: bool)
    ensures
        r == is_json_file_name(name@),
{
    proof {
        reveal_strlit(".json");
    }
    let c = chars_of(name);
    let n = c.len();
    if n <= 5 {
        return false;
    }
    let r = c[n - 5] == '.' && c[n - 4] == 'j' && c[n - 3] == 's' && c[n - 2] == 'o' && c[n - 1] == 'n';
    proof {
        let suf = name@.subrange(n - 5, n as int);
        if r {
            assert(suf =~= ".json"@);
        } else if suf == ".json"@ {
            assert(suf[0] == '.' && suf[1] == 'j' && suf[2] == 's' && suf[3] == 'o' && suf[4] == 'n');
        }
    }
    r
}

/// The entries of `names` that are JSON files, in their order.
pub open spec fn json_files_among(names: Seq<String>) -> Seq<String>
    decreases names.len(),
{
    if names.len() == 0 {
        Seq::empty()
    } else {
        let rest = json_files_among(names.drop_last());
        if is_json_file_name(names.last()@) {
            rest.push(names.last())
        } else {
            rest
        }
    }
}

/// The JSON files of a directory, given the names of its entries: each as
/// a path in `dir`, in code-point order of the names, so that listings do
/// not depend on the file system's order.
pub fn select_json_files(dir: &str, names: Vec<String>) -> (r: Vec<String>)
    ensures
        exists|s: Seq<String>|
            #![trigger s.to_multiset()]
            s.to_multiset() == json_files_among(names@).to_multiset()
            && sorted_by_lt(s, |a: String, b: String| string_lt(a, b))
            && r@.len() == s.len()
            && forall|k: int| 0 <= k < s.len() ==> #[trigger] r@[k]@ == join_path(dir@, s[k]@),
{
    let mut kept: Vec<String> = Vec::new();
    let mut i: usize = 0;
    while i < names.len()
        invariant
            i <= names@.len(),
            kept@ == json_files_among(names@.take(i as int)),
        decreases names@.len() - i,
    {
        let name = names[i].clone();
        proof {
            assert(names@.take(i as int + 1).drop_last() =~= names@.take(i as int));
        }
        if is_json_file(name.as_str()) {
            kept.push(name);
        }
        i = i + 1;
    }
    assert(names@.take(names@.len() as int) =~= names@);
    let sorted = sort_texts(kept);
    let mut r: Vec<String> = Vec::new();
    let mut k: usize = 0;
    while k < sorted.len()
        invariant
            k <= sorted@.len(),
            r@.len() == k,
            forall|q: int| 0 <= q < k ==> #[trigger] r@[q]@ == join_path(dir@, sorted@[q]@),
        decreases sorted@.len() - k,
    {
        let path = join_path_str(dir, sorted[k].as_str());
        r.push(path);
        k = k + 1;
    }
    assert(sorted@.to_multiset() == json_files_among(names@).to_multiset());
    r
}

/// A new workspace named `name` at `path`, with a fresh identifier.
pub fn new_workspace(name: &str, path: &str) -> (r: Workspace)
    ensures
        crate::ids::is_generated_id("w"@, r.workspace_id@),
        r.name@ == name@,
        r.path@ == path@,
{
    Workspace { workspace_id: WorkspaceId::generate(), name: name.to_owned(), path: path.to_owned() }
}

/// A new session with the given identifier, created at `now_millis`.
pub fn new_session_at(
    session_id: SessionId,
    workspace_id: WorkspaceId,
    title: Option<String>,
    turns: Vec<Turn>,
    now_millis: i64,
) -> (d: SessionDetail)
    ensures
        d.summary.session_id == session_id,
        d.summary.workspace_id == workspace_id,
        d.summary.title@ == normalize_title(opt_view(title), turns@),
        d.summary.updated_at_millis == now_millis,
        d.summary.turn_count == turn_count(turns@.len()),
        d.turns@ == turns@,
{
    let title = normalize_title_(title, &turns);
    let turn_count = turn_count_of_(&turns);
    SessionDetail {
        summary: SessionSummary { session_id, workspace_id, title, updated_at_millis: now_millis, turn_count },
        turns,
    }
}

/// `detail` with `turns` appended, its count refreshed and its activity time
/// set to `now_millis`.
pub fn append_turns_at(detail: SessionDetail, turns: Vec<Turn>, now_millis: i64) -> (d: SessionDetail)
    ensures
        d.turns@ == detail.turns@ + turns@,
        d.summary.session_id == detail.summary.session_id,
        d.summary.workspace_id == detail.summary.workspace_id,
        d.summary.title == detail.summary.title,
        d.summary.turn_count == turn_count((detail.turns@ + turns@).len()),
        d.summary.updated_at_millis == now_millis,
{
    let mut detail = detail;
    let mut turns = turns;
    detail.turns.append(&mut turns);
    detail.summary.turn_count = turn_count_of_(&detail.turns);
    detail.summary.updated_at_millis = now_millis;
    detail
}

/// `detail` renamed to `title` (trimmed; a blank title falls back to the
/// derived one) with its activity time set to `now_millis`.
pub fn rename_session_at(detail: SessionDetail, title: &str, now_millis: i64) -> (d: SessionDetail)
    ensures
        d.turns == detail.turns,
        d.summary.session_id == detail.summary.session_id,
        d.summary.workspace_id == detail.summary.workspace_id,
        d.summary.turn_count == detail.summary.turn_count,
        d.summary.title@ == normalize_title(Some(title@), detail.turns@),
        d.summary.updated_at_millis == now_millis,
{
    let mut detail = detail;
    detail.summary.title = normalize_title_(Some(title.to_owned()), &detail.turns);
    detail.summary.updated_at_millis = now_millis;
    detail
}

} // verus!
