//! Paths of the plugin channel's Unix socket: a fresh
//! `kb-<YYYYMMDD>-<uuid>.sock` in the runtime directory at each start.
use vstd::prelude::*;
use crate::args::{join_path, join_path_str, opt_view};
use crate::calendar::{is_compact_day, today_utc_compact, utc_day_of};
use crate::ids::{is_simple_uuid, new_uuid_simple};
use crate::text::concat3;

verus! {

/// Directory name under `$XDG_RUNTIME_DIR` (or the temporary directory).
pub const FALLBACK_DIR_NAME: &'static str = "llm_kb";

/// Prefix of a socket file name.
pub const SOCKET_FILE_PREFIX: &'static str = "kb";

/// Extension of a socket file name.
pub const SOCKET_FILE_SUFFIX: &'static str = "sock";

/// Permissions of the socket file: owner read and write.
pub const SOCKET_FILE_MODE: u32 = 0o600;

/// Permissions of the runtime directory: owner only.
pub const RUNTIME_DIR_MODE: u32 = 0o700;

/// The runtime directory: `$XDG_RUNTIME_DIR/llm_kb`, or `<temp>/llm_kb`
/// when that variable is not set.
pub open spec fn runtime_dir_of(xdg_runtime_dir: Option<Seq<char>>, temp_dir: Seq<char>) -> Seq<char> {
    join_path(
        match xdg_runtime_dir {
            Some(d) => d,
            None => temp_dir,
        },
        FALLBACK_DIR_NAME@,
    )
}

/// The default runtime directory, given `$XDG_RUNTIME_DIR` and the system's
/// temporary directory.
pub fn default_runtime_dir(xdg_runtime_dir: Option<String>, temp_dir: String) -> (r: String)
    ensures
        r@ == runtime_dir_of(opt_view(xdg_runtime_dir), temp_dir@),
{
    let base = match xdg_runtime_dir {
        Some(d) => d,
        None => temp_dir,
    };
    join_path_str(base.as_str(), FALLBACK_DIR_NAME)
}

/// The socket file name for `date` and the UUID `uuid`.
pub open spec fn socket_file_name(date: Seq<char>, uuid: Seq<char>) -> Seq<char> {
    SOCKET_FILE_PREFIX@ + "-"@ + date + "-"@ + uuid + "."@ + SOCKET_FILE_SUFFIX@
}

/// `path` is a socket path in `runtime_dir` for `date`.
pub open spec fn is_socket_path(path: Seq<char>, runtime_dir: Seq<char>, date: Seq<char>) -> bool {
    exists|uuid: Seq<char>|
        is_simple_uuid(uuid) && path == join_path(runtime_dir, #[trigger] socket_file_name(date, uuid))
}

/// A new socket path in `runtime_dir` for `date` (the file is not created):
/// `<runtime_dir>/kb-<date>-<uuid>.sock` with a fresh simple UUID.
pub fn generate_path(runtime_dir: &str, date: &str) -> (r: String)
    ensures
        is_socket_path(r@, runtime_dir@, date@),
{
    let uuid = new_uuid_simple();
    let head = concat3("kb-", date, "-");
    let name = concat3(head.as_str(), uuid.as_str(), ".sock");
    proof {
        reveal_strlit("kb-");
        reveal_strlit("-");
        reveal_strlit(".sock");
        reveal_strlit(".");
        reveal_strlit("kb");
        reveal_strlit("sock");
        assert(name@ =~= socket_file_name(date@, uuid@));
    }
    join_path_str(runtime_dir, name.as_str())
}

/// A new socket path in `runtime_dir` for today's UTC date.
pub fn generate_for_today(runtime_dir: &str) -> (r: String)
    ensures
        exists|date: Seq<char>, secs: u64|
            is_compact_day(date, #[trigger] utc_day_of(secs)) && #[trigger] is_socket_path(r@, runtime_dir@, date),
{
    let date = today_utc_compact();
    generate_path(runtime_dir, date.as_str())
}

/// Owner of a bound socket's path; the file is removed when the service
/// shuts down.
pub struct SocketFileGuard {
    path: String,
}

impl SocketFileGuard {
    /// The path guarded.
    pub closed spec fn spec_path(&self) -> Seq<char> {
        self.path@
    }

    /// A guard for a socket already bound at `path`.
    pub fn new(path: String) -> (r: Self)
        ensures
            r.spec_path() == path@,
    {
        SocketFileGuard { path }
    }

    /// The path guarded.
    pub fn path(&self) -> (r: &str)
        ensures
            r@ == self.spec_path(),
    {
        self.path.as_str()
    }
}

} // verus!
