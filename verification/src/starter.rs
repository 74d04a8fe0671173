//! Starting `kb_core` as a child process: where its executable is looked
//! for, and the command line it is given.
use vstd::prelude::*;
use crate::args::{join_path, join_path_str, spec_parse, CommandView, HandshakePrompt, ParsedView, PathsView};
use crate::text::strs;

verus! {

/// What starting `kb_core` needs; all three are given by the caller.
#[derive(Debug, Clone)]
pub struct LaunchSpec {
    /// The `kb_core` executable.
    pub kb_core: String,
    /// The runtime directory (where the IPC name file goes).
    pub runtime_dir: String,
    /// The knowledge-base data directory.
    pub storage_dir: String,
}

/// The arguments `kb_core` is started with: the handshake on standard
/// output, and both directories.
pub open spec fn child_args_of(runtime_dir: Seq<char>, storage_dir: Seq<char>) -> Seq<Seq<char>> {
    seq!["--handshake-prompt"@, "stdio"@, "--runtime-dir"@, runtime_dir, "--storage-dir"@, storage_dir]
}

/// The arguments given to the `kb_core` child of `spec`.
pub fn child_args(spec: &LaunchSpec) -> (r: Vec<String>)
    ensures
        strs(r@) == child_args_of(spec.runtime_dir@, spec.storage_dir@),
{
    let mut r: Vec<String> = Vec::new();
    r.push(String::from_str("--handshake-prompt"));
    r.push(String::from_str("stdio"));
    r.push(String::from_str("--runtime-dir"));
    r.push(spec.runtime_dir.clone());
    r.push(String::from_str("--storage-dir"));
    r.push(spec.storage_dir.clone());
    assert(strs(r@) =~= child_args_of(spec.runtime_dir@, spec.storage_dir@));
    r
}

/// The name of the `kb_core` executable: `kb-core`, with `.exe` on Windows.
pub fn kb_core_file_name_(windows: bool) -> (r: &'static str)
    ensures
        windows ==> r@ == "kb-core.exe"@,
        !windows ==> r@ == "kb-core"@,
{
    if windows {
        "kb-core.exe"
    } else {
        "kb-core"
    }
}

/// Where `kb_core` would be in `dir`; whether a file is there is for the
/// caller to check.
pub fn kb_core_candidate(dir: &str, windows: bool) -> (r: String)
    ensures
        windows ==> r@ == join_path(dir@, "kb-core.exe"@),
        !windows ==> r@ == join_path(dir@, "kb-core"@),
{
    join_path_str(dir, kb_core_file_name_(windows))
}

/// The child reads back what it is started with: `kb_core` given
/// `child_args` serves, announces its endpoint on standard output, and uses
/// exactly the two directories of the launch, whatever they hold.
pub proof fn law_child_serves_with_stdio_handshake(
    runtime_dir: Seq<char>,
    storage_dir: Seq<char>,
    xdg_runtime_dir: Option<Seq<char>>,
    temp_dir: Seq<char>,
)
    ensures
        spec_parse(child_args_of(runtime_dir, storage_dir), xdg_runtime_dir, temp_dir) == Ok::<ParsedView, crate::args::UsageErrorView>(
            ParsedView {
                paths: PathsView { runtime_dir, storage_dir },
                handshake_prompt: HandshakePrompt::Stdio,
                command: CommandView::Serve,
            },
        ),
{
    reveal_strlit("--handshake-prompt");
    reveal_strlit("stdio");
    reveal_strlit("none");
    reveal_strlit("--runtime-dir");
    reveal_strlit("--storage-dir");
    let toks = child_args_of(runtime_dir, storage_dir);
    assert(toks[0].len() != "--runtime-dir"@.len());
    assert(toks[2][2] != "--storage-dir"@[2] && toks[2].len() != "--handshake-prompt"@.len());
    assert(toks[4][2] != "--runtime-dir"@[2] && toks[4].len() != "--handshake-prompt"@.len());
    assert(toks[1].len() != "none"@.len());
    reveal_with_fuel(crate::args::scan_globals, 4);
}

} // verus!
