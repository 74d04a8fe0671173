//! Command-line parsing of the `kb-core` process.
//!
//! Global options (`--runtime-dir`, `--storage-dir`, `--handshake-prompt`,
//! `-h`/`--help`) come first; the first token that is not an option starts the
//! sub-command. Inside a sub-command, `--key value` pairs and positional
//! operands may come in any order.
use vstd::prelude::*;
use crate::text::{
    strs, str_eq, first_char_is, second_char_is, skip_chars, concat2, concat3, tail_from,
};

verus! {

/// Usage text printed by `--help`.
pub const USAGE: &'static str = "\
kb-core —— 知识库主进程

用法:
    kb-core [--runtime-dir <目录>] [--storage-dir <目录>]
        常驻骨架：准备目录与存储、打印现状，然后等 Ctrl-C。

    kb-core [--runtime-dir <目录>] [--storage-dir <目录>] <子命令>
        执行一次操作后退出。

    kb-core --help
        打印本说明。

全局选项:
    --runtime-dir <目录>  运行时目录（下一轮的 IPC 端点放在这里）。
                          默认 $XDG_RUNTIME_DIR/llm_kb，未设置时回退系统临时目录。
    --storage-dir <目录>  工作区与会话的存储目录。默认 <运行时目录>/storage。
    --handshake-prompt <方式>
                          启动时如何把 IPC 端点文件名通知给父进程。
                          none（默认）：不通知，stdout 保持干净。
                          stdio：往 stdout 打一行 JSON 通知，供启动它的父进程读取。
    -h, --help            打印本说明。

子命令:
    workspace add    --name <名字> --path <目录>
    workspace list
    workspace show   <工作区标识>
    workspace update <工作区标识> [--name <名字>] [--path <目录>]
    workspace remove <工作区标识>

    session add    --workspace <工作区标识> [--title <标题>]
    session list   --workspace <工作区标识>
    session show   --workspace <工作区标识> <会话标识>
    session update --workspace <工作区标识> <会话标识> --title <标题>
    session remove --workspace <工作区标识> <会话标识>
";

// ── Types ─────────────────────────────────────────────────────────────────

/// The parsed command line.
#[derive(Debug, Clone, PartialEq, Eq)]
pub struct Parsed {
    /// Runtime and storage directories.
    pub paths: Paths,
    /// How the IPC endpoint is announced to the parent process.
    pub handshake_prompt: HandshakePrompt,
    /// What to do.
    pub command: Command,
}

/// How the IPC endpoint file name is announced at start-up.
#[derive(Debug, Clone, Copy, PartialEq, Eq, Default)]
pub enum HandshakePrompt {
    /// No announcement: stdout stays clean.
    #[default]
    Silent,
    /// One machine-readable line on stdout.
    Stdio,
}

/// Runtime directory and storage directory.
#[derive(Debug, Clone, PartialEq, Eq)]
pub struct Paths {
    /// Directory of run-time files.
    pub runtime_dir: String,
    /// Directory of workspaces and sessions.
    pub storage_dir: String,
}

/// Top-level action.
#[derive(Debug, Clone, PartialEq, Eq)]
pub enum Command {
    /// Print the usage text.
    Help,
    /// Resident service.
    Serve,
    /// A workspace operation.
    Workspace(WorkspaceCommand),
    /// A session operation.
    Session(SessionCommand),
}

/// Workspace operations.
#[derive(Debug, Clone, PartialEq, Eq)]
pub enum WorkspaceCommand {
    /// Create a workspace.
    Add { name: String, path: String },
    /// List all workspaces.
    List,
    /// Show one workspace.
    Show { workspace_id: String },
    /// Change the name and/or the path.
    Update { workspace_id: String, name: Option<String>, path: Option<String> },
    /// Remove a workspace with its sessions.
    Remove { workspace_id: String },
}

/// Session operations.
#[derive(Debug, Clone, PartialEq, Eq)]
pub enum SessionCommand {
    /// Create a session.
    Add { workspace_id: String, title: Option<String> },
    /// List the sessions of a workspace.
    List { workspace_id: String },
    /// Show one session.
    Show { workspace_id: String, session_id: String },
    /// Change the title.
    Update { workspace_id: String, session_id: String, title: String },
    /// Remove one session.
    Remove { workspace_id: String, session_id: String },
}

/// Why a command line was refused.
#[derive(Debug, Clone, PartialEq, Eq)]
pub enum UsageError {
    /// An option that is not known.
    UnknownOption(String),
    /// An option value that is not allowed.
    InvalidOptionValue { option: &'static str, value: String },
    /// An option without its value.
    MissingValue(String),
    /// A required operand is missing.
    MissingOperand(&'static str),
    /// A required `--key value` is missing.
    MissingOption(&'static str),
    /// One operand too many.
    UnexpectedArgument(String),
    /// Unknown first-level sub-command.
    UnknownCommand(String),
    /// Unknown second-level action.
    UnknownAction(String, String),
    /// A combination of values that does not hold together.
    Invalid(&'static str),
}

// ── Views ─────────────────────────────────────────────────────────────────

pub open spec fn opt_view(o: Option<String>) -> Option<Seq<char>> {
    match o {
        Some(s) => Some(s@),
        None => None,
    }
}

pub struct PathsView {
    pub runtime_dir: Seq<char>,
    pub storage_dir: Seq<char>,
}

pub enum WorkspaceCommandView {
    Add { name: Seq<char>, path: Seq<char> },
    List,
    Show { workspace_id: Seq<char> },
    Update { workspace_id: Seq<char>, name: Option<Seq<char>>, path: Option<Seq<char>> },
    Remove { workspace_id: Seq<char> },
}

pub enum SessionCommandView {
    Add { workspace_id: Seq<char>, title: Option<Seq<char>> },
    List { workspace_id: Seq<char> },
    Show { workspace_id: Seq<char>, session_id: Seq<char> },
    Update { workspace_id: Seq<char>, session_id: Seq<char>, title: Seq<char> },
    Remove { workspace_id: Seq<char>, session_id: Seq<char> },
}

pub enum CommandView {
    Help,
    Serve,
    Workspace(WorkspaceCommandView),
    Session(SessionCommandView),
}

pub struct ParsedView {
    pub paths: PathsView,
    pub handshake_prompt: HandshakePrompt,
    pub command: CommandView,
}

pub enum UsageErrorView {
    UnknownOption(Seq<char>),
    InvalidOptionValue { option: Seq<char>, value: Seq<char> },
    MissingValue(Seq<char>),
    MissingOperand(Seq<char>),
    MissingOption(Seq<char>),
    UnexpectedArgument(Seq<char>),
    UnknownCommand(Seq<char>),
    UnknownAction(Seq<char>, Seq<char>),
    Invalid(Seq<char>),
}

impl View for Paths {
    type V = PathsView;

    open spec fn view(&self) -> PathsView {
        PathsView { runtime_dir: self.runtime_dir@, storage_dir: self.storage_dir@ }
    }
}

impl View for WorkspaceCommand {
    type V = WorkspaceCommandView;

    open spec fn view(&self) -> WorkspaceCommandView {
        match self {
            WorkspaceCommand::Add { name, path } => WorkspaceCommandView::Add { name: name@, path: path@ },
            WorkspaceCommand::List => WorkspaceCommandView::List,
            WorkspaceCommand::Show { workspace_id } => WorkspaceCommandView::Show { workspace_id: workspace_id@ },
            WorkspaceCommand::Update { workspace_id, name, path } => WorkspaceCommandView::Update {
                workspace_id: workspace_id@,
                name: opt_view(*name),
                path: opt_view(*path),
            },
            WorkspaceCommand::Remove { workspace_id } => WorkspaceCommandView::Remove { workspace_id: workspace_id@ },
        }
    }
}

impl View for SessionCommand {
    type V = SessionCommandView;

    open spec fn view(&self) -> SessionCommandView {
        match self {
            SessionCommand::Add { workspace_id, title } => SessionCommandView::Add {
                workspace_id: workspace_id@,
                title: opt_view(*title),
            },
            SessionCommand::List { workspace_id } => SessionCommandView::List { workspace_id: workspace_id@ },
            SessionCommand::Show { workspace_id, session_id } => SessionCommandView::Show {
                workspace_id: workspace_id@,
                session_id: session_id@,
            },
            SessionCommand::Update { workspace_id, session_id, title } => SessionCommandView::Update {
                workspace_id: workspace_id@,
                session_id: session_id@,
                title: title@,
            },
            SessionCommand::Remove { workspace_id, session_id } => SessionCommandView::Remove {
                workspace_id: workspace_id@,
                session_id: session_id@,
            },
        }
    }
}

impl View for Command {
    type V = CommandView;

    open spec fn view(&self) -> CommandView {
        match self {
            Command::Help => CommandView::Help,
            Command::Serve => CommandView::Serve,
            Command::Workspace(c) => CommandView::Workspace(c@),
            Command::Session(c) => CommandView::Session(c@),
        }
    }
}

impl View for Parsed {
    type V = ParsedView;

    open spec fn view(&self) -> ParsedView {
        ParsedView { paths: self.paths@, handshake_prompt: self.handshake_prompt, command: self.command@ }
    }
}

impl View for UsageError {
    type V = UsageErrorView;

    open spec fn view(&self) -> UsageErrorView {
        match self {
            UsageError::UnknownOption(s) => UsageErrorView::UnknownOption(s@),
            UsageError::InvalidOptionValue { option, value } => UsageErrorView::InvalidOptionValue {
                option: option@,
                value: value@,
            },
            UsageError::MissingValue(s) => UsageErrorView::MissingValue(s@),
            UsageError::MissingOperand(s) => UsageErrorView::MissingOperand(s@),
            UsageError::MissingOption(s) => UsageErrorView::MissingOption(s@),
            UsageError::UnexpectedArgument(s) => UsageErrorView::UnexpectedArgument(s@),
            UsageError::UnknownCommand(s) => UsageErrorView::UnknownCommand(s@),
            UsageError::UnknownAction(a, b) => UsageErrorView::UnknownAction(a@, b@),
            UsageError::Invalid(s) => UsageErrorView::Invalid(s@),
        }
    }
}

/// The view of a parse outcome.
pub open spec fn result_view<T: View>(r: Result<T, UsageError>) -> Result<T::V, UsageErrorView> {
    match r {
        Ok(v) => Ok(v@),
        Err(e) => Err(e@),
    }
}

// ── Specification ─────────────────────────────────────────────────────────

/// A token that starts with `-`.
pub open spec fn starts_with_dash(t: Seq<char>) -> bool {
    t.len() > 0 && t[0] == '-'
}

/// A token that starts with `--`.
pub open spec fn is_long_flag(t: Seq<char>) -> bool {
    t.len() >= 2 && t[0] == '-' && t[1] == '-'
}

/// `comp` appended to `base` as a path component.
pub open spec fn join_path(base: Seq<char>, comp: Seq<char>) -> Seq<char> {
    if base.len() == 0 {
        comp
    } else if base.last() == '/' {
        base + comp
    } else {
        base + seq!['/'] + comp
    }
}

/// An empty `$XDG_RUNTIME_DIR` counts as unset.
pub open spec fn effective_dir(d: Option<Seq<char>>) -> Option<Seq<char>> {
    match d {
        Some(s) => if s.len() == 0 { None } else { Some(s) },
        None => None,
    }
}

/// Runtime directory: explicit > `$XDG_RUNTIME_DIR/llm_kb` > `<temp>/llm_kb`;
/// storage directory: explicit > `<runtime>/storage`.
pub open spec fn resolve_paths(
    runtime_dir: Option<Seq<char>>,
    storage_dir: Option<Seq<char>>,
    xdg: Option<Seq<char>>,
    temp: Seq<char>,
) -> PathsView {
    let runtime = match runtime_dir {
        Some(d) => d,
        None => join_path(
            match effective_dir(xdg) {
                Some(d) => d,
                None => temp,
            },
            "llm_kb"@,
        ),
    };
    let storage = match storage_dir {
        Some(d) => d,
        None => join_path(runtime, "storage"@),
    };
    PathsView { runtime_dir: runtime, storage_dir: storage }
}

/// Outcome of scanning the global options.
pub enum ScanView {
    /// `-h`/`--help` was met.
    Help { runtime_dir: Option<Seq<char>>, storage_dir: Option<Seq<char>>, prompt: HandshakePrompt },
    /// The options end at `index`.
    Rest { index: int, runtime_dir: Option<Seq<char>>, storage_dir: Option<Seq<char>>, prompt: HandshakePrompt },
    /// A global option was refused.
    Fail(UsageErrorView),
}

/// Global options from position `i` on, with what was collected so far.
pub open spec fn scan_globals(
    toks: Seq<Seq<char>>,
    i: int,
    rt: Option<Seq<char>>,
    sd: Option<Seq<char>>,
    hp: HandshakePrompt,
) -> ScanView
    decreases toks.len() - i,
{
    if i < 0 || i >= toks.len() {
        ScanView::Rest { index: i, runtime_dir: rt, storage_dir: sd, prompt: hp }
    } else {
        let t = toks[i];
        if t == "--runtime-dir"@ {
            if i + 1 < toks.len() {
                scan_globals(toks, i + 2, Some(toks[i + 1]), sd, hp)
            } else {
                ScanView::Fail(UsageErrorView::MissingValue("--runtime-dir"@))
            }
        } else if t == "--storage-dir"@ {
            if i + 1 < toks.len() {
                scan_globals(toks, i + 2, rt, Some(toks[i + 1]), hp)
            } else {
                ScanView::Fail(UsageErrorView::MissingValue("--storage-dir"@))
            }
        } else if t == "--handshake-prompt"@ {
            if i + 1 < toks.len() {
                let v = toks[i + 1];
                if v == "none"@ {
                    scan_globals(toks, i + 2, rt, sd, HandshakePrompt::Silent)
                } else if v == "stdio"@ {
                    scan_globals(toks, i + 2, rt, sd, HandshakePrompt::Stdio)
                } else {
                    ScanView::Fail(UsageErrorView::InvalidOptionValue { option: "handshake-prompt"@, value: v })
                }
            } else {
                ScanView::Fail(UsageErrorView::MissingValue("--handshake-prompt"@))
            }
        } else if t == "-h"@ || t == "--help"@ {
            ScanView::Help { runtime_dir: rt, storage_dir: sd, prompt: hp }
        } else if starts_with_dash(t) {
            ScanView::Fail(UsageErrorView::UnknownOption(t))
        } else {
            ScanView::Rest { index: i, runtime_dir: rt, storage_dir: sd, prompt: hp }
        }
    }
}

/// The `--key value` pairs (keys without `--`) and operands of a sub-command.
pub struct FlagsView {
    pub values: Seq<(Seq<char>, Seq<char>)>,
    pub operands: Seq<Seq<char>>,
}

/// Keyword pairs and operands from position `i` on.
pub open spec fn scan_flags(toks: Seq<Seq<char>>, i: int, acc: FlagsView) -> Result<FlagsView, UsageErrorView>
    decreases toks.len() - i,
{
    if i < 0 || i >= toks.len() {
        Ok(acc)
    } else {
        let t = toks[i];
        if is_long_flag(t) {
            if i + 1 < toks.len() {
                scan_flags(
                    toks,
                    i + 2,
                    FlagsView { values: acc.values.push((t.subrange(2, t.len() as int), toks[i + 1])), operands: acc.operands },
                )
            } else {
                Err(UsageErrorView::MissingValue(t))
            }
        } else if starts_with_dash(t) && t != seq!['-'] {
            Err(UsageErrorView::UnknownOption(t))
        } else {
            scan_flags(toks, i + 1, FlagsView { values: acc.values, operands: acc.operands.push(t) })
        }
    }
}

/// The flags of a whole token list.
pub open spec fn flags_of(toks: Seq<Seq<char>>) -> Result<FlagsView, UsageErrorView> {
    scan_flags(toks, 0, FlagsView { values: Seq::empty(), operands: Seq::empty() })
}

/// The first position at or after `j` whose key is `name`.
pub open spec fn first_key_from(values: Seq<(Seq<char>, Seq<char>)>, name: Seq<char>, j: int) -> Option<int>
    decreases values.len() - j,
{
    if j < 0 || j >= values.len() {
        None
    } else if values[j].0 == name {
        Some(j)
    } else {
        first_key_from(values, name, j + 1)
    }
}

/// Take out the first pair with key `name`.
pub open spec fn spec_take(f: FlagsView, name: Seq<char>) -> (Option<Seq<char>>, FlagsView) {
    match first_key_from(f.values, name, 0) {
        Some(k) => (Some(f.values[k].1), FlagsView { values: f.values.remove(k), operands: f.operands }),
        None => (None, f),
    }
}

/// Take out a required pair.
pub open spec fn spec_require(f: FlagsView, name: Seq<char>) -> Result<(Seq<char>, FlagsView), UsageErrorView> {
    match spec_take(f, name) {
        (Some(v), g) => Ok((v, g)),
        (None, _) => Err(UsageErrorView::MissingOption(name)),
    }
}

/// Take out the first operand.
pub open spec fn spec_operand(f: FlagsView, what: Seq<char>) -> Result<(Seq<char>, FlagsView), UsageErrorView> {
    if f.operands.len() == 0 {
        Err(UsageErrorView::MissingOperand(what))
    } else {
        Ok((f.operands[0], FlagsView { values: f.values, operands: f.operands.remove(0) }))
    }
}

/// Nothing may be left over.
pub open spec fn spec_finish(f: FlagsView) -> Option<UsageErrorView> {
    if f.values.len() > 0 {
        Some(UsageErrorView::UnknownOption(seq!['-', '-'] + f.values[0].0))
    } else if f.operands.len() > 0 {
        Some(UsageErrorView::UnexpectedArgument(f.operands[0]))
    } else {
        None
    }
}

/// Finish, then give `c`.
pub open spec fn finish_with(f: FlagsView, c: CommandView) -> Result<CommandView, UsageErrorView> {
    match spec_finish(f) {
        Some(e) => Err(e),
        None => Ok(c),
    }
}

/// A `workspace` action over its remaining tokens.
pub open spec fn workspace_action(action: Seq<char>, rest: Seq<Seq<char>>) -> Result<CommandView, UsageErrorView> {
    if action == "add"@ {
        match flags_of(rest) {
            Err(e) => Err(e),
            Ok(f) => match spec_require(f, "name"@) {
                Err(e) => Err(e),
                Ok((name, f)) => match spec_require(f, "path"@) {
                    Err(e) => Err(e),
                    Ok((path, f)) => finish_with(f, CommandView::Workspace(WorkspaceCommandView::Add { name, path })),
                },
            },
        }
    } else if action == "list"@ {
        match flags_of(rest) {
            Err(e) => Err(e),
            Ok(f) => finish_with(f, CommandView::Workspace(WorkspaceCommandView::List)),
        }
    } else if action == "show"@ {
        match flags_of(rest) {
            Err(e) => Err(e),
            Ok(f) => match spec_operand(f, "<工作区标识>"@) {
                Err(e) => Err(e),
                Ok((workspace_id, f)) => finish_with(f, CommandView::Workspace(WorkspaceCommandView::Show { workspace_id })),
            },
        }
    } else if action == "update"@ {
        match flags_of(rest) {
            Err(e) => Err(e),
            Ok(f) => match spec_operand(f, "<工作区标识>"@) {
                Err(e) => Err(e),
                Ok((workspace_id, f)) => {
                    let (name, f) = spec_take(f, "name"@);
                    let (path, f) = spec_take(f, "path"@);
                    match spec_finish(f) {
                        Some(e) => Err(e),
                        None => if name is None && path is None {
                            Err(UsageErrorView::Invalid("workspace update 至少要给出 --name 或 --path 之一"@))
                        } else {
                            Ok(CommandView::Workspace(WorkspaceCommandView::Update { workspace_id, name, path }))
                        },
                    }
                },
            },
        }
    } else if action == "remove"@ {
        match flags_of(rest) {
            Err(e) => Err(e),
            Ok(f) => match spec_operand(f, "<工作区标识>"@) {
                Err(e) => Err(e),
                Ok((workspace_id, f)) => finish_with(f, CommandView::Workspace(WorkspaceCommandView::Remove { workspace_id })),
            },
        }
    } else {
        Err(UsageErrorView::UnknownAction("workspace"@, action))
    }
}

/// A `session` action over its remaining tokens.
pub open spec fn session_action(action: Seq<char>, rest: Seq<Seq<char>>) -> Result<CommandView, UsageErrorView> {
    if action == "add"@ {
        match flags_of(rest) {
            Err(e) => Err(e),
            Ok(f) => match spec_require(f, "workspace"@) {
                Err(e) => Err(e),
                Ok((workspace_id, f)) => {
                    let (title, f) = spec_take(f, "title"@);
                    finish_with(f, CommandView::Session(SessionCommandView::Add { workspace_id, title }))
                },
            },
        }
    } else if action == "list"@ {
        match flags_of(rest) {
            Err(e) => Err(e),
            Ok(f) => match spec_require(f, "workspace"@) {
                Err(e) => Err(e),
                Ok((workspace_id, f)) => finish_with(f, CommandView::Session(SessionCommandView::List { workspace_id })),
            },
        }
    } else if action == "show"@ {
        match flags_of(rest) {
            Err(e) => Err(e),
            Ok(f) => match spec_require(f, "workspace"@) {
                Err(e) => Err(e),
                Ok((workspace_id, f)) => match spec_operand(f, "<会话标识>"@) {
                    Err(e) => Err(e),
                    Ok((session_id, f)) => finish_with(
                        f,
                        CommandView::Session(SessionCommandView::Show { workspace_id, session_id }),
                    ),
                },
            },
        }
    } else if action == "update"@ {
        match flags_of(rest) {
            Err(e) => Err(e),
            Ok(f) => match spec_require(f, "workspace"@) {
                Err(e) => Err(e),
                Ok((workspace_id, f)) => match spec_operand(f, "<会话标识>"@) {
                    Err(e) => Err(e),
                    Ok((session_id, f)) => match spec_require(f, "title"@) {
                        Err(e) => Err(e),
                        Ok((title, f)) => finish_with(
                            f,
                            CommandView::Session(SessionCommandView::Update { workspace_id, session_id, title }),
                        ),
                    },
                },
            },
        }
    } else if action == "remove"@ {
        match flags_of(rest) {
            Err(e) => Err(e),
            Ok(f) => match spec_require(f, "workspace"@) {
                Err(e) => Err(e),
                Ok((workspace_id, f)) => match spec_operand(f, "<会话标识>"@) {
                    Err(e) => Err(e),
                    Ok((session_id, f)) => finish_with(
                        f,
                        CommandView::Session(SessionCommandView::Remove { workspace_id, session_id }),
                    ),
                },
            },
        }
    } else {
        Err(UsageErrorView::UnknownAction("session"@, action))
    }
}

/// The sub-command made of `toks` (at least one token).
pub open spec fn spec_command(toks: Seq<Seq<char>>) -> Result<CommandView, UsageErrorView> {
    let domain = toks[0];
    if domain == "workspace"@ {
        if toks.len() < 2 {
            Err(UsageErrorView::MissingOperand("workspace <动作>"@))
        } else {
            workspace_action(toks[1], toks.subrange(2, toks.len() as int))
        }
    } else if domain == "session"@ {
        if toks.len() < 2 {
            Err(UsageErrorView::MissingOperand("session <动作>"@))
        } else {
            session_action(toks[1], toks.subrange(2, toks.len() as int))
        }
    } else {
        Err(UsageErrorView::UnknownCommand(domain))
    }
}

/// The whole command line, given `$XDG_RUNTIME_DIR` and the system temporary
/// directory.
pub open spec fn spec_parse(toks: Seq<Seq<char>>, xdg: Option<Seq<char>>, temp: Seq<char>) -> Result<ParsedView, UsageErrorView> {
    match scan_globals(toks, 0, None, None, HandshakePrompt::Silent) {
        ScanView::Fail(e) => Err(e),
        ScanView::Help { runtime_dir, storage_dir, prompt } => Ok(ParsedView {
            paths: resolve_paths(runtime_dir, storage_dir, xdg, temp),
            handshake_prompt: prompt,
            command: CommandView::Help,
        }),
        ScanView::Rest { index, runtime_dir, storage_dir, prompt } => {
            let paths = resolve_paths(runtime_dir, storage_dir, xdg, temp);
            if index >= toks.len() {
                Ok(ParsedView { paths, handshake_prompt: prompt, command: CommandView::Serve })
            } else {
                match spec_command(toks.subrange(index, toks.len() as int)) {
                    Ok(command) => Ok(ParsedView { paths, handshake_prompt: prompt, command }),
                    Err(e) => Err(e),
                }
            }
        },
    }
}


// ── Implementation ────────────────────────────────────────────────────────

/// The view of keyword pairs.
pub open spec fn pairs_view(v: Seq<(String, String)>) -> Seq<(Seq<char>, Seq<char>)> {
    v.map_values(|p: (String, String)| (p.0@, p.1@))
}

/// `--key value` pairs and operands of a sub-command, in the order met.
struct Flags {
    values: Vec<(String, String)>,
    operands: Vec<String>,
}

impl Flags {
    spec fn fv(&self) -> FlagsView {
        FlagsView { values: pairs_view(self.values@), operands: strs(self.operands@) }
    }

    /// Reads a token list; keys are kept without their `--`.
    fn parse_(tokens: &Vec<String>) -> (r: Result<Flags, UsageError>)
        ensures
            match (r, flags_of(strs(tokens@))) {
                (Ok(f), Ok(v)) => f.fv() == v,
                (Err(e), Err(v)) => e@ == v,
                _ => false,
            },
    {
        let ghost toks = strs(tokens@);
        let mut values: Vec<(String, String)> = Vec::new();
        let mut operands: Vec<String> = Vec::new();
        let mut index: usize = 0;
        proof {
            assert(pairs_view(values@) =~= Seq::<(Seq<char>, Seq<char>)>::empty());
            assert(strs(operands@) =~= Seq::<Seq<char>>::empty());
        }
        while index < tokens.len()
            invariant
                toks == strs(tokens@),
                index <= tokens.len(),
                flags_of(toks) == scan_flags(
                    toks,
                    index as int,
                    FlagsView { values: pairs_view(values@), operands: strs(operands@) },
                ),
            decreases tokens.len() - index,
        {
            let token = tokens[index].as_str();
            assert(token@ == toks[index as int]);
            proof {
                reveal_strlit("-");
                assert("-"@ =~= seq!['-']);
            }
            if first_char_is(token, '-') && second_char_is(token, '-') {
                if index + 1 < tokens.len() {
                    let name = skip_chars(token, 2);
                    let value = tokens[index + 1].clone();
                    let ghost before = values@;
                    values.push((name, value));
                    assert(pairs_view(values@) =~= pairs_view(before).push(
                        (toks[index as int].subrange(2, toks[index as int].len() as int), toks[index + 1]),
                    ));
                    index = index + 2;
                } else {
                    return Err(UsageError::MissingValue(token.to_owned()));
                }
            } else if first_char_is(token, '-') && !str_eq(token, "-") {
                assert(starts_with_dash(toks[index as int]) && toks[index as int] != seq!['-']);
                return Err(UsageError::UnknownOption(token.to_owned()));
            } else {
                let ghost before = operands@;
                let ghost acc = FlagsView { values: pairs_view(values@), operands: strs(operands@) };
                operands.push(token.to_owned());
                assert(strs(operands@) =~= strs(before).push(toks[index as int]));
                assert(scan_flags(toks, index as int, acc) == scan_flags(toks, index + 1, FlagsView { values: pairs_view(values@), operands: strs(operands@) }));
                index = index + 1;
            }
        }
        Ok(Flags { values, operands })
    }

    /// Takes out the first pair whose key is `name`.
    fn take_(&mut self, name: &str) -> (r: Option<String>)
        ensures
            opt_view(r) == spec_take(old(self).fv(), name@).0,
            final(self).fv() == spec_take(old(self).fv(), name@).1,
    {
        let ghost vals = pairs_view(self.values@);
        let mut j: usize = 0;
        while j < self.values.len()
            invariant
                *self == *old(self),
                vals == pairs_view(self.values@),
                j <= self.values.len(),
                first_key_from(vals, name@, 0) == first_key_from(vals, name@, j as int),
            decreases self.values.len() - j,
        {
            assert(vals[j as int].0 == self.values@[j as int].0@);
            if str_eq(self.values[j].0.as_str(), name) {
                let ghost before = self.values@;
                let (_, value) = self.values.remove(j);
                assert(pairs_view(self.values@) =~= vals.remove(j as int));
                return Some(value);
            }
            j = j + 1;
        }
        None
    }

    /// Takes out a required pair.
    fn require_(&mut self, name: &'static str) -> (r: Result<String, UsageError>)
        ensures
            match (r, spec_require(old(self).fv(), name@)) {
                (Ok(v), Ok((w, g))) => v@ == w && final(self).fv() == g,
                (Err(e), Err(w)) => e@ == w,
                _ => false,
            },
    {
        match self.take_(name) {
            Some(value) => Ok(value),
            None => Err(UsageError::MissingOption(name)),
        }
    }

    /// Takes out the first operand.
    fn operand_(&mut self, what: &'static str) -> (r: Result<String, UsageError>)
        ensures
            match (r, spec_operand(old(self).fv(), what@)) {
                (Ok(v), Ok((w, g))) => v@ == w && final(self).fv() == g,
                (Err(e), Err(w)) => e@ == w,
                _ => false,
            },
    {
        if self.operands.len() == 0 {
            Err(UsageError::MissingOperand(what))
        } else {
            let ghost before = self.operands@;
            let first = self.operands.remove(0);
            assert(strs(self.operands@) =~= strs(before).remove(0));
            Ok(first)
        }
    }

    /// Refuses left-over pairs or operands.
    fn finish_(&self) -> (r: Result<(), UsageError>)
        ensures
            match (r, spec_finish(self.fv())) {
                (Ok(_), None) => true,
                (Err(e), Some(w)) => e@ == w,
                _ => false,
            },
    {
        if self.values.len() > 0 {
            proof {
                reveal_strlit("--");
                assert("--"@ =~= seq!['-', '-']);
            }
            let key = concat2("--", self.values[0].0.as_str());
            assert(self.fv().values[0].0 == self.values@[0].0@);
            assert(key@ == seq!['-', '-'] + self.fv().values[0].0);
            Err(UsageError::UnknownOption(key))
        } else if self.operands.len() > 0 {
            assert(self.fv().operands[0] == self.operands@[0]@);
            Err(UsageError::UnexpectedArgument(self.operands[0].clone()))
        } else {
            Ok(())
        }
    }
}

impl HandshakePrompt {
    /// Reads a `--handshake-prompt` value: `none` or `stdio`.
    pub fn parse_(value: &str) -> (r: Result<HandshakePrompt, UsageError>)
        ensures
            value@ == "none"@ ==> r == Ok::<HandshakePrompt, UsageError>(HandshakePrompt::Silent),
            value@ != "none"@ && value@ == "stdio"@ ==> r == Ok::<HandshakePrompt, UsageError>(HandshakePrompt::Stdio),
            value@ != "none"@ && value@ != "stdio"@ ==> (r matches Err(e) && e@ == UsageErrorView::InvalidOptionValue {
                option: "handshake-prompt"@,
                value: value@,
            }),
    {
        if str_eq(value, "none") {
            Ok(HandshakePrompt::Silent)
        } else if str_eq(value, "stdio") {
            Ok(HandshakePrompt::Stdio)
        } else {
            Err(UsageError::InvalidOptionValue { option: "handshake-prompt", value: value.to_owned() })
        }
    }
}

/// `comp` appended to `base` as a path component (`Path::join` for a
/// relative component).
pub fn join_path_str(base: &str, comp: &str) -> (r: String)
    ensures
        r@ == join_path(base@, comp@),
{
    let n = base.unicode_len();
    if n == 0 {
        comp.to_owned()
    } else if base.get_char(n - 1) == '/' {
        concat2(base, comp)
    } else {
        proof {
            reveal_strlit("/");
            assert("/"@ =~= seq!['/']);
        }
        concat3(base, "/", comp)
    }
}

/// Decides the runtime and storage directories.
pub fn resolve_paths_(
    runtime_dir: Option<String>,
    storage_dir: Option<String>,
    xdg_runtime_dir: Option<String>,
    temp_dir: String,
) -> (p: Paths)
    ensures
        p@ == resolve_paths(opt_view(runtime_dir), opt_view(storage_dir), opt_view(xdg_runtime_dir), temp_dir@),
{
    let runtime = match runtime_dir {
        Some(dir) => dir,
        None => {
            let base = match xdg_runtime_dir {
                Some(dir) => if dir.unicode_len() == 0 { temp_dir } else { dir },
                None => temp_dir,
            };
            join_path_str(base.as_str(), "llm_kb")
        },
    };
    let storage = match storage_dir {
        Some(dir) => dir,
        None => join_path_str(runtime.as_str(), "storage"),
    };
    Paths { runtime_dir: runtime, storage_dir: storage }
}

/// `tokens[index]` as the value of `flag`.
fn value_at_(tokens: &Vec<String>, index: usize, flag: &str) -> (r: Result<String, UsageError>)
    ensures
        index < tokens.len() ==> (r matches Ok(v) && v@ == tokens@[index as int]@),
        index >= tokens.len() ==> (r matches Err(e) && e@ == UsageErrorView::MissingValue(flag@)),
{
    if index < tokens.len() {
        Ok(tokens[index].clone())
    } else {
        Err(UsageError::MissingValue(flag.to_owned()))
    }
}

/// The command of a finished flag set.
fn finish_into(flags: &Flags, command: Command) -> (r: Result<Command, UsageError>)
    ensures
        result_view(r) == finish_with(flags.fv(), command@),
{
    match flags.finish_() {
        Ok(()) => Ok(command),
        Err(e) => Err(e),
    }
}

/// Parses the sub-command part of the command line (`tokens[0]` is its name).
fn parse_command_(tokens: &Vec<String>) -> (r: Result<Command, UsageError>)
    requires
        tokens.len() >= 1,
    ensures
        result_view(r) == spec_command(strs(tokens@)),
{
    let ghost toks = strs(tokens@);
    let domain = tokens[0].as_str();
    assert(domain@ == toks[0]);
    if str_eq(domain, "workspace") {
        if tokens.len() < 2 {
            return Err(UsageError::MissingOperand("workspace <动作>"));
        }
        let action = tokens[1].as_str();
        assert(action@ == toks[1]);
        let rest = tail_from(tokens, 2);
        assert(strs(rest@) == toks.subrange(2, toks.len() as int));
        parse_workspace_(action, &rest)
    } else if str_eq(domain, "session") {
        if tokens.len() < 2 {
            return Err(UsageError::MissingOperand("session <动作>"));
        }
        let action = tokens[1].as_str();
        assert(action@ == toks[1]);
        let rest = tail_from(tokens, 2);
        assert(strs(rest@) == toks.subrange(2, toks.len() as int));
        parse_session_(action, &rest)
    } else {
        Err(UsageError::UnknownCommand(domain.to_owned()))
    }
}

/// A `workspace` action.
fn parse_workspace_(action: &str, rest: &Vec<String>) -> (r: Result<Command, UsageError>)
    ensures
        result_view(r) == workspace_action(action@, strs(rest@)),
{
    if str_eq(action, "add") {
        let mut flags = match Flags::parse_(rest) {
            Ok(f) => f,
            Err(e) => return Err(e),
        };
        let name = match flags.require_("name") {
            Ok(v) => v,
            Err(e) => return Err(e),
        };
        let path = match flags.require_("path") {
            Ok(v) => v,
            Err(e) => return Err(e),
        };
        finish_into(&flags, Command::Workspace(WorkspaceCommand::Add { name, path }))
    } else if str_eq(action, "list") {
        let flags = match Flags::parse_(rest) {
            Ok(f) => f,
            Err(e) => return Err(e),
        };
        finish_into(&flags, Command::Workspace(WorkspaceCommand::List))
    } else if str_eq(action, "show") {
        let mut flags = match Flags::parse_(rest) {
            Ok(f) => f,
            Err(e) => return Err(e),
        };
        let workspace_id = match flags.operand_("<工作区标识>") {
            Ok(v) => v,
            Err(e) => return Err(e),
        };
        finish_into(&flags, Command::Workspace(WorkspaceCommand::Show { workspace_id }))
    } else if str_eq(action, "update") {
        let mut flags = match Flags::parse_(rest) {
            Ok(f) => f,
            Err(e) => return Err(e),
        };
        let workspace_id = match flags.operand_("<工作区标识>") {
            Ok(v) => v,
            Err(e) => return Err(e),
        };
        let name = flags.take_("name");
        let path = flags.take_("path");
        match flags.finish_() {
            Ok(()) => {},
            Err(e) => return Err(e),
        }
        if name.is_none() && path.is_none() {
            return Err(UsageError::Invalid("workspace update 至少要给出 --name 或 --path 之一"));
        }
        Ok(Command::Workspace(WorkspaceCommand::Update { workspace_id, name, path }))
    } else if str_eq(action, "remove") {
        let mut flags = match Flags::parse_(rest) {
            Ok(f) => f,
            Err(e) => return Err(e),
        };
        let workspace_id = match flags.operand_("<工作区标识>") {
            Ok(v) => v,
            Err(e) => return Err(e),
        };
        finish_into(&flags, Command::Workspace(WorkspaceCommand::Remove { workspace_id }))
    } else {
        Err(UsageError::UnknownAction("workspace".to_owned(), action.to_owned()))
    }
}

/// A `session` action.
fn parse_session_(action: &str, rest: &Vec<String>) -> (r: Result<Command, UsageError>)
    ensures
        result_view(r) == session_action(action@, strs(rest@)),
{
    if str_eq(action, "add") {
        let mut flags = match Flags::parse_(rest) {
            Ok(f) => f,
            Err(e) => return Err(e),
        };
        let workspace_id = match flags.require_("workspace") {
            Ok(v) => v,
            Err(e) => return Err(e),
        };
        let title = flags.take_("title");
        finish_into(&flags, Command::Session(SessionCommand::Add { workspace_id, title }))
    } else if str_eq(action, "list") {
        let mut flags = match Flags::parse_(rest) {
            Ok(f) => f,
            Err(e) => return Err(e),
        };
        let workspace_id = match flags.require_("workspace") {
            Ok(v) => v,
            Err(e) => return Err(e),
        };
        finish_into(&flags, Command::Session(SessionCommand::List { workspace_id }))
    } else if str_eq(action, "show") {
        let mut flags = match Flags::parse_(rest) {
            Ok(f) => f,
            Err(e) => return Err(e),
        };
        let workspace_id = match flags.require_("workspace") {
            Ok(v) => v,
            Err(e) => return Err(e),
        };
        let session_id = match flags.operand_("<会话标识>") {
            Ok(v) => v,
            Err(e) => return Err(e),
        };
        finish_into(&flags, Command::Session(SessionCommand::Show { workspace_id, session_id }))
    } else if str_eq(action, "update") {
        let mut flags = match Flags::parse_(rest) {
            Ok(f) => f,
            Err(e) => return Err(e),
        };
        let workspace_id = match flags.require_("workspace") {
            Ok(v) => v,
            Err(e) => return Err(e),
        };
        let session_id = match flags.operand_("<会话标识>") {
            Ok(v) => v,
            Err(e) => return Err(e),
        };
        let title = match flags.require_("title") {
            Ok(v) => v,
            Err(e) => return Err(e),
        };
        finish_into(&flags, Command::Session(SessionCommand::Update { workspace_id, session_id, title }))
    } else if str_eq(action, "remove") {
        let mut flags = match Flags::parse_(rest) {
            Ok(f) => f,
            Err(e) => return Err(e),
        };
        let workspace_id = match flags.require_("workspace") {
            Ok(v) => v,
            Err(e) => return Err(e),
        };
        let session_id = match flags.operand_("<会话标识>") {
            Ok(v) => v,
            Err(e) => return Err(e),
        };
        finish_into(&flags, Command::Session(SessionCommand::Remove { workspace_id, session_id }))
    } else {
        Err(UsageError::UnknownAction("session".to_owned(), action.to_owned()))
    }
}

/// Parses the command line `argv` (without the program name).
///
/// `xdg_runtime_dir` is the value of `$XDG_RUNTIME_DIR` (an empty value
/// counts as unset) and `temp_dir` the system temporary directory; they only
/// matter when `--runtime-dir` is not given.
pub fn parse(argv: Vec<String>, xdg_runtime_dir: Option<String>, temp_dir: String) -> (r: Result<Parsed, UsageError>)
    ensures
        result_view(r) == spec_parse(strs(argv@), opt_view(xdg_runtime_dir), temp_dir@),
{
    let ghost toks = strs(argv@);
    let mut index: usize = 0;
    let mut runtime_dir: Option<String> = None;
    let mut storage_dir: Option<String> = None;
    let mut prompt = HandshakePrompt::Silent;

    while index < argv.len()
        invariant
            toks == strs(argv@),
            index <= argv.len(),
            scan_globals(toks, 0, None, None, HandshakePrompt::Silent) == scan_globals(
                toks,
                index as int,
                opt_view(runtime_dir),
                opt_view(storage_dir),
                prompt,
            ),
        ensures
            index <= argv.len(),
            scan_globals(toks, 0, None, None, HandshakePrompt::Silent) == (ScanView::Rest {
                index: index as int,
                runtime_dir: opt_view(runtime_dir),
                storage_dir: opt_view(storage_dir),
                prompt,
            }),
        decreases argv.len() - index,
    {
        let token = argv[index].as_str();
        assert(token@ == toks[index as int]);
        if str_eq(token, "--runtime-dir") {
            match value_at_(&argv, index + 1, "--runtime-dir") {
                Ok(v) => runtime_dir = Some(v),
                Err(e) => return Err(e),
            }
            index = index + 2;
        } else if str_eq(token, "--storage-dir") {
            match value_at_(&argv, index + 1, "--storage-dir") {
                Ok(v) => storage_dir = Some(v),
                Err(e) => {
                    assert(scan_globals(toks, index as int, opt_view(runtime_dir), opt_view(storage_dir), prompt)
                        == ScanView::Fail(UsageErrorView::MissingValue("--storage-dir"@)));
                    return Err(e);
                },
            }
            index = index + 2;
        } else if str_eq(token, "--handshake-prompt") {
            let value = match value_at_(&argv, index + 1, "--handshake-prompt") {
                Ok(v) => v,
                Err(e) => return Err(e),
            };
            match HandshakePrompt::parse_(value.as_str()) {
                Ok(p) => prompt = p,
                Err(e) => return Err(e),
            }
            index = index + 2;
        } else if str_eq(token, "-h") || str_eq(token, "--help") {
            let paths = resolve_paths_(runtime_dir, storage_dir, xdg_runtime_dir, temp_dir);
            return Ok(Parsed { paths, handshake_prompt: prompt, command: Command::Help });
        } else if first_char_is(token, '-') {
            return Err(UsageError::UnknownOption(token.to_owned()));
        } else {
            break;
        }
    }

    let paths = resolve_paths_(runtime_dir, storage_dir, xdg_runtime_dir, temp_dir);
    if index >= argv.len() {
        Ok(Parsed { paths, handshake_prompt: prompt, command: Command::Serve })
    } else {
        let rest = tail_from(&argv, index);
        assert(strs(rest@) == toks.subrange(index as int, toks.len() as int));
        match parse_command_(&rest) {
            Ok(command) => Ok(Parsed { paths, handshake_prompt: prompt, command }),
            Err(e) => Err(e),
        }
    }
}

/// The message of a refused command line.
pub open spec fn usage_error_message(e: UsageError) -> Seq<char> {
    match e {
        UsageError::UnknownOption(o) => "未知选项: "@ + o@ + "（用 --help 查看用法）"@,
        UsageError::InvalidOptionValue { option, value } => "选项 --"@ + option@ + " 的取值不合法: "@
            + crate::store::debug_quoted(value@) + "（可用值见 --help）"@,
        UsageError::MissingValue(o) => "选项 "@ + o@ + " 缺少取值"@,
        UsageError::MissingOperand(w) => "缺少参数: "@ + w@,
        UsageError::MissingOption(o) => "缺少必需选项: --"@ + o@,
        UsageError::UnexpectedArgument(a) => "多余的参数: "@ + a@,
        UsageError::UnknownCommand(c) => "未知子命令: "@ + c@ + "（可用: workspace / session）"@,
        UsageError::UnknownAction(d, a) => "未知动作: "@ + d@ + " "@ + a@,
        UsageError::Invalid(m) => m@,
    }
}

impl UsageError {
    /// The message shown for this refusal.
    pub fn message(&self) -> (r: String)
        ensures
            r@ == usage_error_message(*self),
    {
        match self {
            UsageError::UnknownOption(o) => concat3("未知选项: ", o.as_str(), "（用 --help 查看用法）"),
            UsageError::InvalidOptionValue { option, value } => {
                let quoted = crate::store::debug_quote_(value.as_str());
                let head = concat3("选项 --", option, " 的取值不合法: ");
                concat3(head.as_str(), quoted.as_str(), "（可用值见 --help）")
            },
            UsageError::MissingValue(o) => concat3("选项 ", o.as_str(), " 缺少取值"),
            UsageError::MissingOperand(w) => concat2("缺少参数: ", w),
            UsageError::MissingOption(o) => concat2("缺少必需选项: --", o),
            UsageError::UnexpectedArgument(a) => concat2("多余的参数: ", a.as_str()),
            UsageError::UnknownCommand(c) => concat3("未知子命令: ", c.as_str(), "（可用: workspace / session）"),
            UsageError::UnknownAction(d, a) => {
                let head = concat3("未知动作: ", d.as_str(), " ");
                concat2(head.as_str(), a.as_str())
            },
            UsageError::Invalid(m) => {
                let text: &str = m;
                text.to_owned()
            },
        }
    }
}

/// `-h` or `--help` first wins: whatever follows, the command line asks
/// for the usage text, with the default directories.
pub proof fn law_help_wins(flag: Seq<char>, rest: Seq<Seq<char>>, xdg: Option<Seq<char>>, temp: Seq<char>)
    requires
        flag == "-h"@ || flag == "--help"@,
    ensures
        spec_parse(seq![flag] + rest, xdg, temp) == Ok::<ParsedView, UsageErrorView>(
            ParsedView {
                paths: resolve_paths(None, None, xdg, temp),
                handshake_prompt: HandshakePrompt::Silent,
                command: CommandView::Help,
            },
        ),
{
    reveal_strlit("-h");
    reveal_strlit("--help");
    reveal_strlit("--runtime-dir");
    reveal_strlit("--storage-dir");
    reveal_strlit("--handshake-prompt");
    let toks = seq![flag] + rest;
    assert(toks[0] == flag);
    assert(flag.len() != "--runtime-dir"@.len() && flag.len() != "--handshake-prompt"@.len());
}

/// The options of `workspace add` may come in either order: both orders
/// give the same workspace to create.
pub proof fn law_workspace_add_options_commute(
    name: Seq<char>,
    path: Seq<char>,
    xdg: Option<Seq<char>>,
    temp: Seq<char>,
)
    ensures
        spec_parse(seq!["workspace"@, "add"@, "--name"@, name, "--path"@, path], xdg, temp) == spec_parse(
            seq!["workspace"@, "add"@, "--path"@, path, "--name"@, name],
            xdg,
            temp,
        ),
        spec_parse(seq!["workspace"@, "add"@, "--name"@, name, "--path"@, path], xdg, temp)
            == Ok::<ParsedView, UsageErrorView>(
            ParsedView {
                paths: resolve_paths(None, None, xdg, temp),
                handshake_prompt: HandshakePrompt::Silent,
                command: CommandView::Workspace(WorkspaceCommandView::Add { name, path }),
            },
        ),
{
    reveal_strlit("workspace");
    reveal_strlit("add");
    reveal_strlit("--name");
    reveal_strlit("--path");
    reveal_strlit("name");
    reveal_strlit("path");
    reveal_strlit("-h");
    reveal_strlit("--help");
    reveal_strlit("--runtime-dir");
    reveal_strlit("--storage-dir");
    reveal_strlit("--handshake-prompt");
    let a = seq!["workspace"@, "add"@, "--name"@, name, "--path"@, path];
    let b = seq!["workspace"@, "add"@, "--path"@, path, "--name"@, name];
    assert(a[0].len() != "--runtime-dir"@.len() && a[0].len() != "--handshake-prompt"@.len());
    assert(a[0].len() != "-h"@.len() && a[0].len() != "--help"@.len());
    assert(!starts_with_dash(a[0]));
    assert(a.subrange(0, a.len() as int) =~= a);
    assert(b.subrange(0, b.len() as int) =~= b);
    assert(a.subrange(0, 6).subrange(2, 6) =~= seq!["--name"@, name, "--path"@, path]);
    assert(b.subrange(0, 6).subrange(2, 6) =~= seq!["--path"@, path, "--name"@, name]);
    assert("--name"@.subrange(2, 6) =~= "name"@);
    assert("--path"@.subrange(2, 6) =~= "path"@);
    assert("path"@ != "name"@) by {
        assert("path"@[0] != "name"@[0]);
    }
    let ra = seq!["--name"@, name, "--path"@, path];
    let rb = seq!["--path"@, path, "--name"@, name];
    reveal_with_fuel(scan_flags, 3);
    reveal_with_fuel(first_key_from, 3);
    let fa = FlagsView { values: seq![("name"@, name), ("path"@, path)], operands: Seq::empty() };
    let fb = FlagsView { values: seq![("path"@, path), ("name"@, name)], operands: Seq::empty() };
    assert(flags_of(ra) == Ok::<FlagsView, UsageErrorView>(fa)) by {
        let e = FlagsView { values: Seq::empty(), operands: Seq::empty() };
        let e1 = FlagsView { values: e.values.push(("name"@, name)), operands: e.operands };
        assert(scan_flags(ra, 0, e) == scan_flags(ra, 2, e1));
        assert(e1.values.push(("path"@, path)) =~= fa.values);
    }
    assert(flags_of(rb) == Ok::<FlagsView, UsageErrorView>(fb)) by {
        let e = FlagsView { values: Seq::empty(), operands: Seq::empty() };
        let e1 = FlagsView { values: e.values.push(("path"@, path)), operands: e.operands };
        assert(scan_flags(rb, 0, e) == scan_flags(rb, 2, e1));
        assert(e1.values.push(("name"@, name)) =~= fb.values);
    }
    assert(fa.values.remove(0) =~= seq![("path"@, path)]);
    assert(fb.values.remove(1) =~= seq![("path"@, path)]);
    assert(seq![("path"@, path)].remove(0) =~= Seq::<(Seq<char>, Seq<char>)>::empty());
}


// ── Order of options ──────────────────────────────────────────────────────

/// The values given for `key` from pair `j` on, in the order given.
pub open spec fn kv_from(values: Seq<(Seq<char>, Seq<char>)>, key: Seq<char>, j: int) -> Seq<Seq<char>>
    decreases values.len() - j,
{
    if j < 0 || j >= values.len() {
        Seq::empty()
    } else if values[j].0 == key {
        seq![values[j].1] + kv_from(values, key, j + 1)
    } else {
        kv_from(values, key, j + 1)
    }
}

/// The values given for `key`, in the order given.
pub open spec fn key_values(values: Seq<(Seq<char>, Seq<char>)>, key: Seq<char>) -> Seq<Seq<char>> {
    kv_from(values, key, 0)
}

/// Two scans found the same options: the same operands in the same order,
/// and for every key the same values in the same order. Only how the
/// `--key value` pairs of different keys interleave with each other and
/// with the operands may differ.
pub open spec fn same_flags(f: FlagsView, g: FlagsView) -> bool {
    &&& f.operands == g.operands
    &&& forall|k: Seq<char>| #[trigger] key_values(f.values, k) == key_values(g.values, k)
}

/// Two token lists both scan as options, and give the same options.
pub open spec fn same_options(rest: Seq<Seq<char>>, rest2: Seq<Seq<char>>) -> bool {
    match (flags_of(rest), flags_of(rest2)) {
        (Ok(f), Ok(g)) => same_flags(f, g),
        _ => false,
    }
}

/// Two results agree: both succeed or both fail, and when they succeed
/// they give the same command.
pub open spec fn agree(x: Result<CommandView, UsageErrorView>, y: Result<CommandView, UsageErrorView>) -> bool {
    &&& (x is Ok <==> y is Ok)
    &&& (x is Ok ==> x == y)
}

proof fn lemma_kv_skip(values: Seq<(Seq<char>, Seq<char>)>, k: Seq<char>, j: int, i: int)
    requires
        0 <= j <= i <= values.len(),
        forall|m: int| j <= m < i ==> values[m].0 != k,
    ensures
        kv_from(values, k, j) == kv_from(values, k, i),
    decreases i - j,
{
    if j < i {
        lemma_kv_skip(values, k, j + 1, i);
    }
}

proof fn lemma_first_key(values: Seq<(Seq<char>, Seq<char>)>, k: Seq<char>, j: int)
    requires
        0 <= j <= values.len(),
    ensures
        match first_key_from(values, k, j) {
            None => kv_from(values, k, j).len() == 0,
            Some(i) => j <= i < values.len() && values[i].0 == k && forall|m: int| j <= m < i ==> values[m].0 != k,
        },
    decreases values.len() - j,
{
    if j < values.len() {
        lemma_first_key(values, k, j + 1);
    }
}

proof fn lemma_kv_remove_shift(values: Seq<(Seq<char>, Seq<char>)>, k: Seq<char>, i: int, j: int)
    requires
        0 <= i < values.len(),
        i <= j <= values.len() - 1,
    ensures
        kv_from(values.remove(i), k, j) == kv_from(values, k, j + 1),
    decreases values.len() - j,
{
    if j < values.len() - 1 {
        lemma_kv_remove_shift(values, k, i, j + 1);
        assert(values.remove(i)[j] == values[j + 1]);
    }
}

proof fn lemma_kv_remove_before(values: Seq<(Seq<char>, Seq<char>)>, k: Seq<char>, i: int, j: int)
    requires
        0 <= j <= i < values.len(),
        values[i].0 != k,
    ensures
        kv_from(values.remove(i), k, j) == kv_from(values, k, j),
    decreases i - j,
{
    if j < i {
        lemma_kv_remove_before(values, k, i, j + 1);
        assert(values.remove(i)[j] == values[j]);
    } else {
        lemma_kv_remove_shift(values, k, i, i);
    }
}

/// Taking out `k` gives its first value and leaves the values of every
/// key as they were, but for that first value of `k`.
proof fn lemma_take(f: FlagsView, k: Seq<char>)
    ensures
        spec_take(f, k).0 == (if key_values(f.values, k).len() > 0 {
            Some(key_values(f.values, k)[0])
        } else {
            None
        }),
        spec_take(f, k).1.operands == f.operands,
        forall|k2: Seq<char>| #[trigger] key_values(spec_take(f, k).1.values, k2) == (if k2 == k && key_values(f.values, k).len() > 0 {
            key_values(f.values, k).drop_first()
        } else {
            key_values(f.values, k2)
        }),
{
    let v = f.values;
    lemma_first_key(v, k, 0);
    match first_key_from(v, k, 0) {
        None => {},
        Some(i) => {
            let rem = v.remove(i);
            lemma_kv_skip(v, k, 0, i);
            assert(spec_take(f, k).1.values == rem);
            assert forall|k2: Seq<char>| #[trigger] key_values(rem, k2) == (if k2 == k && key_values(v, k).len() > 0 {
                key_values(v, k).drop_first()
            } else {
                key_values(v, k2)
            }) by {
                if k2 == k {
                    assert forall|m: int| 0 <= m < i implies rem[m].0 != k by {
                        assert(rem[m] == v[m]);
                    }
                    lemma_kv_skip(rem, k, 0, i);
                    lemma_kv_remove_shift(v, k, i, i);
                    assert((seq![v[i].1] + kv_from(v, k, i + 1)).drop_first() =~= kv_from(v, k, i + 1));
                } else {
                    lemma_kv_remove_before(v, k2, i, 0);
                }
            }
        },
    }
}

proof fn lemma_take_same(f: FlagsView, g: FlagsView, k: Seq<char>)
    requires
        same_flags(f, g),
    ensures
        spec_take(f, k).0 == spec_take(g, k).0,
        same_flags(spec_take(f, k).1, spec_take(g, k).1),
{
    lemma_take(f, k);
    lemma_take(g, k);
    assert(key_values(f.values, k) == key_values(g.values, k));
    assert forall|k2: Seq<char>| #[trigger] key_values(spec_take(f, k).1.values, k2) == key_values(
        spec_take(g, k).1.values,
        k2,
    ) by {
        assert(key_values(f.values, k2) == key_values(g.values, k2));
    }
}

proof fn lemma_require_same(f: FlagsView, g: FlagsView, k: Seq<char>)
    requires
        same_flags(f, g),
    ensures
        spec_require(f, k) is Ok <==> spec_require(g, k) is Ok,
        spec_require(f, k) is Err ==> spec_require(f, k) == spec_require(g, k),
        spec_require(f, k) is Ok ==> spec_require(f, k)->Ok_0.0 == spec_require(g, k)->Ok_0.0 && same_flags(
            spec_require(f, k)->Ok_0.1,
            spec_require(g, k)->Ok_0.1,
        ),
{
    lemma_take_same(f, g, k);
}

proof fn lemma_operand_same(f: FlagsView, g: FlagsView, what: Seq<char>)
    requires
        same_flags(f, g),
    ensures
        spec_operand(f, what) is Ok <==> spec_operand(g, what) is Ok,
        spec_operand(f, what) is Err ==> spec_operand(f, what) == spec_operand(g, what),
        spec_operand(f, what) is Ok ==> spec_operand(f, what)->Ok_0.0 == spec_operand(g, what)->Ok_0.0 && same_flags(
            spec_operand(f, what)->Ok_0.1,
            spec_operand(g, what)->Ok_0.1,
        ),
{
}

proof fn lemma_finish_same(f: FlagsView, g: FlagsView)
    requires
        same_flags(f, g),
    ensures
        spec_finish(f) is None <==> spec_finish(g) is None,
{
    if f.values.len() > 0 {
        assert(key_values(f.values, f.values[0].0).len() > 0);
        assert(key_values(g.values, f.values[0].0).len() > 0);
    }
    if g.values.len() > 0 {
        assert(key_values(g.values, g.values[0].0).len() > 0);
        assert(key_values(f.values, g.values[0].0).len() > 0);
    }
}


/// Two scans alike: both refused, or both accepted with the same options.
pub open spec fn results_alike(r1: Result<FlagsView, UsageErrorView>, r2: Result<FlagsView, UsageErrorView>) -> bool {
    match (r1, r2) {
        (Err(_), Err(_)) => true,
        (Ok(f), Ok(g)) => same_flags(f, g),
        _ => false,
    }
}

/// Two token lists scan alike.
pub open spec fn scan_alike(rest: Seq<Seq<char>>, rest2: Seq<Seq<char>>) -> bool {
    results_alike(flags_of(rest), flags_of(rest2))
}

/// The key a long flag names: the token without its leading `--`.
pub open spec fn flag_key(t: Seq<char>) -> Seq<char> {
    t.subrange(2, t.len() as int)
}

/// A `--key value` pair.
pub open spec fn is_pair(u: Seq<Seq<char>>) -> bool {
    u.len() == 2 && is_long_flag(u[0])
}

/// A single token that is an operand.
pub open spec fn is_operand(u: Seq<Seq<char>>) -> bool {
    u.len() == 1 && !is_long_flag(u[0]) && !(starts_with_dash(u[0]) && u[0] != seq!['-'])
}

/// A whole unit of the option tokens: a `--key value` pair, or one token
/// that is not a long flag (an operand, or an unknown option).
pub open spec fn is_unit(u: Seq<Seq<char>>) -> bool {
    is_pair(u) || (u.len() == 1 && !is_long_flag(u[0]))
}

/// From position `j` on, the tokens of `p` fall into whole units.
pub open spec fn aligned_from(p: Seq<Seq<char>>, j: int) -> bool
    decreases p.len() - j,
{
    if j < 0 || j > p.len() {
        false
    } else if j == p.len() {
        true
    } else if is_long_flag(p[j]) {
        if j + 2 > p.len() {
            false
        } else {
            aligned_from(p, j + 2)
        }
    } else {
        aligned_from(p, j + 1)
    }
}

/// After the whole units `p`, unit `u1` may trade places with the unit
/// `u2` that follows it: not two operands, and not two values of one key.
pub open spec fn swappable(p: Seq<Seq<char>>, u1: Seq<Seq<char>>, u2: Seq<Seq<char>>) -> bool {
    &&& aligned_from(p, 0)
    &&& is_unit(u1)
    &&& is_unit(u2)
    &&& !(is_operand(u1) && is_operand(u2))
    &&& !(is_pair(u1) && is_pair(u2) && flag_key(u1[0]) == flag_key(u2[0]))
}

/// The token lists before and after `u1` and `u2` trade places.
pub open spec fn swap_of(p: Seq<Seq<char>>, u1: Seq<Seq<char>>, u2: Seq<Seq<char>>, s: Seq<Seq<char>>) -> (
    Seq<Seq<char>>,
    Seq<Seq<char>>,
) {
    (p + u1 + u2 + s, p + u2 + u1 + s)
}

/// `b` is `a` with two neighbouring units that may trade places traded.
pub open spec fn one_swap(a: Seq<Seq<char>>, b: Seq<Seq<char>>) -> bool {
    exists|p: Seq<Seq<char>>, u1: Seq<Seq<char>>, u2: Seq<Seq<char>>, s: Seq<Seq<char>>|
        swappable(p, u1, u2) && #[trigger] swap_of(p, u1, u2, s) == (a, b)
}

/// Each list of the chain is the one before it with one trade.
pub open spec fn swap_chain(chain: Seq<Seq<Seq<char>>>) -> bool {
    forall|i: int| 0 <= i < chain.len() - 1 ==> one_swap(#[trigger] chain[i], chain[i + 1])
}

/// `b` is a rearrangement of `a`: trades of neighbouring units lead from
/// one to the other. Every `--key value` pair stays whole, the operands keep
/// their order, and so do the values of each key.
pub open spec fn rearranged(a: Seq<Seq<char>>, b: Seq<Seq<char>>) -> bool {
    exists|chain: Seq<Seq<Seq<char>>>|
        #[trigger] swap_chain(chain) && chain.len() > 0 && chain[0] == a && chain[chain.len() - 1] == b
}

/// What scanning one unit does to what was found so far.
pub open spec fn unit_scan(u: Seq<Seq<char>>, acc: FlagsView) -> Result<FlagsView, UsageErrorView> {
    if is_pair(u) {
        Ok(FlagsView { values: acc.values.push((flag_key(u[0]), u[1])), operands: acc.operands })
    } else if is_operand(u) {
        Ok(FlagsView { values: acc.values, operands: acc.operands.push(u[0]) })
    } else {
        Err(UsageErrorView::UnknownOption(u[0]))
    }
}

proof fn lemma_kv_push(v: Seq<(Seq<char>, Seq<char>)>, x: (Seq<char>, Seq<char>), k: Seq<char>, j: int)
    requires
        0 <= j <= v.len(),
    ensures
        kv_from(v.push(x), k, j) == kv_from(v, k, j) + (if x.0 == k { seq![x.1] } else { Seq::<Seq<char>>::empty() }),
    decreases v.len() - j,
{
    let tail = if x.0 == k { seq![x.1] } else { Seq::<Seq<char>>::empty() };
    if j < v.len() {
        lemma_kv_push(v, x, k, j + 1);
        assert(v.push(x)[j] == v[j]);
        assert(seq![v[j].1] + (kv_from(v, k, j + 1) + tail) =~= (seq![v[j].1] + kv_from(v, k, j + 1)) + tail);
    } else {
        assert(v.push(x)[j] == x);
        assert(kv_from(v.push(x), k, j + 1) == Seq::<Seq<char>>::empty());
        assert(Seq::<Seq<char>>::empty() + tail =~= tail);
        assert(seq![x.1] + Seq::<Seq<char>>::empty() =~= seq![x.1]);
    }
}

proof fn lemma_push_same(f: FlagsView, g: FlagsView, x: (Seq<char>, Seq<char>))
    requires
        same_flags(f, g),
    ensures
        same_flags(
            FlagsView { values: f.values.push(x), operands: f.operands },
            FlagsView { values: g.values.push(x), operands: g.operands },
        ),
{
    assert forall|k: Seq<char>| #[trigger] key_values(f.values.push(x), k) == key_values(g.values.push(x), k) by {
        lemma_kv_push(f.values, x, k, 0);
        lemma_kv_push(g.values, x, k, 0);
        assert(key_values(f.values, k) == key_values(g.values, k));
    }
}

/// Scanning the same tokens on top of the same options finds the same
/// options, or the same refusal.
proof fn lemma_scan_same(x: Seq<Seq<char>>, i: int, a: FlagsView, b: FlagsView)
    requires
        same_flags(a, b),
        0 <= i,
    ensures
        results_alike(scan_flags(x, i, a), scan_flags(x, i, b)),
    decreases x.len() - i,
{
    if i < x.len() {
        let t = x[i];
        if is_long_flag(t) {
            if i + 1 < x.len() {
                let p = (t.subrange(2, t.len() as int), x[i + 1]);
                lemma_push_same(a, b, p);
                lemma_scan_same(
                    x,
                    i + 2,
                    FlagsView { values: a.values.push(p), operands: a.operands },
                    FlagsView { values: b.values.push(p), operands: b.operands },
                );
            }
        } else if starts_with_dash(t) && t != seq!['-'] {
        } else {
            let a1 = FlagsView { values: a.values, operands: a.operands.push(t) };
            let b1 = FlagsView { values: b.values, operands: b.operands.push(t) };
            assert(same_flags(a1, b1));
            lemma_scan_same(x, i + 1, a1, b1);
        }
    }
}

proof fn lemma_scan_shift(pre: Seq<Seq<char>>, x: Seq<Seq<char>>, i: int, acc: FlagsView)
    requires
        0 <= i,
    ensures
        scan_flags(pre + x, pre.len() + i, acc) == scan_flags(x, i, acc),
    decreases x.len() - i,
{
    let t = pre + x;
    let n = pre.len() as int;
    if i < x.len() {
        assert(t[n + i] == x[i]);
        let tok = x[i];
        if is_long_flag(tok) {
            if i + 1 < x.len() {
                assert(t[n + i + 1] == x[i + 1]);
                let p = (tok.subrange(2, tok.len() as int), x[i + 1]);
                lemma_scan_shift(pre, x, i + 2, FlagsView { values: acc.values.push(p), operands: acc.operands });
            }
        } else if starts_with_dash(tok) && tok != seq!['-'] {
        } else {
            lemma_scan_shift(pre, x, i + 1, FlagsView { values: acc.values, operands: acc.operands.push(tok) });
        }
    }
}

/// Scanning whole units `p` and then `y` is scanning `p`, then `y` on top.
proof fn lemma_scan_prefix(p: Seq<Seq<char>>, y: Seq<Seq<char>>, j: int, acc: FlagsView)
    requires
        aligned_from(p, j),
    ensures
        scan_flags(p + y, j, acc) == match scan_flags(p, j, acc) {
            Err(e) => Err(e),
            Ok(a) => scan_flags(y, 0, a),
        },
    decreases p.len() - j,
{
    let t = p + y;
    if j == p.len() {
        lemma_scan_shift(p, y, 0, acc);
    } else {
        assert(t[j] == p[j]);
        let tok = p[j];
        if is_long_flag(tok) {
            assert(t[j + 1] == p[j + 1]);
            let q = (tok.subrange(2, tok.len() as int), p[j + 1]);
            lemma_scan_prefix(p, y, j + 2, FlagsView { values: acc.values.push(q), operands: acc.operands });
        } else if starts_with_dash(tok) && tok != seq!['-'] {
        } else {
            lemma_scan_prefix(p, y, j + 1, FlagsView { values: acc.values, operands: acc.operands.push(tok) });
        }
    }
}

proof fn lemma_unit(u: Seq<Seq<char>>, y: Seq<Seq<char>>, acc: FlagsView)
    requires
        is_unit(u),
    ensures
        aligned_from(u, 0),
        scan_flags(u + y, 0, acc) == match unit_scan(u, acc) {
            Err(e) => Err(e),
            Ok(a) => scan_flags(y, 0, a),
        },
{
    reveal_with_fuel(aligned_from, 3);
    reveal_with_fuel(scan_flags, 3);
    lemma_scan_prefix(u, y, 0, acc);
}

/// Two neighbouring units that may trade places scan alike in either order.
proof fn lemma_two_units(u1: Seq<Seq<char>>, u2: Seq<Seq<char>>, s: Seq<Seq<char>>, a: FlagsView)
    requires
        is_unit(u1),
        is_unit(u2),
        !(is_operand(u1) && is_operand(u2)),
        !(is_pair(u1) && is_pair(u2) && flag_key(u1[0]) == flag_key(u2[0])),
    ensures
        results_alike(scan_flags(u1 + (u2 + s), 0, a), scan_flags(u2 + (u1 + s), 0, a)),
{
    lemma_unit(u1, u2 + s, a);
    lemma_unit(u2, u1 + s, a);
    match (unit_scan(u1, a), unit_scan(u2, a)) {
        (Ok(a1), Ok(a2)) => {
            lemma_unit(u2, s, a1);
            lemma_unit(u1, s, a2);
            let a12 = unit_scan(u2, a1)->Ok_0;
            let a21 = unit_scan(u1, a2)->Ok_0;
            if is_pair(u1) && is_pair(u2) {
                let x = (flag_key(u1[0]), u1[1]);
                let y = (flag_key(u2[0]), u2[1]);
                assert forall|k: Seq<char>| #[trigger] key_values(a12.values, k) == key_values(a21.values, k) by {
                    lemma_kv_push(a.values, x, k, 0);
                    lemma_kv_push(a.values.push(x), y, k, 0);
                    lemma_kv_push(a.values, y, k, 0);
                    lemma_kv_push(a.values.push(y), x, k, 0);
                    let e = Seq::<Seq<char>>::empty();
                    let kv = key_values(a.values, k);
                    assert(kv + e =~= kv);
                }
                assert(same_flags(a12, a21));
            } else {
                assert(a12.values =~= a21.values);
                assert(a12.operands =~= a21.operands);
                assert(same_flags(a12, a21));
            }
            lemma_scan_same(s, 0, a12, a21);
        },
        (Ok(a1), Err(_)) => {
            lemma_unit(u2, s, a1);
        },
        (Err(_), Ok(a2)) => {
            lemma_unit(u1, s, a2);
        },
        (Err(_), Err(_)) => {},
    }
}

proof fn lemma_one_swap(x: Seq<Seq<char>>, y: Seq<Seq<char>>)
    requires
        one_swap(x, y),
    ensures
        scan_alike(x, y),
{
    let (p, u1, u2, s) = choose|p: Seq<Seq<char>>, u1: Seq<Seq<char>>, u2: Seq<Seq<char>>, s: Seq<Seq<char>>|
        swappable(p, u1, u2) && #[trigger] swap_of(p, u1, u2, s) == (x, y);
    assert(x =~= p + (u1 + (u2 + s)));
    assert(y =~= p + (u2 + (u1 + s)));
    let e = FlagsView { values: Seq::empty(), operands: Seq::empty() };
    lemma_scan_prefix(p, u1 + (u2 + s), 0, e);
    lemma_scan_prefix(p, u2 + (u1 + s), 0, e);
    if scan_flags(p, 0, e) is Ok {
        lemma_two_units(u1, u2, s, scan_flags(p, 0, e)->Ok_0);
    }
}

proof fn lemma_alike_trans(x: Seq<Seq<char>>, y: Seq<Seq<char>>, z: Seq<Seq<char>>)
    requires
        scan_alike(x, y),
        scan_alike(y, z),
    ensures
        scan_alike(x, z),
{
    if flags_of(x) is Ok {
        let f = flags_of(x)->Ok_0;
        let g = flags_of(y)->Ok_0;
        let h = flags_of(z)->Ok_0;
        assert forall|k: Seq<char>| #[trigger] key_values(f.values, k) == key_values(h.values, k) by {
            assert(key_values(f.values, k) == key_values(g.values, k));
            assert(key_values(g.values, k) == key_values(h.values, k));
        }
    }
}

proof fn lemma_chain(chain: Seq<Seq<Seq<char>>>, i: int)
    requires
        swap_chain(chain),
        0 <= i < chain.len(),
    ensures
        scan_alike(chain[0], chain[i]),
    decreases i,
{
    if i == 0 {
        let f = flags_of(chain[0]);
        if f is Ok {
            assert(same_flags(f->Ok_0, f->Ok_0));
        }
    } else {
        lemma_chain(chain, i - 1);
        assert(one_swap(chain[i - 1], chain[i]));
        lemma_one_swap(chain[i - 1], chain[i]);
        lemma_alike_trans(chain[0], chain[i - 1], chain[i]);
    }
}

/// A rearrangement scans alike.
proof fn lemma_rearranged(a: Seq<Seq<char>>, b: Seq<Seq<char>>)
    requires
        rearranged(a, b),
    ensures
        scan_alike(a, b),
{
    let chain = choose|chain: Seq<Seq<Seq<char>>>|
        #[trigger] swap_chain(chain) && chain.len() > 0 && chain[0] == a && chain[chain.len() - 1] == b;
    lemma_chain(chain, chain.len() - 1);
}

proof fn lemma_workspace_same(a: Seq<char>, rest: Seq<Seq<char>>, rest2: Seq<Seq<char>>)
    requires
        scan_alike(rest, rest2),
    ensures
        agree(workspace_action(a, rest), workspace_action(a, rest2)),
{
    if flags_of(rest) is Ok {
        let f = flags_of(rest)->Ok_0;
        let g = flags_of(rest2)->Ok_0;
        let w = "<工作区标识>"@;
        if a == "add"@ {
            lemma_require_same(f, g, "name"@);
            if spec_require(f, "name"@) is Ok {
                let f1 = spec_require(f, "name"@)->Ok_0.1;
                let g1 = spec_require(g, "name"@)->Ok_0.1;
                lemma_require_same(f1, g1, "path"@);
                if spec_require(f1, "path"@) is Ok {
                    lemma_finish_same(spec_require(f1, "path"@)->Ok_0.1, spec_require(g1, "path"@)->Ok_0.1);
                }
            }
        } else if a == "list"@ {
            lemma_finish_same(f, g);
        } else if a == "show"@ || a == "remove"@ || a == "update"@ {
            lemma_operand_same(f, g, w);
            if spec_operand(f, w) is Ok {
                let f1 = spec_operand(f, w)->Ok_0.1;
                let g1 = spec_operand(g, w)->Ok_0.1;
                lemma_finish_same(f1, g1);
                lemma_take_same(f1, g1, "name"@);
                let f2 = spec_take(f1, "name"@).1;
                let g2 = spec_take(g1, "name"@).1;
                lemma_take_same(f2, g2, "path"@);
                lemma_finish_same(spec_take(f2, "path"@).1, spec_take(g2, "path"@).1);
            }
        }
    }
}

proof fn lemma_session_same(a: Seq<char>, rest: Seq<Seq<char>>, rest2: Seq<Seq<char>>)
    requires
        scan_alike(rest, rest2),
    ensures
        agree(session_action(a, rest), session_action(a, rest2)),
{
    if flags_of(rest) is Ok {
        let f = flags_of(rest)->Ok_0;
        let g = flags_of(rest2)->Ok_0;
        let w = "<会话标识>"@;
        if a == "add"@ || a == "list"@ || a == "show"@ || a == "update"@ || a == "remove"@ {
            lemma_require_same(f, g, "workspace"@);
            if spec_require(f, "workspace"@) is Ok {
                let f1 = spec_require(f, "workspace"@)->Ok_0.1;
                let g1 = spec_require(g, "workspace"@)->Ok_0.1;
                lemma_finish_same(f1, g1);
                lemma_take_same(f1, g1, "title"@);
                lemma_finish_same(spec_take(f1, "title"@).1, spec_take(g1, "title"@).1);
                lemma_operand_same(f1, g1, w);
                if spec_operand(f1, w) is Ok {
                    let f2 = spec_operand(f1, w)->Ok_0.1;
                    let g2 = spec_operand(g1, w)->Ok_0.1;
                    lemma_finish_same(f2, g2);
                    lemma_require_same(f2, g2, "title"@);
                    if spec_require(f2, "title"@) is Ok {
                        lemma_finish_same(spec_require(f2, "title"@)->Ok_0.1, spec_require(g2, "title"@)->Ok_0.1);
                    }
                }
            }
        }
    }
}

/// Token lists that scan alike give commands that agree.
proof fn lemma_command_alike(
    domain: Seq<char>,
    action: Seq<char>,
    rest: Seq<Seq<char>>,
    rest2: Seq<Seq<char>>,
    xdg: Option<Seq<char>>,
    temp: Seq<char>,
)
    requires
        scan_alike(rest, rest2),
    ensures
        spec_command(seq![domain, action] + rest) is Ok <==> spec_command(seq![domain, action] + rest2) is Ok,
        spec_command(seq![domain, action] + rest) is Ok ==> spec_command(seq![domain, action] + rest)
            == spec_command(seq![domain, action] + rest2),
        domain == "workspace"@ || domain == "session"@ ==> {
            &&& spec_parse(seq![domain, action] + rest, xdg, temp) is Ok <==> spec_parse(
                seq![domain, action] + rest2,
                xdg,
                temp,
            ) is Ok
            &&& spec_parse(seq![domain, action] + rest, xdg, temp) is Ok ==> spec_parse(
                seq![domain, action] + rest,
                xdg,
                temp,
            ) == spec_parse(seq![domain, action] + rest2, xdg, temp)
        },
{
    let a = seq![domain, action] + rest;
    let b = seq![domain, action] + rest2;
    assert(a[0] == domain && a[1] == action && b[0] == domain && b[1] == action);
    assert(a.subrange(2, a.len() as int) =~= rest);
    assert(b.subrange(2, b.len() as int) =~= rest2);
    if domain == "workspace"@ {
        lemma_workspace_same(action, rest, rest2);
    } else if domain == "session"@ {
        lemma_session_same(action, rest, rest2);
    }
    if domain == "workspace"@ || domain == "session"@ {
        reveal_strlit("workspace");
        reveal_strlit("session");
        reveal_strlit("-h");
        reveal_strlit("--help");
        reveal_strlit("--runtime-dir");
        reveal_strlit("--storage-dir");
        reveal_strlit("--handshake-prompt");
        assert(domain.len() != "--runtime-dir"@.len() && domain.len() != "--handshake-prompt"@.len());
        assert(domain.len() != "-h"@.len() && domain.len() != "--help"@.len());
        assert(domain.len() != "--storage-dir"@.len() || domain != "--storage-dir"@);
        assert(!starts_with_dash(domain));
        assert(a.subrange(0, a.len() as int) =~= a);
        assert(b.subrange(0, b.len() as int) =~= b);
    }
}

/// The options of a sub-command may come in any order: when the tokens
/// after `<domain> <action>` are rearranged, every `--key value` pair kept
/// whole and the operands, and the values of each key, kept in their order,
/// the command line is accepted exactly when it was before, and then gives
/// the same command. This holds also of token lists that are refused: a
/// rearranged list is refused too. (Which unknown option or stray operand a
/// refusal names may change with the order.)
pub proof fn law_option_order_does_not_matter(
    domain: Seq<char>,
    action: Seq<char>,
    rest: Seq<Seq<char>>,
    rest2: Seq<Seq<char>>,
    xdg: Option<Seq<char>>,
    temp: Seq<char>,
)
    requires
        rearranged(rest, rest2),
    ensures
        spec_command(seq![domain, action] + rest) is Ok <==> spec_command(seq![domain, action] + rest2) is Ok,
        spec_command(seq![domain, action] + rest) is Ok ==> spec_command(seq![domain, action] + rest)
            == spec_command(seq![domain, action] + rest2),
        domain == "workspace"@ || domain == "session"@ ==> {
            &&& spec_parse(seq![domain, action] + rest, xdg, temp) is Ok <==> spec_parse(
                seq![domain, action] + rest2,
                xdg,
                temp,
            ) is Ok
            &&& spec_parse(seq![domain, action] + rest, xdg, temp) is Ok ==> spec_parse(
                seq![domain, action] + rest,
                xdg,
                temp,
            ) == spec_parse(seq![domain, action] + rest2, xdg, temp)
        },
{
    lemma_rearranged(rest, rest2);
    lemma_command_alike(domain, action, rest, rest2, xdg, temp);
}

/// More generally, two option lists that scan as the same options (the same
/// operands in order, the same values of each key in order) give commands
/// that agree.
pub proof fn law_same_options_same_command(
    domain: Seq<char>,
    action: Seq<char>,
    rest: Seq<Seq<char>>,
    rest2: Seq<Seq<char>>,
    xdg: Option<Seq<char>>,
    temp: Seq<char>,
)
    requires
        same_options(rest, rest2),
    ensures
        spec_command(seq![domain, action] + rest) is Ok <==> spec_command(seq![domain, action] + rest2) is Ok,
        spec_command(seq![domain, action] + rest) is Ok ==> spec_command(seq![domain, action] + rest)
            == spec_command(seq![domain, action] + rest2),
        domain == "workspace"@ || domain == "session"@ ==> {
            &&& spec_parse(seq![domain, action] + rest, xdg, temp) is Ok <==> spec_parse(
                seq![domain, action] + rest2,
                xdg,
                temp,
            ) is Ok
            &&& spec_parse(seq![domain, action] + rest, xdg, temp) is Ok ==> spec_parse(
                seq![domain, action] + rest,
                xdg,
                temp,
            ) == spec_parse(seq![domain, action] + rest2, xdg, temp)
        },
{
    lemma_command_alike(domain, action, rest, rest2, xdg, temp);
}


// ── Where a command's values come from ────────────────────────────────────

/// The values a command received for `key`: none, or the one given.
pub open spec fn given(o: Option<Seq<char>>) -> Seq<Seq<char>> {
    match o {
        Some(v) => seq![v],
        None => Seq::empty(),
    }
}

proof fn lemma_nothing_left(f: FlagsView, k: Seq<char>)
    requires
        f.values.len() == 0,
    ensures
        key_values(f.values, k) == Seq::<Seq<char>>::empty(),
{
}

proof fn lemma_keys_differ()
    ensures
        "workspace"@ != "title"@,
        "name"@ != "path"@,
{
    reveal_strlit("workspace");
    reveal_strlit("title");
    reveal_strlit("name");
    reveal_strlit("path");
    assert("name"@[0] != "path"@[0]);
    assert("workspace"@.len() != "title"@.len());
}

proof fn lemma_update_is_not_earlier()
    ensures
        "update"@ != "add"@ && "update"@ != "list"@ && "update"@ != "show"@,
{
    reveal_strlit("add");
    reveal_strlit("list");
    reveal_strlit("show");
    reveal_strlit("update");
    assert("update"@.len() != "add"@.len());
    assert("update"@.len() != "list"@.len());
    assert("update"@.len() != "show"@.len());
}

/// `session add` takes its values from its options: when it is accepted,
/// `--workspace` was given exactly once and the command holds that value,
/// and its title is the value given with `--title` (given at most once),
/// none when `--title` was not given.
pub proof fn law_session_add_takes_its_options(rest: Seq<Seq<char>>)
    ensures
        session_action("add"@, rest) matches Ok(CommandView::Session(SessionCommandView::Add { workspace_id, title }))
            ==> (flags_of(rest) matches Ok(f) && key_values(f.values, "workspace"@) == seq![workspace_id]
            && key_values(f.values, "title"@) == given(title)),
{
    if session_action("add"@, rest) is Ok {
        lemma_keys_differ();
        let f = flags_of(rest)->Ok_0;
        lemma_take(f, "workspace"@);
        let f1 = spec_take(f, "workspace"@).1;
        lemma_take(f1, "title"@);
        let f2 = spec_take(f1, "title"@).1;
        lemma_nothing_left(f2, "workspace"@);
        lemma_nothing_left(f2, "title"@);
        let kw = key_values(f.values, "workspace"@);
        assert(kw.drop_first().len() == 0);
        assert(kw =~= seq![kw[0]]);
        let kt = key_values(f1.values, "title"@);
        if kt.len() > 0 {
            assert(kt =~= seq![kt[0]]);
        }
    }
}

/// `session update` takes its values from its options: when it is
/// accepted, `--workspace` and `--title` were each given exactly once, and
/// the command holds those values.
pub proof fn law_session_update_takes_its_options(rest: Seq<Seq<char>>)
    ensures
        session_action("update"@, rest) matches Ok(
            CommandView::Session(SessionCommandView::Update { workspace_id, session_id, title }),
        ) ==> (flags_of(rest) matches Ok(f) && key_values(f.values, "workspace"@) == seq![workspace_id]
            && key_values(f.values, "title"@) == seq![title] && f.operands == seq![session_id]),
{
    if session_action("update"@, rest) is Ok {
        lemma_keys_differ();
        lemma_update_is_not_earlier();
        let f = flags_of(rest)->Ok_0;
        lemma_take(f, "workspace"@);
        let f1 = spec_take(f, "workspace"@).1;
        let f2 = spec_operand(f1, "<会话标识>"@)->Ok_0.1;
        lemma_take(f2, "title"@);
        let f3 = spec_take(f2, "title"@).1;
        lemma_nothing_left(f3, "workspace"@);
        lemma_nothing_left(f3, "title"@);
        let kw = key_values(f.values, "workspace"@);
        assert(kw =~= seq![kw[0]]);
        let kt = key_values(f2.values, "title"@);
        assert(kt =~= seq![kt[0]]);
        assert(f.operands =~= seq![f.operands[0]]);
    }
}

/// `workspace add` takes its values from its options: when it is accepted,
/// `--name` and `--path` were each given exactly once, and the command
/// holds those values, each in its own place.
pub proof fn law_workspace_add_takes_its_options(rest: Seq<Seq<char>>)
    ensures
        workspace_action("add"@, rest) matches Ok(CommandView::Workspace(WorkspaceCommandView::Add { name, path }))
            ==> (flags_of(rest) matches Ok(f) && key_values(f.values, "name"@) == seq![name]
            && key_values(f.values, "path"@) == seq![path]),
{
    if workspace_action("add"@, rest) is Ok {
        lemma_keys_differ();
        let f = flags_of(rest)->Ok_0;
        lemma_take(f, "name"@);
        let f1 = spec_take(f, "name"@).1;
        lemma_take(f1, "path"@);
        let f2 = spec_take(f1, "path"@).1;
        lemma_nothing_left(f2, "name"@);
        lemma_nothing_left(f2, "path"@);
        let kn = key_values(f.values, "name"@);
        assert(kn =~= seq![kn[0]]);
        let kp = key_values(f1.values, "path"@);
        assert(kp =~= seq![kp[0]]);
    }
}

/// `workspace update` takes its values from its options: when it is
/// accepted, the new name is the value given with `--name` and the new path
/// the value given with `--path` (each given at most once, at least one of
/// them given), none for an option not given.
pub proof fn law_workspace_update_takes_its_options(rest: Seq<Seq<char>>)
    ensures
        workspace_action("update"@, rest) matches Ok(
            CommandView::Workspace(WorkspaceCommandView::Update { workspace_id, name, path }),
        ) ==> (flags_of(rest) matches Ok(f) && key_values(f.values, "name"@) == given(name)
            && key_values(f.values, "path"@) == given(path) && (name is Some || path is Some)
            && f.operands == seq![workspace_id]),
{
    if workspace_action("update"@, rest) is Ok {
        lemma_keys_differ();
        lemma_update_is_not_earlier();
        let f = flags_of(rest)->Ok_0;
        let f1 = spec_operand(f, "<工作区标识>"@)->Ok_0.1;
        lemma_take(f1, "name"@);
        let f2 = spec_take(f1, "name"@).1;
        lemma_take(f2, "path"@);
        let f3 = spec_take(f2, "path"@).1;
        lemma_nothing_left(f3, "name"@);
        lemma_nothing_left(f3, "path"@);
        let kn = key_values(f1.values, "name"@);
        if kn.len() > 0 {
            assert(kn =~= seq![kn[0]]);
        }
        let kp = key_values(f2.values, "path"@);
        if kp.len() > 0 {
            assert(kp =~= seq![kp[0]]);
        }
        assert(f.operands =~= seq![f.operands[0]]);
    }
}

} // verus!
