//! The client side of a call: which reply each request expects, and what a
//! reply of another kind means.
use vstd::prelude::*;
use crate::ids::RequestId;
use crate::protocol::{Reply, RpcError, SessionDetail, SessionList, SessionSummary, Workspace, WorkspaceList};
use crate::text::{concat2, decimal, decimal_string};

verus! {

/// A reply that does not answer the request made: the two sides do not
/// agree on the protocol.
#[derive(Debug, Clone, Copy, PartialEq, Eq)]
pub struct UnexpectedReply {
    /// The kind of reply the request expects.
    pub expected: &'static str,
    /// The kind of reply that came.
    pub got: &'static str,
}

/// The name of a reply's kind.
pub open spec fn kind_of(reply: Reply) -> Seq<char> {
    match reply {
        Reply::Hello(_) => "Hello"@,
        Reply::Ack => "Ack"@,
        Reply::ServiceList(_) => "ServiceList"@,
        Reply::ServiceUpdated(_) => "ServiceUpdated"@,
        Reply::WorkspaceList(_) => "WorkspaceList"@,
        Reply::WorkspaceAdded { .. } => "WorkspaceAdded"@,
        Reply::SessionList(_) => "SessionList"@,
        Reply::SessionCreated { .. } => "SessionCreated"@,
        Reply::SessionDetail(_) => "SessionDetail"@,
        Reply::DirectoryListing(_) => "DirectoryListing"@,
        Reply::Error(_) => "Error"@,
    }
}

/// The name of a reply's kind.
pub fn reply_kind_(reply: &Reply) -> (r: &'static str)
    ensures
        r@ == kind_of(*reply),
{
    match reply {
        Reply::Hello(_) => "Hello",
        Reply::Ack => "Ack",
        Reply::ServiceList(_) => "ServiceList",
        Reply::ServiceUpdated(_) => "ServiceUpdated",
        Reply::WorkspaceList(_) => "WorkspaceList",
        Reply::WorkspaceAdded { .. } => "WorkspaceAdded",
        Reply::SessionList(_) => "SessionList",
        Reply::SessionCreated { .. } => "SessionCreated",
        Reply::SessionDetail(_) => "SessionDetail",
        Reply::DirectoryListing(_) => "DirectoryListing",
        Reply::Error(_) => "Error",
    }
}

/// The failure for a reply of the wrong kind.
pub fn unexpected_(expected: &'static str, got: &Reply) -> (r: UnexpectedReply)
    ensures
        r.expected == expected,
        r.got@ == kind_of(*got),
{
    UnexpectedReply { expected, got: reply_kind_(got) }
}

/// A reply that should list the workspaces.
pub fn expect_workspace_list(reply: Reply) -> (r: Result<WorkspaceList, RpcError<UnexpectedReply>>)
    ensures
        match reply {
            Reply::WorkspaceList(l) => r == Ok::<WorkspaceList, RpcError<UnexpectedReply>>(l),
            Reply::Error(e) => r == Err::<WorkspaceList, RpcError<UnexpectedReply>>(RpcError::Business(e)),
            other => r matches Err(RpcError::Transport(u)) && u.expected@ == "WorkspaceList"@ && u.got@ == kind_of(
                other,
            ),
        },
{
    match reply {
        Reply::WorkspaceList(list) => Ok(list),
        Reply::Error(error) => Err(RpcError::Business(error)),
        other => Err(RpcError::Transport(unexpected_("WorkspaceList", &other))),
    }
}

/// A reply that should carry the workspace just added.
pub fn expect_workspace_added(reply: Reply) -> (r: Result<Workspace, RpcError<UnexpectedReply>>)
    ensures
        match reply {
            Reply::WorkspaceAdded { workspace, .. } => r == Ok::<Workspace, RpcError<UnexpectedReply>>(workspace),
            Reply::Error(e) => r == Err::<Workspace, RpcError<UnexpectedReply>>(RpcError::Business(e)),
            other => r matches Err(RpcError::Transport(u)) && u.expected@ == "WorkspaceAdded"@ && u.got@ == kind_of(
                other,
            ),
        },
{
    match reply {
        Reply::WorkspaceAdded { workspace, .. } => Ok(workspace),
        Reply::Error(error) => Err(RpcError::Business(error)),
        other => Err(RpcError::Transport(unexpected_("WorkspaceAdded", &other))),
    }
}

/// A reply that should acknowledge a removal.
pub fn expect_ack(reply: Reply) -> (r: Result<(), RpcError<UnexpectedReply>>)
    ensures
        match reply {
            Reply::Ack => r == Ok::<(), RpcError<UnexpectedReply>>(()),
            Reply::Error(e) => r == Err::<(), RpcError<UnexpectedReply>>(RpcError::Business(e)),
            other => r matches Err(RpcError::Transport(u)) && u.expected@ == "Ack"@ && u.got@ == kind_of(other),
        },
{
    match reply {
        Reply::Ack => Ok(()),
        Reply::Error(error) => Err(RpcError::Business(error)),
        other => Err(RpcError::Transport(unexpected_("Ack", &other))),
    }
}

/// A reply that should list the sessions of a workspace.
pub fn expect_session_list(reply: Reply) -> (r: Result<SessionList, RpcError<UnexpectedReply>>)
    ensures
        match reply {
            Reply::SessionList(l) => r == Ok::<SessionList, RpcError<UnexpectedReply>>(l),
            Reply::Error(e) => r == Err::<SessionList, RpcError<UnexpectedReply>>(RpcError::Business(e)),
            other => r matches Err(RpcError::Transport(u)) && u.expected@ == "SessionList"@ && u.got@ == kind_of(
                other,
            ),
        },
{
    match reply {
        Reply::SessionList(list) => Ok(list),
        Reply::Error(error) => Err(RpcError::Business(error)),
        other => Err(RpcError::Transport(unexpected_("SessionList", &other))),
    }
}

/// A reply that should carry the session just created.
pub fn expect_session_created(reply: Reply) -> (r: Result<SessionSummary, RpcError<UnexpectedReply>>)
    ensures
        match reply {
            Reply::SessionCreated { session, .. } => r == Ok::<SessionSummary, RpcError<UnexpectedReply>>(session),
            Reply::Error(e) => r == Err::<SessionSummary, RpcError<UnexpectedReply>>(RpcError::Business(e)),
            other => r matches Err(RpcError::Transport(u)) && u.expected@ == "SessionCreated"@ && u.got@ == kind_of(
                other,
            ),
        },
{
    match reply {
        Reply::SessionCreated { session, .. } => Ok(session),
        Reply::Error(error) => Err(RpcError::Business(error)),
        other => Err(RpcError::Transport(unexpected_("SessionCreated", &other))),
    }
}

/// A reply that should carry a whole session.
pub fn expect_session_detail(reply: Reply) -> (r: Result<SessionDetail, RpcError<UnexpectedReply>>)
    ensures
        match reply {
            Reply::SessionDetail(d) => r == Ok::<SessionDetail, RpcError<UnexpectedReply>>(d),
            Reply::Error(e) => r == Err::<SessionDetail, RpcError<UnexpectedReply>>(RpcError::Business(e)),
            other => r matches Err(RpcError::Transport(u)) && u.expected@ == "SessionDetail"@ && u.got@ == kind_of(
                other,
            ),
        },
{
    match reply {
        Reply::SessionDetail(detail) => Ok(detail),
        Reply::Error(error) => Err(RpcError::Business(error)),
        other => Err(RpcError::Transport(unexpected_("SessionDetail", &other))),
    }
}

/// The identifier of a client's `n`-th request on its connection: `q-<n>`.
pub fn request_id_for(n: u64) -> (r: RequestId)
    ensures
        r@ == "q-"@ + decimal(n as nat),
{
    let digits = decimal_string(n);
    RequestId::from_string(concat2("q-", digits.as_str()))
}

} // verus!
