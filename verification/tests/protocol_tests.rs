use kb_svc::client_reply::{
    expect_ack, expect_session_detail, expect_workspace_added, expect_workspace_list, reply_kind_, UnexpectedReply,
};
use kb_svc::ids::{LocalId, RequestId, WorkspaceId};
use kb_svc::protocol::{
    ErrorCode, ErrorReply, Reply, ReplyEnvelope, Request, RequestEnvelope, RpcError, Workspace, WorkspaceList,
};

#[test]
fn envelopes_keep_their_request_id() {
    let envelope = RequestEnvelope::new(RequestId::new("q-9"), Request::ListServices);
    assert_eq!(envelope.request_id, RequestId::new("q-9"));
    assert_eq!(envelope.request, Request::ListServices);

    let reply = ReplyEnvelope::new(RequestId::new("q-9"), Reply::Ack);
    assert_eq!(reply.request_id.as_str(), "q-9");
    assert_eq!(reply.reply, Reply::Ack);
}

#[test]
fn replies_of_the_expected_kind_are_unwrapped() {
    let list = WorkspaceList { workspaces: Vec::new() };
    assert_eq!(expect_workspace_list(Reply::WorkspaceList(list.clone())), Ok(list));
    assert_eq!(expect_ack(Reply::Ack), Ok(()));

    let workspace = Workspace { workspace_id: WorkspaceId::new("w-1"), name: "n".to_string(), path: "/p".to_string() };
    let added = Reply::WorkspaceAdded { local_id: LocalId::new("l-1"), workspace: workspace.clone() };
    assert_eq!(expect_workspace_added(added), Ok(workspace));
}

#[test]
fn business_errors_and_wrong_kinds_are_told_apart() {
    let error = ErrorReply { code: ErrorCode::NotFound, message: "工作区不存在: w-9".to_string() };
    match expect_ack(Reply::Error(error.clone())) {
        Err(RpcError::Business(e)) => assert_eq!(e, error),
        other => panic!("应当是业务错误: {other:?}"),
    }
    match expect_session_detail(Reply::Ack) {
        Err(RpcError::Transport(u)) => {
            assert_eq!(u, UnexpectedReply { expected: "SessionDetail", got: "Ack" })
        }
        other => panic!("应当是应答不匹配: {other:?}"),
    }
    assert_eq!(reply_kind_(&Reply::Error(error)), "Error");
    assert_eq!(reply_kind_(&Reply::WorkspaceList(WorkspaceList { workspaces: Vec::new() })), "WorkspaceList");
}

#[test]
fn rpc_errors_map_only_the_transport_side() {
    let business: RpcError<u8> = RpcError::Business(ErrorReply { code: ErrorCode::Internal, message: "x".to_string() });
    let mapped = business.map_transport(|e| e as u32 + 1);
    assert!(mapped.as_business().is_some());
    let transport: RpcError<u8> = RpcError::Transport(4);
    match transport.map_transport(|e| e as u32 + 1) {
        RpcError::Transport(v) => assert_eq!(v, 5),
        other => panic!("应当是传输错误: {other:?}"),
    }
}

#[test]
fn client_request_ids_count_up() {
    assert_eq!(kb_svc::client_reply::request_id_for(0), RequestId::new("q-0"));
    assert_eq!(kb_svc::client_reply::request_id_for(42).as_str(), "q-42");
}
