use kb_svc::ids::{SessionId, TurnId, WorkspaceId};
use kb_svc::llm::Role;
use kb_svc::protocol::{AskRequest, ClientInfo, ErrorCode, TurnState, PROTOCOL_VERSION};
use kb_svc::service::{
    answer_turn_id_, assistant_turn_, cancelled_, hello_, plan_ask_, simulated_answer_, user_turn_, SERVER_VERSION,
};

fn request(turn: &str, question: &str) -> AskRequest {
    AskRequest {
        workspace_id: WorkspaceId::new("w-1"),
        session_id: SessionId::new("s-1"),
        turn_id: TurnId::new(turn),
        question: question.to_string(),
        service_id: None,
    }
}

#[test]
fn simulated_answer_reverses_by_chars_() {
    assert_eq!(simulated_answer_("abc你好"), "好你cba");

    let user_id = TurnId::new("t-1");
    assert_eq!(answer_turn_id_(&user_id), TurnId::new("t-1-a"));
    assert_eq!(answer_turn_id_(&user_id), answer_turn_id_(&user_id), "同一个用户回合应当推导出同一个回答标识");

    let request = AskRequest {
        workspace_id: WorkspaceId::new("w-1"),
        session_id: SessionId::new("s-1"),
        turn_id: user_id.clone(),
        question: "abc你好".to_string(),
        service_id: None,
    };
    let user = user_turn_(&request);
    assert_eq!(user.role, Role::User);
    assert_eq!(user.turn_id, user_id);
    assert_eq!(user.text, "abc你好");

    let assistant = assistant_turn_(&request, answer_turn_id_(&request.turn_id));
    assert_eq!(assistant.role, Role::Assistant);
    assert_eq!(assistant.text, "好你cba");
    assert_eq!(assistant.state, TurnState::Done);
    let notice = assistant.notice.as_ref().expect("助手回合应当带说明");
    assert!(!notice.is_error, "说明不是错误: {}", notice.message);
}

#[test]
fn ask_twice_for_the_same_turn_appends_once() {
    let first = plan_ask_(&Vec::new(), &request("t-1", "你好")).expect("第一次应当追加");
    assert_eq!(first.len(), 2);
    assert_eq!(first[1].text, "好你");

    assert!(plan_ask_(&first, &request("t-1", "你好")).is_none(), "同一回合再问不应重复追加");

    let second = plan_ask_(&first, &request("t-2", "ab")).expect("新回合应当追加");
    assert_eq!(second.len(), 2);
    assert_eq!(second[1].turn_id, TurnId::new("t-2-a"));
}

#[test]
fn hello_checks_the_protocol_version() {
    let client = |v: u32| ClientInfo {
        client_name: "test".to_string(),
        client_version: "0.0.1".to_string(),
        protocol_version: v,
    };
    let ok = hello_(&client(PROTOCOL_VERSION)).expect("版本一致应当成功");
    assert_eq!(ok.protocol_version, PROTOCOL_VERSION);
    assert_eq!(ok.server_version, SERVER_VERSION);

    let bad = hello_(&client(PROTOCOL_VERSION + 1)).expect_err("版本不一致应当被拒绝");
    let reply = bad.as_business().expect("应当是业务错误");
    assert_eq!(reply.code, ErrorCode::BadRequest);
    assert_eq!(reply.message, "协议版本不匹配：客户端说 v2，服务端是 v1");

    let cancelled = cancelled_();
    assert!(!cancelled.is_transport());
    assert_eq!(cancelled.as_business().map(|r| r.message.clone()), Some("服务端侧调用被取消".to_string()));
}
