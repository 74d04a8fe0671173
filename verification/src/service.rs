//! The `kb_core` side of the per-domain RPC: the handshake check, how store
//! failures become business errors, and the simulated generation of `ask`
//! with its per-turn idempotence.
use vstd::prelude::*;
use crate::ids::TurnId;
use crate::llm::Role;
use crate::protocol::{
    AskRequest, ClientInfo, ErrorCode, ErrorReply, Notice, RpcError, ServerInfo, Turn, TurnState,
    PROTOCOL_VERSION,
};
use crate::store::{Store, StoreError, store_error_code, store_error_message, store_error_reply};
use crate::text::{chars_of, concat2, decimal, decimal_string, string_from_chars, str_eq};

verus! {

/// Version reported by this server in the handshake.
pub const SERVER_VERSION: &'static str = "0.1.0";

/// Note attached to every simulated answer.
pub const SIMULATED_NOTICE: &'static str = "（kb_core 临时模拟的 LLM：回答是把问题逆序输出）";

/// The server-side business implementation, backed by one store.
#[derive(Debug, Clone)]
pub struct KbService {
    store_: Store,
}

impl KbService {
    /// A service over `store`.
    pub fn new(store: Store) -> (r: Self)
        ensures
            r.store_spec() == store,
    {
        KbService { store_: store }
    }

    /// The store behind this service.
    pub closed spec fn store_spec(&self) -> Store {
        self.store_
    }

    /// The store behind this service.
    pub fn store(&self) -> (r: &Store)
        ensures
            *r == self.store_spec(),
    {
        &self.store_
    }
}

/// A store failure as the error of an RPC call.
pub fn store_error_(error: StoreError) -> (r: RpcError<core::convert::Infallible>)
    ensures
        r matches RpcError::Business(reply) && reply.code == store_error_code(error)
            && reply.message@ == store_error_message(error),
{
    RpcError::Business(store_error_reply(&error))
}

/// The error answered when a server-side call was cancelled.
pub fn cancelled_() -> (r: RpcError<core::convert::Infallible>)
    ensures
        r matches RpcError::Business(reply) && reply.code == ErrorCode::Internal
            && reply.message@ == "服务端侧调用被取消"@,
{
    RpcError::Business(ErrorReply { code: ErrorCode::Internal, message: String::from_str("服务端侧调用被取消") })
}

/// The message refusing a client with another protocol version.
pub open spec fn version_mismatch_message(client_version: u32) -> Seq<char> {
    "协议版本不匹配：客户端说 v"@ + decimal(client_version as nat) + "，服务端是 v"@ + decimal(PROTOCOL_VERSION as nat)
}

/// The application-level handshake: accepts exactly the clients of this
/// protocol version and reports who the server is.
pub fn hello_(client: &ClientInfo) -> (r: Result<ServerInfo, RpcError<core::convert::Infallible>>)
    ensures
        client.protocol_version == PROTOCOL_VERSION ==> (r matches Ok(info)
            && info.server_version@ == SERVER_VERSION@ && info.protocol_version == PROTOCOL_VERSION),
        client.protocol_version != PROTOCOL_VERSION ==> (r matches Err(RpcError::Business(reply))
            && reply.code == ErrorCode::BadRequest
            && reply.message@ == version_mismatch_message(client.protocol_version)),
{
    if client.protocol_version != PROTOCOL_VERSION {
        let mut message = concat2("协议版本不匹配：客户端说 v", decimal_string(client.protocol_version as u64).as_str());
        message.append("，服务端是 v");
        message.append(decimal_string(PROTOCOL_VERSION as u64).as_str());
        return Err(RpcError::Business(ErrorReply { code: ErrorCode::BadRequest, message }));
    }
    Ok(ServerInfo { server_version: String::from_str(SERVER_VERSION), protocol_version: PROTOCOL_VERSION })
}

// ── Simulated generation ──────────────────────────────────────────────────

/// The identifier of the answer to a user turn: `<user turn>-a`.
pub open spec fn answer_id(user_turn: Seq<char>) -> Seq<char> {
    user_turn + "-a"@
}

/// Whether some turn carries the identifier `id`.
pub open spec fn has_turn(turns: Seq<Turn>, id: Seq<char>) -> bool {
    exists|i: int| 0 <= i < turns.len() && (#[trigger] turns[i]).turn_id@ == id
}

/// The answer turn's identifier, derived from the user turn's identifier
/// (never random, so that a retried question finds its answer).
pub fn answer_turn_id_(user_turn_id: &TurnId) -> (r: TurnId)
    ensures
        r@ == answer_id(user_turn_id@),
{
    TurnId::from_string(concat2(user_turn_id.as_str(), "-a"))
}

/// The simulated answer: the question reversed by characters.
pub fn simulated_answer_(question: &str) -> (r: String)
    ensures
        r@ == question@.reverse(),
{
    let chars = chars_of(question);
    let mut out: Vec<char> = Vec::new();
    let mut i: usize = chars.len();
    while i > 0
        invariant
            i <= chars.len(),
            out@ == chars@.reverse().subrange(0, (chars.len() - i) as int),
        decreases i,
    {
        i = i - 1;
        out.push(chars[i]);
        assert(out@ =~= chars@.reverse().subrange(0, (chars.len() - i) as int));
    }
    assert(out@ =~= chars@.reverse());
    string_from_chars(&out)
}

/// A finished turn with the given identifier, role and text, with nothing
/// else recorded.
pub open spec fn is_plain_turn(t: Turn, id: Seq<char>, role: Role, text: Seq<char>) -> bool {
    &&& t.turn_id@ == id
    &&& t.role == role
    &&& t.text@ == text
    &&& t.reasoning@.len() == 0
    &&& t.state == TurnState::Done
    &&& t.tool_calls@.len() == 0
    &&& t.usage is None
}

/// The user turn recorded for a question.
pub open spec fn is_user_turn_of(t: Turn, request: AskRequest) -> bool {
    is_plain_turn(t, request.turn_id@, Role::User, request.question@) && t.notice is None
}

/// A simulated answer to a question, recorded under identifier `id`: the
/// question reversed, with the notice that the answer is simulated.
pub open spec fn is_reply_turn(t: Turn, request: AskRequest, id: Seq<char>) -> bool {
    &&& is_plain_turn(t, id, Role::Assistant, request.question@.reverse())
    &&& t.notice matches Some(n) && n.message@ == SIMULATED_NOTICE@ && !n.is_error
}

/// The simulated answer recorded for a question.
pub open spec fn is_answer_turn_of(t: Turn, request: AskRequest) -> bool {
    is_reply_turn(t, request, answer_id(request.turn_id@))
}

/// The user turn of a question.
pub fn user_turn_(request: &AskRequest) -> (t: Turn)
    ensures
        is_user_turn_of(t, *request),
{
    Turn {
        turn_id: TurnId::new(request.turn_id.as_str()),
        role: Role::User,
        text: String::from_str(request.question.as_str()),
        reasoning: String::new(),
        state: TurnState::Done,
        tool_calls: Vec::new(),
        usage: None,
        notice: None,
    }
}

/// The simulated assistant turn answering a question.
pub fn assistant_turn_(request: &AskRequest, turn_id: TurnId) -> (t: Turn)
    ensures
        is_reply_turn(t, *request, turn_id@),
{
    Turn {
        turn_id,
        role: Role::Assistant,
        text: simulated_answer_(request.question.as_str()),
        reasoning: String::new(),
        state: TurnState::Done,
        tool_calls: Vec::new(),
        usage: None,
        notice: Some(Notice { message: String::from_str(SIMULATED_NOTICE), is_error: false }),
    }
}

/// What answering a question adds to a session that already holds
/// `existing`: nothing once the answer is there; otherwise the answer,
/// preceded by the user turn unless that one is there already.
pub open spec fn is_ask_plan(existing: Seq<Turn>, request: AskRequest, plan: Option<Seq<Turn>>) -> bool {
    if has_turn(existing, answer_id(request.turn_id@)) {
        plan is None
    } else {
        plan matches Some(added) && if has_turn(existing, request.turn_id@) {
            added.len() == 1 && is_answer_turn_of(added[0], request)
        } else {
            added.len() == 2 && is_user_turn_of(added[0], request) && is_answer_turn_of(added[1], request)
        }
    }
}

/// Whether some turn of `turns` carries the identifier `id`.
pub fn contains_turn_(turns: &Vec<Turn>, id: &TurnId) -> (r: bool)
    ensures
        r == has_turn(turns@, id@),
{
    let mut i: usize = 0;
    while i < turns.len()
        invariant
            i <= turns.len(),
            forall|k: int| 0 <= k < i ==> (#[trigger] turns@[k]).turn_id@ != id@,
        decreases turns.len() - i,
    {
        if str_eq(turns[i].turn_id.as_str(), id.as_str()) {
            return true;
        }
        i = i + 1;
    }
    false
}

/// Decides what `ask` adds to a session (idempotent per turn identifier):
/// `None` when the question was answered already.
pub fn plan_ask_(existing: &Vec<Turn>, request: &AskRequest) -> (r: Option<Vec<Turn>>)
    ensures
        is_ask_plan(existing@, *request, match r {
            Some(v) => Some(v@),
            None => None,
        }),
{
    let answer = answer_turn_id_(&request.turn_id);
    if contains_turn_(existing, &answer) {
        return None;
    }
    let has_user = contains_turn_(existing, &request.turn_id);
    let mut added: Vec<Turn> = Vec::new();
    if !has_user {
        added.push(user_turn_(request));
    }
    added.push(assistant_turn_(request, answer));
    Some(added)
}

/// Asking the same question twice adds nothing the second time: once the
/// turns that `ask` planned are appended, the answer is there, so the next
/// plan for the same request is empty.
pub proof fn law_ask_is_idempotent(existing: Seq<Turn>, request: AskRequest, added: Seq<Turn>)
    requires
        is_ask_plan(existing, request, Some(added)),
    ensures
        has_turn(existing + added, answer_id(request.turn_id@)),
        is_ask_plan(existing + added, request, None),
{
    let all = existing + added;
    let last = added.len() - 1;
    assert(all[existing.len() + last] == added[last]);
    assert(all[existing.len() + last].turn_id@ == answer_id(request.turn_id@));
}

/// Asking never drops or changes what the session held: the planned turns
/// only extend it, and they start with the user turn unless the question
/// was already recorded.
pub proof fn law_ask_keeps_history(existing: Seq<Turn>, request: AskRequest, added: Seq<Turn>)
    requires
        is_ask_plan(existing, request, Some(added)),
    ensures
        (existing + added).subrange(0, existing.len() as int) == existing,
        has_turn(existing + added, request.turn_id@),
{
    let all = existing + added;
    assert(all.subrange(0, existing.len() as int) =~= existing);
    if has_turn(existing, request.turn_id@) {
        let i = choose|i: int| 0 <= i < existing.len() && (#[trigger] existing[i]).turn_id@ == request.turn_id@;
        assert(all[i] == existing[i]);
    } else {
        assert(all[existing.len() as int] == added[0]);
    }
}


/// Asking records nothing twice: no planned turn carries an identifier the
/// session already holds (a question recorded before, when the session was
/// created with it, is not added again), and the planned turns carry
/// different identifiers. The last planned turn is the answer.
pub proof fn law_ask_adds_no_duplicate_turn(existing: Seq<Turn>, request: AskRequest, added: Seq<Turn>)
    requires
        is_ask_plan(existing, request, Some(added)),
    ensures
        added.len() > 0,
        forall|k: int| 0 <= k < added.len() ==> !has_turn(existing, #[trigger] added[k].turn_id@),
        forall|k: int, l: int| 0 <= k < l < added.len() ==> #[trigger] added[k].turn_id@ != #[trigger] added[l].turn_id@,
        added[added.len() - 1].turn_id@ == answer_id(request.turn_id@),
        has_turn(existing, request.turn_id@) ==> forall|k: int|
            0 <= k < added.len() ==> #[trigger] added[k].turn_id@ != request.turn_id@,
{
    reveal_strlit("-a");
    assert(answer_id(request.turn_id@).len() == request.turn_id@.len() + 2);
}

} // verus!
