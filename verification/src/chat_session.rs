//! One browser's chat connection: the frames it gets besides the broadcast
//! stream, decided from what happened on the connection.
use vstd::prelude::*;
use crate::hub::HubError;
use crate::text::{concat2, concat3, decimal, decimal_string};
use crate::wire::{ClientMessage, ErrorCode, ServerMessage};

verus! {

/// The frame telling a browser that it fell behind the broadcast stream by
/// `skipped` messages.
pub fn lagged_notice(skipped: u64) -> (r: ServerMessage)
    ensures
        r matches ServerMessage::Error { turn_id, code, message } && turn_id is None && code == ErrorCode::Internal
            && message@ == "事件积压，已丢弃 "@ + decimal(skipped as nat) + " 条增量，界面可能不完整"@,
{
    let n = decimal_string(skipped);
    ServerMessage::Error {
        turn_id: None,
        code: ErrorCode::Internal,
        message: concat3("事件积压，已丢弃 ", n.as_str(), " 条增量，界面可能不完整"),
    }
}

/// The frame answering a request that could not be read; `reason` is the
/// parser's report.
pub fn unreadable_request_notice(reason: &str) -> (r: ServerMessage)
    ensures
        r matches ServerMessage::Error { turn_id, code, message } && turn_id is None && code == ErrorCode::BadRequest
            && message@ == "无法解析请求: "@ + reason@,
{
    ServerMessage::Error { turn_id: None, code: ErrorCode::BadRequest, message: concat2("无法解析请求: ", reason) }
}

/// What follows a handled browser request on its connection.
pub enum FollowUp {
    /// The error frame, sent to this browser only.
    Reply(ServerMessage),
    /// A fresh `ready` frame for every browser: the active service changed.
    BroadcastReady,
    /// Nothing more.
    Nothing,
}

/// Whether `message` asks to switch the active service.
pub open spec fn switches_service(message: ClientMessage) -> bool {
    message is UseService
}

/// Whether a request switches the active service.
pub fn is_use_service(message: &ClientMessage) -> (r: bool)
    ensures
        r == switches_service(*message),
{
    match message {
        ClientMessage::UseService { .. } => true,
        _ => false,
    }
}

/// What follows a request, given whether it switched the active service and
/// how its handling ended: a refusal is answered to the sender; a switch
/// that went through is announced to every browser.
pub fn follow_up(use_service: bool, outcome: Result<(), HubError>) -> (r: FollowUp)
    ensures
        match outcome {
            Err(e) => r == FollowUp::Reply(ServerMessage::Error { turn_id: e.turn_id, code: e.code, message: e.message }),
            Ok(()) => if use_service {
                r == FollowUp::BroadcastReady
            } else {
                r == FollowUp::Nothing
            },
        },
{
    match outcome {
        Err(e) => FollowUp::Reply(e.into_message()),
        Ok(()) => if use_service {
            FollowUp::BroadcastReady
        } else {
            FollowUp::Nothing
        },
    }
}

} // verus!
