//! The chat hub between browsers and the LLM plugin: which service answers,
//! at most one turn in flight, and how plugin events become browser
//! messages. Each operation takes the hub state and one input and returns
//! what to broadcast or send; the caller owns the channels.
use vstd::prelude::*;
use crate::args::opt_view;
use crate::ids::new_uuid_simple;
use crate::settings::{LlmServiceConfig, Settings, first_keyed, has_key, lemma_map_at};
use crate::text::{clone_opt, concat2, concat3, chars_of, str_eq};
use crate::title::{trim, trim_chars};
use crate::wire::{
    ErrorCode, FinishReason, PluginEvent, PluginRequest, RawContent, ServerMessage, to_wire_finish_reason,
    to_wire_logic, to_wire_usage, wire_finish_reason, wire_logic, wire_usage,
};

verus! {

/// Version reported to browsers.
pub const SERVER_VERSION: &'static str = "0.1.0";

/// An error answered to one browser.
#[derive(Debug, Clone, PartialEq, Eq)]
pub struct HubError {
    pub turn_id: Option<String>,
    pub code: ErrorCode,
    pub message: String,
}

impl HubError {
    /// An error not tied to a turn.
    pub fn new(code: ErrorCode, message: String) -> (r: Self)
        ensures
            r.turn_id is None,
            r.code == code,
            r.message == message,
    {
        HubError { turn_id: None, code, message }
    }

    /// An error about one turn.
    pub fn for_turn(turn_id: String, code: ErrorCode, message: String) -> (r: Self)
        ensures
            r.turn_id == Some(turn_id),
            r.code == code,
            r.message == message,
    {
        HubError { turn_id: Some(turn_id), code, message }
    }

    /// The error frame sent to the browser.
    pub fn into_message(self) -> (r: ServerMessage)
        ensures
            r == (ServerMessage::Error { turn_id: self.turn_id, code: self.code, message: self.message }),
    {
        ServerMessage::Error { turn_id: self.turn_id, code: self.code, message: self.message }
    }
}

/// The turn being generated.
#[derive(Debug, Clone, PartialEq, Eq)]
pub struct ActiveTurn {
    pub turn_id: String,
    pub service_id: String,
    pub started: bool,
}

/// Shared state of the hub.
#[derive(Debug, Clone, PartialEq, Eq)]
pub struct HubState {
    /// The service used when a question names none.
    pub active_service: Option<String>,
    /// The one turn in flight, if any.
    pub active_turn: Option<ActiveTurn>,
    /// Connected plugins, each once.
    pub plugins: Vec<u128>,
}

/// Whether turn `t` is the one in flight.
pub open spec fn is_active(s: HubState, t: Seq<char>) -> bool {
    s.active_turn matches Some(a) && a.turn_id@ == t
}

/// Nothing in flight, all else as in `s`.
pub open spec fn idle_after(s: HubState, t: HubState) -> bool {
    t.active_turn is None && t.active_service == s.active_service && t.plugins == s.plugins
}

/// Outcome of the checks on a question.
pub enum AskCheck {
    Reject(ErrorCode, Seq<char>),
    Forward(Seq<char>),
}

/// The service that answers: the named one, else the active one, else the
/// first (by identifier) that has an API key.
pub open spec fn chosen_service(s: HubState, service_id: Option<Seq<char>>, settings: Settings) -> Option<Seq<char>> {
    match service_id {
        Some(id) => Some(id),
        None => match opt_view(s.active_service) {
            Some(a) => Some(a),
            None => first_keyed(settings.services@, 0),
        },
    }
}

/// The checks on a question, in order: non-blank question, no turn in
/// flight, readable settings, a service to use, that service configured,
/// that service with an API key.
pub open spec fn check_ask(
    s: HubState,
    question: Seq<char>,
    service_id: Option<Seq<char>>,
    settings: Result<Settings, String>,
) -> AskCheck {
    if trim(question).len() == 0 {
        AskCheck::Reject(ErrorCode::BadRequest, "问题不能为空"@)
    } else if s.active_turn is Some {
        AskCheck::Reject(ErrorCode::BadRequest, "上一轮仍在生成中，请先取消"@)
    } else {
        match settings {
            Err(e) => AskCheck::Reject(ErrorCode::Internal, "读取设置失败: "@ + e@),
            Ok(st) => match chosen_service(s, service_id, st) {
                None => AskCheck::Reject(ErrorCode::UnknownService, "尚未配置任何可用的 LLM 服务"@),
                Some(id) => if !st.map().contains_key(id) {
                    AskCheck::Reject(ErrorCode::UnknownService, "服务 "@ + id + " 不存在"@)
                } else if !has_key(st.map()[id]) {
                    AskCheck::Reject(ErrorCode::MissingApiKey, "服务 "@ + id + " 还未配置 API key，请在设置里填写"@)
                } else {
                    AskCheck::Forward(id)
                },
            },
        }
    }
}

impl HubState {
    /// A hub with no plugin and no turn; the active service is the first
    /// one with an API key.
    pub fn new(settings: &Settings) -> (s: Self)
        ensures
            opt_view(s.active_service) == first_keyed(settings.services@, 0),
            s.active_turn is None,
            s.plugins@.len() == 0,
    {
        HubState { active_service: settings.first_with_api_key(), active_turn: None, plugins: Vec::new() }
    }

    /// The service used when a question names none.
    pub fn active_service(&self) -> (r: Option<String>)
        ensures
            r == self.active_service,
    {
        clone_opt(&self.active_service)
    }

    /// Forgets the active service.
    pub fn clear_active_service(&mut self)
        ensures
            final(self).active_service is None,
            final(self).active_turn == old(self).active_turn,
            final(self).plugins == old(self).plugins,
    {
        self.active_service = None;
    }

    /// Makes `service_id` the active service, if it is configured.
    pub fn use_service(&mut self, settings: &Result<Settings, String>, service_id: &str) -> (r: Result<(), HubError>)
        requires
            settings matches Ok(st) ==> st.wf(),
        ensures
            final(self).active_turn == old(self).active_turn,
            final(self).plugins == old(self).plugins,
            match settings {
                Err(e) => r matches Err(h) && h.turn_id is None && h.code == ErrorCode::Internal
                    && h.message@ == "读取设置失败: "@ + e@ && final(self).active_service == old(self).active_service,
                Ok(st) => if st.map().contains_key(service_id@) {
                    r is Ok && opt_view(final(self).active_service) == Some(service_id@)
                } else {
                    r matches Err(h) && h.turn_id is None && h.code == ErrorCode::UnknownService
                        && h.message@ == "服务 "@ + service_id@ + " 不存在"@
                        && final(self).active_service == old(self).active_service
                },
            },
    {
        match settings {
            Err(e) => Err(HubError::new(ErrorCode::Internal, concat2("读取设置失败: ", e.as_str()))),
            Ok(st) => {
                if !st.contains_key(service_id) {
                    return Err(HubError::new(ErrorCode::UnknownService, concat3("服务 ", service_id, " 不存在")));
                }
                self.active_service = Some(service_id.to_owned());
                Ok(())
            },
        }
    }

    /// Whether a plugin is connected.
    pub fn plugin_online(&self) -> (r: bool)
        ensures
            r == (self.plugins@.len() > 0),
    {
        self.plugins.len() > 0
    }

    /// Position of plugin `id`, if connected.
    fn plugin_index(&self, id: u128) -> (r: Option<usize>)
        ensures
            match r {
                Some(k) => k < self.plugins@.len() && self.plugins@[k as int] == id,
                None => !self.plugins@.contains(id),
            },
    {
        let mut k: usize = 0;
        while k < self.plugins.len()
            invariant
                k <= self.plugins@.len(),
                forall|q: int| 0 <= q < k ==> self.plugins@[q] != id,
            decreases self.plugins@.len() - k,
        {
            if self.plugins[k] == id {
                return Some(k);
            }
            k = k + 1;
        }
        None
    }

    /// Records a connected plugin.
    pub fn register_plugin(&mut self, id: u128)
        ensures
            old(self).plugins@.contains(id) ==> final(self).plugins == old(self).plugins,
            !old(self).plugins@.contains(id) ==> final(self).plugins@ == old(self).plugins@.push(id),
            final(self).active_turn == old(self).active_turn,
            final(self).active_service == old(self).active_service,
    {
        if self.plugin_index(id).is_none() {
            self.plugins.push(id);
        }
    }

    /// Forgets a plugin that went away. A turn in flight then fails: the
    /// result is the error to broadcast.
    pub fn unregister_plugin(&mut self, id: u128) -> (r: Option<ServerMessage>)
        ensures
            final(self).active_service == old(self).active_service,
            !old(self).plugins@.contains(id) ==> r is None && *final(self) == *old(self),
            old(self).plugins@.contains(id) ==> {
                &&& final(self).active_turn is None
                &&& final(self).plugins@.len() == old(self).plugins@.len() - 1
                &&& match old(self).active_turn {
                    Some(a) => r matches Some(ServerMessage::Error { turn_id: Some(t), code, message })
                        && t@ == a.turn_id@ && code == ErrorCode::PluginOffline
                        && message@ == "插件在生成过程中断开连接"@,
                    None => r is None,
                }
            },
    {
        match self.plugin_index(id) {
            None => None,
            Some(k) => {
                self.plugins.remove(k);
                match self.active_turn.take() {
                    Some(turn) => Some(ServerMessage::Error {
                        turn_id: Some(turn.turn_id),
                        code: ErrorCode::PluginOffline,
                        message: String::from_str("插件在生成过程中断开连接"),
                    }),
                    None => None,
                }
            },
        }
    }

    /// The greeting sent to a browser, given the configured services.
    pub fn ready_message(&self, services: Vec<String>) -> (r: ServerMessage)
        ensures
            r matches ServerMessage::Ready { plugin_online, services: s, active_service, server_version }
                && plugin_online == (self.plugins@.len() > 0) && s == services
                && active_service == self.active_service && server_version@ == SERVER_VERSION@,
    {
        ServerMessage::Ready {
            plugin_online: self.plugin_online(),
            services,
            active_service: self.active_service(),
            server_version: String::from_str(SERVER_VERSION),
        }
    }

    /// Checks a question and, when it may go ahead, builds the request to
    /// forward to the plugin.
    pub fn decide_ask(
        &self,
        turn_id: String,
        question: String,
        service_id: Option<String>,
        settings: &Result<Settings, String>,
    ) -> (r: Result<PluginRequest, HubError>)
        requires
            settings matches Ok(st) ==> st.wf(),
        ensures
            match check_ask(*self, question@, opt_view(service_id), *settings) {
                AskCheck::Reject(code, message) => r matches Err(h) && h.turn_id == Some(turn_id)
                    && h.code == code && h.message@ == message,
                AskCheck::Forward(id) => r matches Ok(PluginRequest::Ask { turn_id: t, service_id: sid, service, question: q })
                    && t == turn_id && sid@ == id && q == question
                    && (settings matches Ok(st) && service == st.map()[id]),
            },
    {
        let chars = chars_of(question.as_str());
        if trim_chars(&chars).len() == 0 {
            return Err(HubError::for_turn(turn_id, ErrorCode::BadRequest, String::from_str("问题不能为空")));
        }
        if self.active_turn.is_some() {
            return Err(HubError::for_turn(turn_id, ErrorCode::BadRequest, String::from_str("上一轮仍在生成中，请先取消")));
        }
        let settings = match settings {
            Err(e) => return Err(HubError::for_turn(turn_id, ErrorCode::Internal, concat2("读取设置失败: ", e.as_str()))),
            Ok(st) => st,
        };
        let chosen = match service_id {
            Some(id) => Some(id),
            None => match self.active_service() {
                Some(a) => Some(a),
                None => settings.first_with_api_key(),
            },
        };
        let service_id = match chosen {
            Some(id) => id,
            None => return Err(HubError::for_turn(
                turn_id,
                ErrorCode::UnknownService,
                String::from_str("尚未配置任何可用的 LLM 服务"),
            )),
        };
        let service = match settings.get(service_id.as_str()) {
            Some(service) => service.duplicate(),
            None => return Err(HubError::for_turn(
                turn_id,
                ErrorCode::UnknownService,
                concat3("服务 ", service_id.as_str(), " 不存在"),
            )),
        };
        if !service.has_api_key() {
            return Err(HubError::for_turn(
                turn_id,
                ErrorCode::MissingApiKey,
                concat3("服务 ", service_id.as_str(), " 还未配置 API key，请在设置里填写"),
            ));
        }
        Ok(PluginRequest::Ask { turn_id, service_id, service, question })
    }

    /// Records the outcome of forwarding a question: when some plugin took
    /// it, the turn is in flight; otherwise the plugin is reported offline.
    pub fn ask_delivered(&mut self, turn_id: String, service_id: String, sent: bool) -> (r: Result<(), HubError>)
        ensures
            final(self).active_service == old(self).active_service,
            final(self).plugins == old(self).plugins,
            sent ==> r is Ok && final(self).active_turn == Some(ActiveTurn { turn_id, service_id, started: false }),
            !sent ==> (r matches Err(h) && h.turn_id == Some(turn_id) && h.code == ErrorCode::PluginOffline
                && h.message@ == "LLM 插件当前未连接"@) && final(self).active_turn == old(self).active_turn,
    {
        if !sent {
            return Err(HubError::for_turn(turn_id, ErrorCode::PluginOffline, String::from_str("LLM 插件当前未连接")));
        }
        self.active_turn = Some(ActiveTurn { turn_id, service_id, started: false });
        Ok(())
    }

    /// Whether `turn_id` is the turn in flight.
    pub fn is_active_turn(&self, turn_id: &str) -> (r: bool)
        ensures
            r == is_active(*self, turn_id@),
    {
        match &self.active_turn {
            Some(turn) => str_eq(turn.turn_id.as_str(), turn_id),
            None => false,
        }
    }

    /// Ends the turn in flight.
    pub fn take_active_turn(&mut self) -> (r: Option<ActiveTurn>)
        ensures
            r == old(self).active_turn,
            idle_after(*old(self), *final(self)),
    {
        self.active_turn.take()
    }

    /// Cancels the turn in flight at once: the cancel request for the plugin
    /// and the `finished` frame for the browsers.
    pub fn handle_cancel(&mut self, turn_id: &str) -> (r: Result<(PluginRequest, ServerMessage), HubError>)
        ensures
            !is_active(*old(self), turn_id@) ==> (r matches Err(h) && (h.turn_id matches Some(t) && t@ == turn_id@)
                && h.code == ErrorCode::BadRequest && h.message@ == "没有正在进行的该轮生成"@)
                && *final(self) == *old(self),
            is_active(*old(self), turn_id@) ==> (r matches Ok((PluginRequest::Cancel { turn_id: a }, ServerMessage::Finished { turn_id: b, reason }))
                && a@ == turn_id@ && b@ == turn_id@ && reason == Some(FinishReason::Cancelled))
                && idle_after(*old(self), *final(self)),
    {
        if !self.is_active_turn(turn_id) {
            return Err(HubError::for_turn(turn_id.to_owned(), ErrorCode::BadRequest, String::from_str("没有正在进行的该轮生成")));
        }
        let _ = self.take_active_turn();
        Ok((
            PluginRequest::Cancel { turn_id: turn_id.to_owned() },
            ServerMessage::Finished { turn_id: turn_id.to_owned(), reason: Some(FinishReason::Cancelled) },
        ))
    }

    /// Handles one event of the plugin; the result is what to broadcast, in
    /// order. Events about any turn other than the one in flight are
    /// ignored.
    pub fn handle_plugin_event(&mut self, event: PluginEvent) -> (r: Vec<ServerMessage>)
        ensures
            final(self).active_service == old(self).active_service,
            final(self).plugins == old(self).plugins,
            match event {
                PluginEvent::Hello { .. } | PluginEvent::Pong => r@.len() == 0 && *final(self) == *old(self),
                PluginEvent::Started { turn_id, model, capabilities } => if is_active(*old(self), turn_id@) {
                    &&& r@.len() == 1
                    &&& r@[0] matches ServerMessage::Started { turn_id: t, service_id: s, model: m, capabilities: c }
                    &&& t == turn_id && m == model && c == capabilities
                    &&& old(self).active_turn matches Some(a) && s == a.service_id
                        && final(self).active_turn == Some(ActiveTurn { turn_id: a.turn_id, service_id: a.service_id, started: true })
                } else {
                    r@.len() == 0 && *final(self) == *old(self)
                },
                PluginEvent::Raw { turn_id, payload } => if !is_active(*old(self), turn_id@) {
                    r@.len() == 0 && *final(self) == *old(self)
                } else if payload.usage is Some {
                    r@ == seq![ServerMessage::Usage { turn_id, usage: wire_usage(payload.usage->0) }]
                        && *final(self) == *old(self)
                } else if payload.finish_reason is Some {
                    r@ == seq![ServerMessage::Finished { turn_id, reason: Some(wire_finish_reason(payload.finish_reason->0)) }]
                        && idle_after(*old(self), *final(self))
                } else {
                    match payload.content {
                        None => r@.len() == 0 && *final(self) == *old(self),
                        Some(RawContent::TextDelta { logic, text }) =>
                            r@ == seq![ServerMessage::Delta { turn_id, logic: wire_logic(logic), text }] && *final(self) == *old(self),
                        Some(RawContent::ToolCall { id, name, arguments }) =>
                            r@ == seq![ServerMessage::ToolCall { turn_id, id, name, arguments }] && *final(self) == *old(self),
                        Some(RawContent::Usage(u)) =>
                            r@ == seq![ServerMessage::Usage { turn_id, usage: wire_usage(u) }] && *final(self) == *old(self),
                        Some(RawContent::Finished { reason }) =>
                            r@ == seq![ServerMessage::Finished {
                                turn_id,
                                reason: match reason { Some(x) => Some(wire_finish_reason(x)), None => None },
                            }] && idle_after(*old(self), *final(self)),
                    }
                },
                PluginEvent::Finished { turn_id, reason } => if is_active(*old(self), turn_id@) {
                    r@ == seq![ServerMessage::Finished { turn_id, reason }] && idle_after(*old(self), *final(self))
                } else {
                    r@.len() == 0 && *final(self) == *old(self)
                },
                PluginEvent::Error { turn_id, message } => if turn_id matches Some(t) && !is_active(*old(self), t@) {
                    r@.len() == 0 && *final(self) == *old(self)
                } else {
                    r@ == seq![ServerMessage::Error { turn_id, code: ErrorCode::Provider, message }]
                        && idle_after(*old(self), *final(self))
                },
            },
    {
        let mut out: Vec<ServerMessage> = Vec::new();
        match event {
            PluginEvent::Hello { .. } | PluginEvent::Pong => {},
            PluginEvent::Started { turn_id, model, capabilities } => {
                if self.is_active_turn(turn_id.as_str()) {
                    match self.active_turn.take() {
                        Some(turn) => {
                            let service_id = turn.service_id.clone();
                            self.active_turn = Some(ActiveTurn { turn_id: turn.turn_id, service_id: turn.service_id, started: true });
                            out.push(ServerMessage::Started { turn_id, service_id, model, capabilities });
                        },
                        None => {},
                    }
                }
            },
            PluginEvent::Raw { turn_id, payload } => {
                if self.is_active_turn(turn_id.as_str()) {
                    if let Some(usage) = payload.usage {
                        out.push(ServerMessage::Usage { turn_id, usage: to_wire_usage(usage) });
                    } else if let Some(reason) = payload.finish_reason {
                        out.push(ServerMessage::Finished { turn_id, reason: Some(to_wire_finish_reason(reason)) });
                        let _ = self.take_active_turn();
                    } else {
                        match payload.content {
                            None => {},
                            Some(RawContent::TextDelta { logic, text }) => {
                                out.push(ServerMessage::Delta { turn_id, logic: to_wire_logic(logic), text });
                            },
                            Some(RawContent::ToolCall { id, name, arguments }) => {
                                out.push(ServerMessage::ToolCall { turn_id, id, name, arguments });
                            },
                            Some(RawContent::Usage(usage)) => {
                                out.push(ServerMessage::Usage { turn_id, usage: to_wire_usage(usage) });
                            },
                            Some(RawContent::Finished { reason }) => {
                                let reason = match reason {
                                    Some(x) => Some(to_wire_finish_reason(x)),
                                    None => None,
                                };
                                out.push(ServerMessage::Finished { turn_id, reason });
                                let _ = self.take_active_turn();
                            },
                        }
                    }
                }
            },
            PluginEvent::Finished { turn_id, reason } => {
                if self.is_active_turn(turn_id.as_str()) {
                    out.push(ServerMessage::Finished { turn_id, reason });
                    let _ = self.take_active_turn();
                }
            },
            PluginEvent::Error { turn_id, message } => {
                let ignored = match &turn_id {
                    Some(t) => !self.is_active_turn(t.as_str()),
                    None => false,
                };
                if !ignored {
                    out.push(ServerMessage::Error { turn_id, code: ErrorCode::Provider, message });
                    let _ = self.take_active_turn();
                }
            },
        }
        out
    }
}

/// The turn identifier of a question: the one the browser chose, else a
/// fresh simple UUID.
pub fn ask_turn_id(turn_id: Option<String>) -> (r: String)
    ensures
        turn_id matches Some(t) ==> r == t,
        turn_id is None ==> crate::ids::is_simple_uuid(r@),
{
    match turn_id {
        Some(t) => t,
        None => new_uuid_simple(),
    }
}

/// Only one turn is in flight: a question asked while a turn is in flight
/// is refused, whatever it asks.
pub proof fn law_one_turn_at_a_time(
    s: HubState,
    question: Seq<char>,
    service_id: Option<Seq<char>>,
    settings: Result<Settings, String>,
)
    requires
        s.active_turn is Some,
        trim(question).len() > 0,
    ensures
        check_ask(s, question, service_id, settings) == AskCheck::Reject(ErrorCode::BadRequest, "上一轮仍在生成中，请先取消"@),
{
}

/// A question is only forwarded to a service that is configured and has an
/// API key.
pub proof fn law_forward_needs_a_keyed_service(
    s: HubState,
    question: Seq<char>,
    service_id: Option<Seq<char>>,
    settings: Result<Settings, String>,
    id: Seq<char>,
)
    requires
        check_ask(s, question, service_id, settings) == AskCheck::Forward(id),
    ensures
        s.active_turn is None,
        trim(question).len() > 0,
        settings matches Ok(st) && st.map().contains_key(id) && has_key(st.map()[id]),
{
}

/// Once a turn has ended (finished, failed, cancelled or its plugin gone),
/// the hub takes the next question: a question is then never refused for a
/// turn in flight.
pub proof fn law_ended_turn_frees_the_hub(
    s: HubState,
    t: HubState,
    question: Seq<char>,
    service_id: Option<Seq<char>>,
    settings: Result<Settings, String>,
)
    requires
        idle_after(s, t),
    ensures
        check_ask(t, question, service_id, settings) != AskCheck::Reject(
            ErrorCode::BadRequest,
            "上一轮仍在生成中，请先取消"@,
        ),
{
    reveal_strlit("上一轮仍在生成中，请先取消");
    reveal_strlit("问题不能为空");
    assert("问题不能为空"@.len() != "上一轮仍在生成中，请先取消"@.len());
}


proof fn lemma_first_keyed_at(v: Seq<(String, LlmServiceConfig)>, k: int, i: int)
    requires
        0 <= k <= i < v.len(),
        has_key(v[i].1),
        forall|j: int| k <= j < i ==> !has_key(#[trigger] v[j].1),
    ensures
        first_keyed(v, k) == Some(v[i].0@),
    decreases i - k,
{
    if k < i {
        lemma_first_keyed_at(v, k + 1, i);
    }
}

proof fn lemma_first_keyed_none(v: Seq<(String, LlmServiceConfig)>, k: int)
    requires
        0 <= k <= v.len(),
        forall|j: int| 0 <= j < v.len() ==> !has_key(#[trigger] v[j].1),
    ensures
        first_keyed(v, k) is None,
    decreases v.len() - k,
{
    if k < v.len() {
        lemma_first_keyed_none(v, k + 1);
    }
}

/// A question that names a configured service with an API key goes to
/// that service, whatever service is active.
pub proof fn law_ask_goes_to_the_named_service(
    s: HubState,
    question: Seq<char>,
    id: Seq<char>,
    st: Settings,
)
    requires
        trim(question).len() > 0,
        s.active_turn is None,
        st.map().contains_key(id),
        has_key(st.map()[id]),
    ensures
        check_ask(s, question, Some(id), Ok::<Settings, String>(st)) == AskCheck::Forward(id),
{
}

/// A question that names no service goes to the active service (the one
/// the user chose last), when that one is configured with an API key; the
/// services' order plays no part then.
pub proof fn law_ask_goes_to_the_active_service(
    s: HubState,
    question: Seq<char>,
    active: Seq<char>,
    st: Settings,
)
    requires
        trim(question).len() > 0,
        s.active_turn is None,
        opt_view(s.active_service) == Some(active),
        st.map().contains_key(active),
        has_key(st.map()[active]),
    ensures
        check_ask(s, question, None, Ok::<Settings, String>(st)) == AskCheck::Forward(active),
{
}

/// With no service named and none active, the question goes to the first
/// service (in identifier order) that has an API key; with no such service
/// it is refused as having no usable service.
pub proof fn law_ask_falls_back_to_the_first_keyed_service(
    s: HubState,
    question: Seq<char>,
    st: Settings,
    i: int,
)
    requires
        trim(question).len() > 0,
        s.active_turn is None,
        s.active_service is None,
        st.wf(),
        0 <= i < st.services@.len(),
        has_key(st.services@[i].1),
        forall|j: int| 0 <= j < i ==> !has_key(#[trigger] st.services@[j].1),
    ensures
        check_ask(s, question, None, Ok::<Settings, String>(st)) == AskCheck::Forward(st.services@[i].0@),
{
    lemma_first_keyed_at(st.services@, 0, i);
    lemma_map_at(st.services@, i);
}

/// With no service named, none active and no service with an API key, the
/// question is refused: there is no usable service.
pub proof fn law_ask_without_any_keyed_service_is_refused(s: HubState, question: Seq<char>, st: Settings)
    requires
        trim(question).len() > 0,
        s.active_turn is None,
        s.active_service is None,
        forall|j: int| 0 <= j < st.services@.len() ==> !has_key(#[trigger] st.services@[j].1),
    ensures
        check_ask(s, question, None, Ok::<Settings, String>(st)) == AskCheck::Reject(
            ErrorCode::UnknownService,
            "尚未配置任何可用的 LLM 服务"@,
        ),
{
    lemma_first_keyed_none(st.services@, 0);
}

} // verus!
