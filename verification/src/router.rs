use crate::acp::{AcpInbound, Inbound};
use crate::commands::{
    build_cancel, build_disconnect_notice, build_initialize, build_prompt, build_session_load,
    build_session_new, build_set_mode, build_set_model, cancel_call, disconnect_notice,
    initialize_call, pairs_view, prompt_call, session_load_call, session_new_call, set_mode_call,
    set_model_call, texts_view, AgentCall, Ask, Call, HostCommand,
};
use crate::json::{Json, JsonNumber, JsonValue};
use crate::msgpack::{Msgpack, MsgpackValue};
use crate::pending::{slot_of, PendingTable};
use crate::text::{has_prefix, str_eq};
use vstd::prelude::*;

verus! {

/// The kinds of request that the agent makes and the host answers. Each kind
/// has a table of its own, since each is answered in its own shape.
#[derive(Clone, Copy, Debug, PartialEq, Eq, Structural)]
pub enum Category {
    Permission,
    Read,
    Write,
    Tool,
}

/// The prefix of the extension methods that the bridge hands on to the host.
pub open spec fn extension_prefix() -> Seq<char> {
    "_cog.nvim/"@
}

/// The kind of an agent's request, by its method; none where the bridge does
/// not support the method.
pub open spec fn category_of(method: Seq<char>) -> Option<Category> {
    if method == "fs/read_text_file"@ {
        Some(Category::Read)
    } else if method == "fs/write_text_file"@ {
        Some(Category::Write)
    } else if method == "session/request_permission"@ {
        Some(Category::Permission)
    } else if extension_prefix().is_prefix_of(method) {
        Some(Category::Tool)
    } else {
        None
    }
}

/// The kind of an agent's request, by its method.
pub fn category(method: &str) -> (r: Option<Category>)
    ensures
        r == category_of(method@),
{
    if str_eq(method, "fs/read_text_file") {
        Some(Category::Read)
    } else if str_eq(method, "fs/write_text_file") {
        Some(Category::Write)
    } else if str_eq(method, "session/request_permission") {
        Some(Category::Permission)
    } else if has_prefix(method, "_cog.nvim/") {
        Some(Category::Tool)
    } else {
        None
    }
}

/// Something that the host is told: the name of the event and what it
/// carries.
#[derive(Debug, PartialEq, Eq)]
pub struct HostEvent {
    pub name: String,
    pub payload: JsonValue,
}

/// The mathematical content of a [`HostEvent`].
pub struct Event {
    pub name: Seq<char>,
    pub payload: Json,
}

impl View for HostEvent {
    type V = Event;

    open spec fn view(&self) -> Event {
        Event { name: self.name@, payload: self.payload@ }
    }
}

/// The event for a notification of the agent: a session update is handed on
/// as it is, anything else with its method.
pub open spec fn notification_event(method: Seq<char>, params: Json) -> Event {
    if method == "session/update"@ {
        Event { name: "CogSessionUpdate"@, payload: params }
    } else {
        Event {
            name: "CogAcpNotification"@,
            payload: Json::object2("method"@, Json::String(method), "params"@, params),
        }
    }
}

/// The event for a request of the agent that the host has to answer. It
/// carries the request's id, under which the host answers.
pub open spec fn request_event(
    category: Category,
    id: u64,
    method: Seq<char>,
    params: Json,
) -> Event {
    let request_id = Json::Number(JsonNumber::PosInt(id));
    match category {
        Category::Read => Event {
            name: "CogFileRead"@,
            payload: Json::object4(
                "limit"@,
                params.get_or_null("limit"@),
                "line"@,
                params.get_or_null("line"@),
                "path"@,
                Json::String(params.str_or_empty("path"@)),
                "request_id"@,
                request_id,
            ),
        },
        Category::Write => Event {
            name: "CogFileWrite"@,
            payload: Json::object3(
                "content"@,
                Json::String(params.str_or_empty("content"@)),
                "path"@,
                Json::String(params.str_or_empty("path"@)),
                "request_id"@,
                request_id,
            ),
        },
        Category::Permission => Event {
            name: "CogPermissionRequest"@,
            payload: Json::object2(
                "params"@,
                params,
                "request_id"@,
                request_id,
            ),
        },
        Category::Tool => Event {
            name: "CogToolRequest"@,
            payload: Json::object3(
                "method"@,
                Json::String(method),
                "params"@,
                params,
                "request_id"@,
                request_id,
            ),
        },
    }
}

/// The event that tells the host of a prompt that failed.
pub open spec fn error_event(text: Seq<char>) -> Event {
    Event {
        name: "CogError"@,
        payload: Json::object1("message"@, Json::String("prompt request failed: "@ + text)),
    }
}

/// What the agent gets for a request whose wait was given up.
pub open spec fn abandoned_result(category: Category) -> Result<Json, Seq<char>> {
    match category {
        Category::Read => Ok(Json::object1("content"@, Json::String(Seq::empty()))),
        Category::Write => Err("write failed"@),
        Category::Permission => Ok(Json::object1("optionId"@, Json::String(Seq::empty()))),
        Category::Tool => Err("tool failed"@),
    }
}

/// What the agent gets for a request that the bridge does not support.
pub open spec fn unsupported_result() -> Result<Json, Seq<char>> {
    Err("unsupported method"@)
}

/// An answer to a request of the agent: where it goes, the id of the request,
/// and the result or the message of the error.
#[derive(Debug, PartialEq, Eq)]
pub struct AgentReply<C> {
    pub route: C,
    pub id: u64,
    pub result: Result<JsonValue, String>,
}

/// The mathematical content of an [`AgentReply`].
pub struct Reply<C> {
    pub route: C,
    pub id: u64,
    pub result: Result<Json, Seq<char>>,
}

/// The content of a result.
pub open spec fn result_view(result: Result<JsonValue, String>) -> Result<Json, Seq<char>> {
    match result {
        Ok(v) => Ok(v@),
        Err(m) => Err(m@),
    }
}

impl<C> View for AgentReply<C> {
    type V = Reply<C>;

    open spec fn view(&self) -> Reply<C> {
        Reply { route: self.route, id: self.id, result: result_view(self.result) }
    }
}

/// What the bridge does with a message of the agent: the event that the host
/// is told, and the answer that the agent gets at once.
#[derive(Debug, PartialEq, Eq)]
pub struct InboundStep<C> {
    pub event: Option<HostEvent>,
    pub reply: Option<AgentReply<C>>,
}

/// The mathematical content of an [`InboundStep`].
pub struct Step<C> {
    pub event: Option<Event>,
    pub reply: Option<Reply<C>>,
}

/// The content of an event that may be missing.
pub open spec fn event_view(event: Option<HostEvent>) -> Option<Event> {
    match event {
        Some(e) => Some(e@),
        None => None,
    }
}

/// The content of an answer that may be missing.
pub open spec fn reply_view<C>(reply: Option<AgentReply<C>>) -> Option<Reply<C>> {
    match reply {
        Some(r) => Some(r@),
        None => None,
    }
}

impl<C> View for InboundStep<C> {
    type V = Step<C>;

    open spec fn view(&self) -> Step<C> {
        Step { event: event_view(self.event), reply: reply_view(self.reply) }
    }
}

/// Why a command of the host fails before anything is done.
#[derive(Clone, Copy, Debug, PartialEq, Eq, Structural)]
pub enum BridgeError {
    /// There is no connection to an agent.
    NotConnected,
    /// `connect` names no program.
    CommandRequired,
    /// `session-load` names no session.
    SessionIdRequired,
}

impl BridgeError {
    /// The error in words.
    pub open spec fn spec_message(self) -> Seq<char> {
        match self {
            BridgeError::NotConnected => "not connected"@,
            BridgeError::CommandRequired => "command is required"@,
            BridgeError::SessionIdRequired => "session_id required"@,
        }
    }

    /// The error in words.
    pub fn message(&self) -> (r: String)
        ensures
            r@ == self.spec_message(),
    {
        match self {
            BridgeError::NotConnected => "not connected".to_owned(),
            BridgeError::CommandRequired => "command is required".to_owned(),
            BridgeError::SessionIdRequired => "session_id required".to_owned(),
        }
    }
}

/// What the host gets for a call to the agent that came back with a result.
#[derive(Clone, Copy, Debug, PartialEq, Eq, Structural)]
pub enum ReplyShape {
    /// The agent's result.
    Result,
    /// `true`, whatever the agent's result is.
    Ack,
}

/// What is to be done for a command of the host.
#[derive(Debug, PartialEq, Eq)]
#[allow(inconsistent_fields)]
pub enum Plan<C> {
    /// Answer the host, and nothing else.
    Answer(Result<MsgpackValue, BridgeError>),
    /// Start the agent, attach the connection, shake hands, and answer with
    /// what comes of it.
    Spawn { command: Vec<String>, env: Vec<(String, String)>, cwd: Option<String>, handshake: AgentCall },
    /// Answer `true`; where a connection was taken out, send it the notice and
    /// tear it down.
    Shutdown { connection: Option<C>, notice: AgentCall },
    /// Call the agent, wait for the reply, and answer as `reply` says.
    Call { call: AgentCall, reply: ReplyShape },
    /// Answer `true` at once, and call the agent without waiting; a failure is
    /// told to the host as an event.
    Dispatch { call: AgentCall },
    /// Answer `true`; where a request was waiting, send the agent its answer.
    Deliver { reply: Option<AgentReply<C>> },
}

/// The mathematical content of a [`Plan`].
#[allow(inconsistent_fields)]
pub enum Todo<C> {
    Answer(Result<Msgpack, BridgeError>),
    Spawn {
        command: Seq<Seq<char>>,
        env: Seq<(Seq<char>, Seq<char>)>,
        cwd: Option<Seq<char>>,
        handshake: Call,
    },
    Shutdown { connection: Option<C>, notice: Call },
    Call { call: Call, reply: ReplyShape },
    Dispatch { call: Call },
    Deliver { reply: Option<Reply<C>> },
}

/// The content of an answer to the host.
pub open spec fn answer_view(answer: Result<MsgpackValue, BridgeError>) -> Result<
    Msgpack,
    BridgeError,
> {
    match answer {
        Ok(v) => Ok(v@),
        Err(e) => Err(e),
    }
}

impl<C> View for Plan<C> {
    type V = Todo<C>;

    open spec fn view(&self) -> Todo<C> {
        match self {
            Plan::Answer(answer) => Todo::Answer(answer_view(*answer)),
            Plan::Spawn { command, env, cwd, handshake } => Todo::Spawn {
                command: texts_view(command@),
                env: pairs_view(env@),
                cwd: crate::commands::text_view(*cwd),
                handshake: handshake@,
            },
            Plan::Shutdown { connection, notice } => Todo::Shutdown {
                connection: *connection,
                notice: notice@,
            },
            Plan::Call { call, reply } => Todo::Call { call: call@, reply: *reply },
            Plan::Dispatch { call } => Todo::Dispatch { call: call@ },
            Plan::Deliver { reply } => Todo::Deliver { reply: reply_view(*reply) },
        }
    }
}

impl<C> Todo<C> {
    /// What the host is answered before any outside work is done, where it is
    /// answered that early: `true` for a shutdown, a dispatched prompt and a
    /// delivery.
    pub open spec fn immediate_answer(self) -> Option<Result<Msgpack, BridgeError>> {
        match self {
            Todo::Answer(answer) => Some(answer),
            Todo::Spawn { .. } => None,
            Todo::Shutdown { .. } => Some(Ok(Msgpack::Boolean(true))),
            Todo::Call { .. } => None,
            Todo::Dispatch { .. } => Some(Ok(Msgpack::Boolean(true))),
            Todo::Deliver { .. } => Some(Ok(Msgpack::Boolean(true))),
        }
    }
}

impl<C> Plan<C> {
    /// What the host is answered before any outside work is done, where it is
    /// answered that early.
    pub fn immediate_answer(&self) -> (r: Option<Result<MsgpackValue, BridgeError>>)
        ensures
            match r {
                Some(answer) => self@.immediate_answer() == Some(answer_view(answer)),
                None => self@.immediate_answer() is None,
            },
    {
        match self {
            Plan::Answer(Ok(v)) => Some(Ok(v.clone())),
            Plan::Answer(Err(e)) => Some(Err(*e)),
            Plan::Spawn { .. } => None,
            Plan::Shutdown { .. } => Some(Ok(MsgpackValue::Boolean(true))),
            Plan::Call { .. } => None,
            Plan::Dispatch { .. } => Some(Ok(MsgpackValue::Boolean(true))),
            Plan::Deliver { .. } => Some(Ok(MsgpackValue::Boolean(true))),
        }
    }
}

/// Where the connection to the agent stands.
#[derive(Clone, Copy, Debug, PartialEq, Eq, Structural)]
pub enum Phase {
    /// There is no connection.
    Disconnected,
    /// The agent runs; the handshake has not succeeded yet.
    Connecting,
    /// The handshake has succeeded.
    Ready,
}

/// The mathematical content of an [`AppState`]: the one connection, if there
/// is one, and the requests of the agent that wait for the host, by kind and
/// id, each with the route on which its answer goes back.
pub struct Bridge<C> {
    pub connection: Option<C>,
    pub ready: bool,
    pub epoch: u64,
    pub permission: Map<u64, C>,
    pub read: Map<u64, C>,
    pub write: Map<u64, C>,
    pub tool: Map<u64, C>,
}

impl<C> Bridge<C> {
    /// Where the connection stands.
    pub open spec fn phase(self) -> Phase {
        if self.connection is None {
            Phase::Disconnected
        } else if self.ready {
            Phase::Ready
        } else {
            Phase::Connecting
        }
    }

    /// The requests of one kind that wait for the host.
    pub open spec fn table(self, category: Category) -> Map<u64, C> {
        match category {
            Category::Permission => self.permission,
            Category::Read => self.read,
            Category::Write => self.write,
            Category::Tool => self.tool,
        }
    }

    /// The same state with another table for one kind.
    pub open spec fn with_table(self, category: Category, table: Map<u64, C>) -> Bridge<C> {
        match category {
            Category::Permission => Bridge { permission: table, ..self },
            Category::Read => Bridge { read: table, ..self },
            Category::Write => Bridge { write: table, ..self },
            Category::Tool => Bridge { tool: table, ..self },
        }
    }

    /// The state of a bridge that has just started.
    pub open spec fn initial() -> Bridge<C> {
        Bridge {
            connection: None,
            ready: false,
            epoch: 0,
            permission: Map::empty(),
            read: Map::empty(),
            write: Map::empty(),
            tool: Map::empty(),
        }
    }
}

/// The number of the connection after the one numbered `epoch`.
pub open spec fn next_epoch(epoch: u64) -> u64 {
    if epoch == u64::MAX {
        0
    } else {
        (epoch + 1) as u64
    }
}

/// The state once a connection has been attached: it takes the slot,
/// whatever was there, and its handshake is still to come. The waiting
/// requests stay as they are.
pub open spec fn attached<C>(state: Bridge<C>, connection: C) -> Bridge<C> {
    Bridge {
        connection: Some(connection),
        ready: false,
        epoch: next_epoch(state.epoch),
        ..state
    }
}

/// The state once the handshake of the connection numbered `epoch` has
/// succeeded: that connection is ready, if it is still the one in the slot.
pub open spec fn greeted<C>(state: Bridge<C>, epoch: u64) -> Bridge<C> {
    if state.connection is Some && state.epoch == epoch {
        Bridge { ready: true, ..state }
    } else {
        state
    }
}

/// What the bridge does with a message of the agent that came on `route`.
///
/// A notification becomes an event. A request of a supported kind waits in
/// the table of its kind, under its id, and becomes an event; a request that
/// was waiting there under the same id is given up and answered as such. Any
/// other request is answered with an error at once, and the host hears
/// nothing of it.
pub open spec fn inbound_step<C>(state: Bridge<C>, message: Inbound, route: C) -> (
    Bridge<C>,
    Step<C>,
) {
    match message {
        Inbound::Notification { method, params } => (
            state,
            Step { event: Some(notification_event(method, params)), reply: None },
        ),
        Inbound::Request { id, method, params } => match category_of(method) {
            Some(category) => (
                state.with_table(category, state.table(category).insert(id, route)),
                Step {
                    event: Some(request_event(category, id, method, params)),
                    reply: match slot_of(state.table(category), id) {
                        Some(given_up) => Some(
                            Reply { route: given_up, id, result: abandoned_result(category) },
                        ),
                        None => None,
                    },
                },
            ),
            None => (
                state,
                Step { event: None, reply: Some(Reply { route, id, result: unsupported_result() }) },
            ),
        },
    }
}

/// What the agent gets once the host has chosen an option.
pub open spec fn permission_result(option_id: Seq<char>) -> Result<Json, Seq<char>> {
    Ok(Json::object1("optionId"@, Json::String(option_id)))
}

/// What the agent gets once the host has read a file for it.
pub open spec fn read_result(content: Seq<char>) -> Result<Json, Seq<char>> {
    Ok(Json::object1("content"@, Json::String(content)))
}

/// What the agent gets once the host has written a file for it: an empty
/// result, or the host's message as an error.
pub open spec fn write_result(success: bool, message: Option<Seq<char>>) -> Result<
    Json,
    Seq<char>,
> {
    if success {
        Ok(Json::Object(Seq::empty()))
    } else {
        Err(
            match message {
                Some(m) => m,
                None => "unknown error"@,
            },
        )
    }
}

/// What the agent gets once the host has run a tool for it: the host's
/// result or error as it is.
pub open spec fn tool_result(ok: bool, result: Option<Json>, error: Option<Seq<char>>) -> Result<
    Json,
    Seq<char>,
> {
    if ok {
        Ok(
            match result {
                Some(v) => v,
                None => Json::Null,
            },
        )
    } else {
        Err(
            match error {
                Some(e) => e,
                None => "tool error"@,
            },
        )
    }
}

/// The answer of the host to a request of the agent: the kind and the id of
/// the request, and what the agent gets. Other commands are no answers.
pub open spec fn host_answer(ask: Ask) -> Option<(Category, u64, Result<Json, Seq<char>>)> {
    match ask {
        Ask::PermissionRespond { request_id, option_id } => Some(
            (Category::Permission, request_id, permission_result(option_id)),
        ),
        Ask::FileReadResponse { request_id, content } => Some(
            (Category::Read, request_id, read_result(content)),
        ),
        Ask::FileWriteResponse { request_id, success, message } => Some(
            (Category::Write, request_id, write_result(success, message)),
        ),
        Ask::ToolResponse { request_id, ok, result, error } => Some(
            (Category::Tool, request_id, tool_result(ok, result, error)),
        ),
        _ => None,
    }
}

/// The state and the plan once the host has answered the request `id` of a
/// kind: the request leaves its table, and its answer goes back on the route
/// it came on. Where no such request waits, nothing changes and nothing is
/// sent.
pub open spec fn delivered<C>(
    state: Bridge<C>,
    category: Category,
    id: u64,
    result: Result<Json, Seq<char>>,
) -> (Bridge<C>, Todo<C>) {
    (
        state.with_table(category, state.table(category).remove(id)),
        Todo::Deliver {
            reply: match slot_of(state.table(category), id) {
                Some(route) => Some(Reply { route, id, result }),
                None => None,
            },
        },
    )
}

/// The plan for a command that needs a connection: the error where there is
/// none.
pub open spec fn with_connection<C>(state: Bridge<C>, todo: Todo<C>) -> Todo<C> {
    if state.connection is Some {
        todo
    } else {
        Todo::Answer(Err(BridgeError::NotConnected))
    }
}

/// The state and the plan for a command of the host.
pub open spec fn planned<C>(state: Bridge<C>, ask: Ask) -> (Bridge<C>, Todo<C>) {
    match ask {
        Ask::Connect { command, env, cwd, protocol_version } => (
            state,
            if command.len() == 0 {
                Todo::Answer(Err(BridgeError::CommandRequired))
            } else {
                Todo::Spawn {
                    command,
                    env: match env {
                        Some(pairs) => pairs,
                        None => Seq::empty(),
                    },
                    cwd,
                    handshake: initialize_call(protocol_version),
                }
            },
        ),
        Ask::Disconnect => (
            Bridge { connection: None, ready: false, ..state },
            Todo::Shutdown { connection: state.connection, notice: disconnect_notice() },
        ),
        Ask::SessionNew { cwd } => (
            state,
            with_connection(
                state,
                Todo::Call { call: session_new_call(cwd), reply: ReplyShape::Result },
            ),
        ),
        Ask::SessionLoad { session_id } => (
            state,
            match session_id {
                None => Todo::Answer(Err(BridgeError::SessionIdRequired)),
                Some(id) => with_connection(
                    state,
                    Todo::Call { call: session_load_call(id), reply: ReplyShape::Result },
                ),
            },
        ),
        Ask::Prompt { session_id, content } => (
            state,
            with_connection(state, Todo::Dispatch { call: prompt_call(session_id, content) }),
        ),
        Ask::Cancel { session_id } => (
            state,
            with_connection(
                state,
                Todo::Call { call: cancel_call(session_id), reply: ReplyShape::Ack },
            ),
        ),
        Ask::SetMode { session_id, mode_id } => (
            state,
            with_connection(
                state,
                Todo::Call { call: set_mode_call(session_id, mode_id), reply: ReplyShape::Ack },
            ),
        ),
        Ask::SetModel { session_id, model_id } => (
            state,
            with_connection(
                state,
                Todo::Call { call: set_model_call(session_id, model_id), reply: ReplyShape::Ack },
            ),
        ),
        Ask::PermissionRespond { request_id, option_id } => delivered(
            state,
            Category::Permission,
            request_id,
            permission_result(option_id),
        ),
        Ask::FileReadResponse { request_id, content } => delivered(
            state,
            Category::Read,
            request_id,
            read_result(content),
        ),
        Ask::FileWriteResponse { request_id, success, message } => delivered(
            state,
            Category::Write,
            request_id,
            write_result(success, message),
        ),
        Ask::ToolResponse { request_id, ok, result, error } => delivered(
            state,
            Category::Tool,
            request_id,
            tool_result(ok, result, error),
        ),
    }
}

/// The state of the bridge: the slot of the one connection, and the requests
/// of the agent that wait for an answer of the host. `C` is the handle of a
/// connection.
pub struct AppState<C> {
    acp: Option<C>,
    ready: bool,
    epoch: u64,
    pending_permission: PendingTable<C>,
    pending_read: PendingTable<C>,
    pending_write: PendingTable<C>,
    pending_tool: PendingTable<C>,
}

impl<C> View for AppState<C> {
    type V = Bridge<C>;

    closed spec fn view(&self) -> Bridge<C> {
        Bridge {
            connection: self.acp,
            ready: self.ready,
            epoch: self.epoch,
            permission: self.pending_permission@,
            read: self.pending_read@,
            write: self.pending_write@,
            tool: self.pending_tool@,
        }
    }
}

/// The event for a notification of the agent.
pub fn build_notification_event(method: String, params: JsonValue) -> (r: HostEvent)
    ensures
        r@ == notification_event(method@, params@),
{
    if str_eq(method.as_str(), "session/update") {
        HostEvent { name: "CogSessionUpdate".to_owned(), payload: params }
    } else {
        HostEvent {
            name: "CogAcpNotification".to_owned(),
            payload: JsonValue::object2("method", JsonValue::String(method), "params", params),
        }
    }
}

/// The event for a request of the agent that the host has to answer.
pub fn build_request_event(category: Category, id: u64, method: String, params: JsonValue) -> (r:
    HostEvent)
    ensures
        r@ == request_event(category, id, method@, params@),
{
    match category {
        Category::Read => {
            let path = params.str_or_empty("path");
            let line = params.get_or_null("line");
            let limit = params.get_or_null("limit");
            HostEvent {
                name: "CogFileRead".to_owned(),
                payload: JsonValue::object4(
                    "limit",
                    limit,
                    "line",
                    line,
                    "path",
                    JsonValue::String(path),
                    "request_id",
                    JsonValue::unsigned(id),
                ),
            }
        },
        Category::Write => {
            let path = params.str_or_empty("path");
            let content = params.str_or_empty("content");
            HostEvent {
                name: "CogFileWrite".to_owned(),
                payload: JsonValue::object3(
                    "content",
                    JsonValue::String(content),
                    "path",
                    JsonValue::String(path),
                    "request_id",
                    JsonValue::unsigned(id),
                ),
            }
        },
        Category::Permission => HostEvent {
            name: "CogPermissionRequest".to_owned(),
            payload: JsonValue::object2(
                "params",
                params,
                "request_id",
                JsonValue::unsigned(id),
            ),
        },
        Category::Tool => HostEvent {
            name: "CogToolRequest".to_owned(),
            payload: JsonValue::object3(
                "method",
                JsonValue::String(method),
                "params",
                params,
                "request_id",
                JsonValue::unsigned(id),
            ),
        },
    }
}

/// What the agent gets for a request whose wait was given up.
pub fn build_abandoned_result(category: Category) -> (r: Result<JsonValue, String>)
    ensures
        result_view(r) == abandoned_result(category),
{
    match category {
        Category::Read => Ok(JsonValue::object1("content", JsonValue::String(String::new()))),
        Category::Write => Err("write failed".to_owned()),
        Category::Permission => Ok(
            JsonValue::object1("optionId", JsonValue::String(String::new())),
        ),
        Category::Tool => Err("tool failed".to_owned()),
    }
}

impl<C> AppState<C> {
    /// The state of a bridge that has just started: no connection, nothing
    /// waits.
    pub fn new() -> (r: AppState<C>)
        ensures
            r@ == Bridge::<C>::initial(),
    {
        AppState {
            acp: None,
            ready: false,
            epoch: 0,
            pending_permission: PendingTable::new(),
            pending_read: PendingTable::new(),
            pending_write: PendingTable::new(),
            pending_tool: PendingTable::new(),
        }
    }

    /// Where the connection stands.
    pub fn phase(&self) -> (r: Phase)
        ensures
            r == self@.phase(),
    {
        match &self.acp {
            None => Phase::Disconnected,
            Some(_) => if self.ready {
                Phase::Ready
            } else {
                Phase::Connecting
            },
        }
    }

    /// The connection, or the error where there is none.
    pub fn get_client(&self) -> (r: Result<&C, BridgeError>)
        ensures
            match r {
                Ok(c) => self@.connection == Some(*c),
                Err(e) => self@.connection is None && e == BridgeError::NotConnected,
            },
    {
        match &self.acp {
            Some(c) => Ok(c),
            None => Err(BridgeError::NotConnected),
        }
    }

    /// Whether a request of the agent of the given kind waits under `id`.
    pub fn is_waiting(&self, category: Category, id: u64) -> (r: bool)
        ensures
            r == self@.table(category).contains_key(id),
    {
        match category {
            Category::Permission => self.pending_permission.contains(id),
            Category::Read => self.pending_read.contains(id),
            Category::Write => self.pending_write.contains(id),
            Category::Tool => self.pending_tool.contains(id),
        }
    }

    /// Puts a connection into the slot. Returns its number, by which its
    /// handshake is told from an earlier one, and the connection that was in
    /// the slot, which is to be torn down. The requests that wait keep their
    /// routes: what was bound to the old connection ends on it.
    pub fn attach(&mut self, connection: C) -> (r: (u64, Option<C>))
        ensures
            final(self)@ == attached(old(self)@, connection),
            r.0 == final(self)@.epoch,
            r.1 == old(self)@.connection,
    {
        let epoch = if self.epoch == u64::MAX {
            0
        } else {
            self.epoch + 1
        };
        let mut slot = Some(connection);
        std::mem::swap(&mut self.acp, &mut slot);
        self.ready = false;
        self.epoch = epoch;
        (epoch, slot)
    }

    /// Notes that the handshake of the connection numbered `epoch` has
    /// succeeded. A handshake of a connection that has left the slot since
    /// changes nothing.
    pub fn handshake_succeeded(&mut self, epoch: u64)
        ensures
            final(self)@ == greeted(old(self)@, epoch),
    {
        if self.acp.is_some() && self.epoch == epoch {
            self.ready = true;
        }
    }

    fn register(&mut self, category: Category, id: u64, route: C) -> (r: Option<C>)
        ensures
            final(self)@ == old(self)@.with_table(
                category,
                old(self)@.table(category).insert(id, route),
            ),
            r == slot_of(old(self)@.table(category), id),
    {
        match category {
            Category::Permission => self.pending_permission.register(id, route),
            Category::Read => self.pending_read.register(id, route),
            Category::Write => self.pending_write.register(id, route),
            Category::Tool => self.pending_tool.register(id, route),
        }
    }

    fn resolve(&mut self, category: Category, id: u64) -> (r: Option<C>)
        ensures
            final(self)@ == old(self)@.with_table(category, old(self)@.table(category).remove(id)),
            r == slot_of(old(self)@.table(category), id),
    {
        match category {
            Category::Permission => self.pending_permission.resolve(id),
            Category::Read => self.pending_read.resolve(id),
            Category::Write => self.pending_write.resolve(id),
            Category::Tool => self.pending_tool.resolve(id),
        }
    }

    /// Handles a message of the agent that came on `route`.
    pub fn handle_acp_inbound(&mut self, message: AcpInbound, route: C) -> (r: InboundStep<C>)
        ensures
            (final(self)@, r@) == inbound_step(old(self)@, message@, route),
    {
        match message {
            AcpInbound::Notification { method, params } => InboundStep {
                event: Some(build_notification_event(method, params)),
                reply: None,
            },
            AcpInbound::Request { id, method, params } => match category(method.as_str()) {
                Some(category) => {
                    let event = build_request_event(category, id, method, params);
                    let reply = match self.register(category, id, route) {
                        Some(given_up) => Some(
                            AgentReply {
                                route: given_up,
                                id,
                                result: build_abandoned_result(category),
                            },
                        ),
                        None => None,
                    };
                    InboundStep { event: Some(event), reply }
                },
                None => InboundStep {
                    event: None,
                    reply: Some(
                        AgentReply { route, id, result: Err("unsupported method".to_owned()) },
                    ),
                },
            },
        }
    }

    fn deliver(&mut self, category: Category, id: u64, result: Result<JsonValue, String>) -> (r:
        Plan<C>)
        ensures
            (final(self)@, r@) == delivered(old(self)@, category, id, result_view(result)),
    {
        match self.resolve(category, id) {
            Some(route) => Plan::Deliver { reply: Some(AgentReply { route, id, result }) },
            None => Plan::Deliver { reply: None },
        }
    }

    fn call(&self, call: AgentCall, reply: ReplyShape) -> (r: Plan<C>)
        ensures
            r@ == with_connection(self@, Todo::Call { call: call@, reply }),
    {
        match &self.acp {
            Some(_) => Plan::Call { call, reply },
            None => Plan::Answer(Err(BridgeError::NotConnected)),
        }
    }

    /// `connect`: the agent is to be started with the given program, and
    /// greeted with the handshake. The state changes only once the agent
    /// runs: see [`AppState::attach`].
    pub fn handle_connect(
        &self,
        command: Vec<String>,
        env: Option<Vec<(String, String)>>,
        cwd: Option<String>,
        protocol_version: Option<String>,
    ) -> (r: Plan<C>)
        ensures
            r@ == planned(
                self@,
                (HostCommand::Connect { command, env, cwd, protocol_version })@,
            ).1,
    {
        if command.len() == 0 {
            return Plan::Answer(Err(BridgeError::CommandRequired));
        }
        let handshake = build_initialize(&protocol_version);
        let env = match env {
            Some(pairs) => pairs,
            None => {
                let none: Vec<(String, String)> = Vec::new();
                assert(pairs_view(none@) =~= Seq::empty());
                none
            },
        };
        Plan::Spawn { command, env, cwd, handshake }
    }

    /// `disconnect`: the connection leaves the slot and is handed out to be
    /// told and torn down.
    pub fn handle_disconnect(&mut self) -> (r: Plan<C>)
        ensures
            (final(self)@, r@) == planned(old(self)@, Ask::Disconnect),
    {
        let mut slot = None;
        std::mem::swap(&mut self.acp, &mut slot);
        self.ready = false;
        Plan::Shutdown { connection: slot, notice: build_disconnect_notice() }
    }

    /// `session-new`.
    pub fn handle_session_new(&self, cwd: Option<String>) -> (r: Plan<C>)
        ensures
            r@ == planned(self@, (HostCommand::SessionNew { cwd })@).1,
    {
        self.call(build_session_new(&cwd), ReplyShape::Result)
    }

    /// `session-load`: a session must be named, and is asked for before the
    /// connection is.
    pub fn handle_session_load(&self, session_id: Option<String>) -> (r: Plan<C>)
        ensures
            r@ == planned(self@, (HostCommand::SessionLoad { session_id })@).1,
    {
        match session_id {
            None => Plan::Answer(Err(BridgeError::SessionIdRequired)),
            Some(id) => self.call(build_session_load(id.as_str()), ReplyShape::Result),
        }
    }

    /// `prompt`: the host is answered at once; the agent's reply is looked at
    /// only to tell the host of a failure.
    pub fn handle_prompt(&self, session_id: String, content: String) -> (r: Plan<C>)
        ensures
            r@ == planned(self@, (HostCommand::Prompt { session_id, content })@).1,
    {
        match &self.acp {
            Some(_) => Plan::Dispatch { call: build_prompt(session_id.as_str(), content.as_str()) },
            None => Plan::Answer(Err(BridgeError::NotConnected)),
        }
    }

    /// `cancel`.
    pub fn handle_cancel(&self, session_id: String) -> (r: Plan<C>)
        ensures
            r@ == planned(self@, (HostCommand::Cancel { session_id })@).1,
    {
        self.call(build_cancel(session_id.as_str()), ReplyShape::Ack)
    }

    /// `set-mode`.
    pub fn handle_set_mode(&self, session_id: String, mode_id: String) -> (r: Plan<C>)
        ensures
            r@ == planned(self@, (HostCommand::SetMode { session_id, mode_id })@).1,
    {
        self.call(build_set_mode(session_id.as_str(), mode_id.as_str()), ReplyShape::Ack)
    }

    /// `set-model`.
    pub fn handle_set_model(&self, session_id: String, model_id: String) -> (r: Plan<C>)
        ensures
            r@ == planned(self@, (HostCommand::SetModel { session_id, model_id })@).1,
    {
        self.call(build_set_model(session_id.as_str(), model_id.as_str()), ReplyShape::Ack)
    }

    /// `permission-respond`: the agent gets the option that was chosen.
    pub fn handle_permission_response(&mut self, request_id: u64, option_id: String) -> (r: Plan<C>)
        ensures
            (final(self)@, r@) == planned(
                old(self)@,
                (HostCommand::PermissionRespond { request_id, option_id })@,
            ),
    {
        let result = Ok(JsonValue::object1("optionId", JsonValue::String(option_id)));
        self.deliver(Category::Permission, request_id, result)
    }

    /// `file-read-response`: the agent gets the content.
    pub fn handle_file_read_response(&mut self, request_id: u64, content: String) -> (r: Plan<C>)
        ensures
            (final(self)@, r@) == planned(
                old(self)@,
                (HostCommand::FileReadResponse { request_id, content })@,
            ),
    {
        let result = Ok(JsonValue::object1("content", JsonValue::String(content)));
        self.deliver(Category::Read, request_id, result)
    }

    /// `file-write-response`: the agent gets an empty result, or the host's
    /// message as an error.
    pub fn handle_file_write_response(
        &mut self,
        request_id: u64,
        success: bool,
        message: Option<String>,
    ) -> (r: Plan<C>)
        ensures
            (final(self)@, r@) == planned(
                old(self)@,
                (HostCommand::FileWriteResponse { request_id, success, message })@,
            ),
    {
        let result = if success {
            Ok(JsonValue::empty_object())
        } else {
            Err(
                match message {
                    Some(m) => m,
                    None => "unknown error".to_owned(),
                },
            )
        };
        self.deliver(Category::Write, request_id, result)
    }

    /// `tool-response`: the agent gets the host's result or error as it is.
    pub fn handle_tool_response(
        &mut self,
        request_id: u64,
        ok: bool,
        result: Option<JsonValue>,
        error: Option<String>,
    ) -> (r: Plan<C>)
        ensures
            (final(self)@, r@) == planned(
                old(self)@,
                (HostCommand::ToolResponse { request_id, ok, result, error })@,
            ),
    {
        let outcome = if ok {
            Ok(
                match result {
                    Some(v) => v,
                    None => JsonValue::Null,
                },
            )
        } else {
            Err(
                match error {
                    Some(e) => e,
                    None => "tool error".to_owned(),
                },
            )
        };
        self.deliver(Category::Tool, request_id, outcome)
    }

    /// Plans a command of the host.
    pub fn handle_request(&mut self, command: HostCommand) -> (r: Plan<C>)
        ensures
            (final(self)@, r@) == planned(old(self)@, command@),
    {
        match command {
            HostCommand::Connect { command, env, cwd, protocol_version } => self.handle_connect(
                command,
                env,
                cwd,
                protocol_version,
            ),
            HostCommand::Disconnect => self.handle_disconnect(),
            HostCommand::SessionNew { cwd } => self.handle_session_new(cwd),
            HostCommand::SessionLoad { session_id } => self.handle_session_load(session_id),
            HostCommand::Prompt { session_id, content } => self.handle_prompt(session_id, content),
            HostCommand::Cancel { session_id } => self.handle_cancel(session_id),
            HostCommand::PermissionRespond {
                request_id,
                option_id,
            } => self.handle_permission_response(request_id, option_id),
            HostCommand::FileReadResponse { request_id, content } => self.handle_file_read_response(
                request_id,
                content,
            ),
            HostCommand::FileWriteResponse {
                request_id,
                success,
                message,
            } => self.handle_file_write_response(request_id, success, message),
            HostCommand::ToolResponse { request_id, ok, result, error } => self.handle_tool_response(
                request_id,
                ok,
                result,
                error,
            ),
            HostCommand::SetMode { session_id, mode_id } => self.handle_set_mode(
                session_id,
                mode_id,
            ),
            HostCommand::SetModel { session_id, model_id } => self.handle_set_model(
                session_id,
                model_id,
            ),
        }
    }
}

/// A request of the agent that the host answers once gets that answer, on the
/// route it came on and under its own id, and then waits no more: a second
/// answer to it finds nothing and sends nothing.
pub proof fn law_request_then_answer<C>(
    state: Bridge<C>,
    id: u64,
    method: Seq<char>,
    params: Json,
    route: C,
    ask: Ask,
)
    requires
        category_of(method) is Some,
        host_answer(ask) is Some,
        host_answer(ask).unwrap().0 == category_of(method).unwrap(),
        host_answer(ask).unwrap().1 == id,
    ensures
        ({
            let waiting = inbound_step(state, Inbound::Request { id, method, params }, route).0;
            let once = planned(waiting, ask);
            let twice = planned(once.0, ask);
            &&& once.1 == Todo::Deliver {
                reply: Some(Reply { route, id, result: host_answer(ask).unwrap().2 }),
            }
            &&& !once.0.table(category_of(method).unwrap()).contains_key(id)
            &&& twice.1 == Todo::<C>::Deliver { reply: None }
            &&& twice.0 == once.0
        }),
{
    let category = category_of(method).unwrap();
    let waiting = inbound_step(state, Inbound::Request { id, method, params }, route).0;
    let once = planned(waiting, ask);
    assert(once.0.table(category).remove(id) =~= once.0.table(category));
}

/// An answer of the host to a request that does not wait changes nothing and
/// sends nothing.
pub proof fn law_answer_without_request<C>(state: Bridge<C>, ask: Ask)
    requires
        host_answer(ask) is Some,
        !state.table(host_answer(ask).unwrap().0).contains_key(host_answer(ask).unwrap().1),
    ensures
        planned(state, ask) == (state, Todo::<C>::Deliver { reply: None }),
{
    let (category, id, result) = host_answer(ask).unwrap();
    assert(state.table(category).remove(id) =~= state.table(category));
}

/// Two answers of the host to two different requests can come in either
/// order: each request gets its own answer, and the state is the same in the
/// end.
pub proof fn law_answers_in_any_order<C>(state: Bridge<C>, first: Ask, second: Ask)
    requires
        host_answer(first) is Some,
        host_answer(second) is Some,
        host_answer(first).unwrap().0 != host_answer(second).unwrap().0 || host_answer(
            first,
        ).unwrap().1 != host_answer(second).unwrap().1,
    ensures
        planned(planned(state, first).0, second).1 == planned(state, second).1,
        planned(planned(state, second).0, first).1 == planned(state, first).1,
        planned(planned(state, first).0, second).0 == planned(planned(state, second).0, first).0,
{
    let (c1, i1, r1) = host_answer(first).unwrap();
    let (c2, i2, r2) = host_answer(second).unwrap();
    let a = planned(planned(state, first).0, second).0;
    let b = planned(planned(state, second).0, first).0;
    assert(a.permission =~= b.permission);
    assert(a.read =~= b.read);
    assert(a.write =~= b.write);
    assert(a.tool =~= b.tool);
}

/// Putting another connection into the slot leaves every waiting request
/// with its route: the host's answers go where they would have gone, and a
/// request that comes on the old route is still registered and answered on
/// it.
pub proof fn law_replacement_keeps_routes<C>(
    state: Bridge<C>,
    connection: C,
    ask: Ask,
    message: Inbound,
    route: C,
)
    requires
        host_answer(ask) is Some,
    ensures
        planned(attached(state, connection), ask).1 == planned(state, ask).1,
        planned(attached(state, connection), ask).0 == attached(
            planned(state, ask).0,
            connection,
        ),
        inbound_step(attached(state, connection), message, route).1 == inbound_step(
            state,
            message,
            route,
        ).1,
        inbound_step(attached(state, connection), message, route).0 == attached(
            inbound_step(state, message, route).0,
            connection,
        ),
{
}

/// Without a connection every command but `connect`, `disconnect` and the
/// answers to the agent's requests fails as not connected, unless it fails
/// earlier for want of a session id; with a connection none of them does.
pub proof fn law_not_connected<C>(state: Bridge<C>, ask: Ask)
    requires
        host_answer(ask) is None,
        !(ask is Connect),
        !(ask is Disconnect),
        !(ask matches Ask::SessionLoad { session_id: None }),
    ensures
        state.phase() == Phase::Disconnected <==> planned(state, ask).1 == Todo::<C>::Answer(
            Err(BridgeError::NotConnected),
        ),
        planned(state, ask).0 == state,
{
}

/// The phases follow one another as the connection's life goes: a bridge
/// starts disconnected, attaching a connection makes it connecting, a
/// handshake that succeeds makes it ready, and `disconnect` makes it
/// disconnected again. A second connection may be attached at any time.
pub proof fn law_phases<C>(state: Bridge<C>, connection: C)
    ensures
        Bridge::<C>::initial().phase() == Phase::Disconnected,
        attached(state, connection).phase() == Phase::Connecting,
        greeted(attached(state, connection), attached(state, connection).epoch).phase()
            == Phase::Ready,
        greeted(state, state.epoch).phase() == Phase::Disconnected <==> state.phase()
            == Phase::Disconnected,
        planned(state, Ask::Disconnect).0.phase() == Phase::Disconnected,
        attached(state, connection).epoch != state.epoch,
{
}

} // verus!
