use crate::acp::{id_of, notification_message, request_message, response_message};
use crate::json::{items_view, lemma_object_view, members_view, Json, JsonNumber, JsonValue};
use crate::text::str_eq;
use vstd::prelude::*;

verus! {

/// How long a stand-in agent waits for the answer to its write request, in
/// milliseconds.
pub const WRITE_TIMEOUT_MILLIS: u64 = 5000;

/// The code of the error for a method that a stand-in agent does not know.
pub const METHOD_NOT_FOUND: i64 = -32601;

/// How a scripted stand-in agent is set up.
#[derive(Debug, PartialEq, Eq)]
pub struct StubConfig {
    /// The id of the one session it knows.
    pub session_id: String,
    /// The id of its one tool call.
    pub tool_call_id: String,
    /// The file that it asks the client to write on a prompt, if any.
    pub target_path: Option<String>,
    /// What it asks to be written there.
    pub write_content: String,
    /// How long it waits before it answers a prompt at length, in
    /// milliseconds.
    pub prompt_delay_ms: u64,
}

/// The mathematical content of a [`StubConfig`].
pub struct Config {
    pub session_id: Seq<char>,
    pub tool_call_id: Seq<char>,
    pub target_path: Option<Seq<char>>,
    pub write_content: Seq<char>,
    pub prompt_delay_ms: u64,
}

impl View for StubConfig {
    type V = Config;

    open spec fn view(&self) -> Config {
        Config {
            session_id: self.session_id@,
            tool_call_id: self.tool_call_id@,
            target_path: match self.target_path {
                Some(p) => Some(p@),
                None => None,
            },
            write_content: self.write_content@,
            prompt_delay_ms: self.prompt_delay_ms,
        }
    }
}

/// The set-up for the given settings: what is not set has its default, and a
/// target path that is empty counts as not set.
pub open spec fn configured(
    session_id: Option<Seq<char>>,
    tool_call_id: Option<Seq<char>>,
    target_path: Option<Seq<char>>,
    write_content: Option<Seq<char>>,
    prompt_delay_ms: Option<u64>,
) -> Config {
    Config {
        session_id: match session_id {
            Some(s) => s,
            None => "stub-session"@,
        },
        tool_call_id: match tool_call_id {
            Some(s) => s,
            None => "tool-1"@,
        },
        target_path: match target_path {
            Some(p) => if p.len() == 0 {
                None
            } else {
                Some(p)
            },
            None => None,
        },
        write_content: match write_content {
            Some(s) => s,
            None => "Hello from ACP stub\n"@,
        },
        prompt_delay_ms: match prompt_delay_ms {
            Some(n) => n,
            None => 50,
        },
    }
}

/// The characters of a setting that may be missing.
pub open spec fn setting_view(setting: Option<String>) -> Option<Seq<char>> {
    match setting {
        Some(s) => Some(s@),
        None => None,
    }
}

impl StubConfig {
    /// The set-up for the given settings.
    pub fn from_vars(
        session_id: Option<String>,
        tool_call_id: Option<String>,
        target_path: Option<String>,
        write_content: Option<String>,
        prompt_delay_ms: Option<u64>,
    ) -> (r: StubConfig)
        ensures
            r@ == configured(
                setting_view(session_id),
                setting_view(tool_call_id),
                setting_view(target_path),
                setting_view(write_content),
                prompt_delay_ms,
            ),
    {
        StubConfig {
            session_id: match session_id {
                Some(s) => s,
                None => "stub-session".to_owned(),
            },
            tool_call_id: match tool_call_id {
                Some(s) => s,
                None => "tool-1".to_owned(),
            },
            target_path: match target_path {
                Some(p) => if p.as_str().is_empty() {
                    None
                } else {
                    Some(p)
                },
                None => None,
            },
            write_content: match write_content {
                Some(s) => s,
                None => "Hello from ACP stub\n".to_owned(),
            },
            prompt_delay_ms: match prompt_delay_ms {
                Some(n) => n,
                None => 50,
            },
        }
    }
}

/// What a scripted stand-in agent remembers between two lines of input.
#[derive(Debug, PartialEq, Eq)]
pub struct StubState {
    /// The id that the next request to the client will carry.
    pub next_id: u64,
    /// The id of the write request that the client has not answered yet.
    pub pending_write_id: Option<u64>,
    /// When that request was sent, in milliseconds of a monotonic clock.
    pub waiting_for_write_response_since: Option<u64>,
}

/// What a stand-in agent does next.
#[derive(Debug, PartialEq, Eq)]
pub enum StubAction {
    /// Write this message to the client.
    Send(JsonValue),
    /// Wait for so many milliseconds.
    Sleep(u64),
}

/// The mathematical content of a [`StubAction`].
pub enum Action {
    Send(Json),
    Sleep(u64),
}

impl View for StubAction {
    type V = Action;

    open spec fn view(&self) -> Action {
        match self {
            StubAction::Send(message) => Action::Send(message@),
            StubAction::Sleep(millis) => Action::Sleep(*millis),
        }
    }
}

/// The contents of the actions of a list, one by one.
pub open spec fn actions_view(actions: Seq<StubAction>) -> Seq<Action> {
    Seq::new(actions.len(), |i: int| actions[i]@)
}

/// The error reply to the request `id`.
pub open spec fn error_reply(id: u64, code: i64, message: Seq<char>) -> Json {
    Json::object3(
        "error"@,
        Json::object2(
            "code"@,
            Json::Number(JsonNumber::spec_from_i64(code)),
            "message"@,
            Json::String(message),
        ),
        "id"@,
        Json::Number(JsonNumber::PosInt(id)),
        "jsonrpc"@,
        Json::String("2.0"@),
    )
}

/// The notification of a session update.
pub open spec fn session_update(update: Json) -> Json {
    notification_message("session/update"@, update)
}

/// The update that carries text of the agent, whole or in part.
pub open spec fn text_update(kind: Seq<char>, text: Seq<char>) -> Json {
    Json::object2(
        "text"@,
        Json::String(text),
        "type"@,
        Json::String(kind),
    )
}

/// The members of the tool call, by key: the error where there is one, the
/// kind, the target file where there is one, the status, the title and the
/// id.
pub open spec fn tool_call_members(
    config: Config,
    status: Seq<char>,
    error: Option<Seq<char>>,
) -> Seq<(Seq<char>, Json)> {
    let failed: Seq<(Seq<char>, Json)> = match error {
        Some(e) => seq![("error"@, Json::String(e))],
        None => Seq::empty(),
    };
    let kind = failed.push(("kind"@, Json::String("edit"@)));
    let located = match config.target_path {
        Some(path) => kind.push(
            ("locations"@, Json::Array(seq![Json::object1("path"@, Json::String(path))])),
        ),
        None => kind,
    };
    located.push(("status"@, Json::String(status))).push(
        ("title"@, Json::String("Edit file"@)),
    ).push(("toolCallId"@, Json::String(config.tool_call_id)))
}

/// The session update that tells where the tool call stands.
pub open spec fn tool_call_update(config: Config, status: Seq<char>, error: Option<Seq<char>>) -> Json {
    session_update(
        Json::object3(
            "status"@,
            Json::String(status),
            "toolCall"@,
            Json::Object(tool_call_members(config, status, error)),
            "type"@,
            Json::String("tool_call"@),
        ),
    )
}

/// The request to the client to write the target file.
pub open spec fn write_request(id: u64, path: Seq<char>, content: Seq<char>) -> Json {
    request_message(
        id,
        "fs/write_text_file"@,
        Json::object2(
            "content"@,
            Json::String(content),
            "path"@,
            Json::String(path),
        ),
    )
}

/// What a stand-in agent says of itself in the handshake.
pub open spec fn initialize_result() -> Json {
    Json::object2(
        "capabilities"@,
        Json::object2(
            "fs"@,
            Json::object2("readTextFile"@, Json::Bool(true), "writeTextFile"@, Json::Bool(true)),
            "session"@,
            Json::Object(Seq::empty()),
        ),
        "serverInfo"@,
        Json::object2("name"@, Json::String("acp-stub"@), "version"@, Json::String("0.1.0"@)),
    )
}

/// The actions, and after them the reply to the request `id` where the
/// message has an id: a message without one gets no reply.
pub open spec fn replied(actions: Seq<Action>, id: Option<u64>, result: Json) -> Seq<Action> {
    match id {
        Some(i) => actions.push(Action::Send(response_message(i, Ok(result)))),
        None => actions,
    }
}

/// Whether a message is the client's answer to the write request that waits.
pub open spec fn answers_write(state: StubState, message: Json) -> bool {
    id_of(message) is Some && message.get("method"@) is None && state.pending_write_id == id_of(
        message,
    )
}

/// The state with no write request waiting.
pub open spec fn settled(state: StubState) -> StubState {
    StubState { pending_write_id: None, waiting_for_write_response_since: None, ..state }
}

/// What a stand-in agent does on a prompt: it replies, waits, speaks, starts
/// its tool call, and then asks for the target file to be written, or ends
/// the tool call where it has no target file.
pub open spec fn prompt_step(state: StubState, config: Config, id: Option<u64>, now: u64) -> (
    StubState,
    Seq<Action>,
) {
    let replied = replied(
        Seq::empty(),
        id,
        Json::object1("stopReason"@, Json::String("completed"@)),
    );
    let waited = if config.prompt_delay_ms > 0 {
        replied.push(Action::Sleep(config.prompt_delay_ms))
    } else {
        replied
    };
    let spoken = waited.push(
        Action::Send(session_update(text_update("agent_message_chunk"@, "Stub: "@))),
    ).push(
        Action::Send(session_update(text_update("agent_message"@, "streaming response."@))),
    ).push(Action::Send(tool_call_update(config, "in_progress"@, None)));
    match config.target_path {
        Some(path) => (
            StubState {
                next_id: (state.next_id + 1) as u64,
                pending_write_id: Some(state.next_id),
                waiting_for_write_response_since: Some(now),
            },
            spoken.push(Action::Send(write_request(state.next_id, path, config.write_content))),
        ),
        None => (state, spoken.push(Action::Send(tool_call_update(config, "completed"@, None)))),
    }
}

/// What a stand-in agent does with a message by its method.
pub open spec fn method_step(state: StubState, config: Config, message: Json, now: u64) -> (
    StubState,
    Seq<Action>,
) {
    let method = message.str_or_empty("method"@);
    let id = id_of(message);
    if method == "initialize"@ {
        (state, replied(Seq::empty(), id, initialize_result()))
    } else if method == "session/new"@ || method == "session/load"@ {
        (
            state,
            replied(
                Seq::empty(),
                id,
                Json::object1("sessionId"@, Json::String(config.session_id)),
            ),
        )
    } else if method == "session/set_mode"@ || method == "session/set_model"@ || method
        == "session/cancel"@ {
        (state, replied(Seq::empty(), id, Json::Object(Seq::empty())))
    } else if method == "session/prompt"@ {
        prompt_step(state, config, id, now)
    } else {
        (
            state,
            match id {
                Some(i) => seq![
                    Action::Send(error_reply(i, METHOD_NOT_FOUND, "method not found"@)),
                ],
                None => Seq::empty(),
            },
        )
    }
}

/// Whether the client has taken too long over the write request.
pub open spec fn write_overdue(state: StubState, now: u64) -> bool {
    state.waiting_for_write_response_since matches Some(since) && now - since
        > WRITE_TIMEOUT_MILLIS
}

/// What a stand-in agent does with a message that came at the time `now`.
///
/// The answer to the write request that waits ends the tool call. Any other
/// message is handled by its method; after that, a write request that has
/// waited too long is given up and the tool call fails.
pub open spec fn stub_step(state: StubState, config: Config, message: Json, now: u64) -> (
    StubState,
    Seq<Action>,
) {
    if answers_write(state, message) {
        (
            settled(state),
            seq![
                Action::Send(tool_call_update(config, "completed"@, None)),
                Action::Send(
                    session_update(text_update("agent_message"@, "Write completed via stub."@)),
                ),
            ],
        )
    } else {
        let handled = method_step(state, config, message, now);
        if write_overdue(handled.0, now) {
            (
                settled(handled.0),
                handled.1.push(
                    Action::Send(tool_call_update(config, "failed"@, Some("write timeout"@))),
                ),
            )
        } else {
            handled
        }
    }
}

fn push_send(actions: &mut Vec<StubAction>, message: JsonValue)
    ensures
        actions_view(final(actions)@) == actions_view(old(actions)@).push(Action::Send(message@)),
{
    actions.push(StubAction::Send(message));
}

fn push_reply(actions: &mut Vec<StubAction>, id: Option<u64>, result: JsonValue)
    ensures
        actions_view(final(actions)@) == replied(actions_view(old(actions)@), id, result@),
{
    match id {
        Some(i) => {
            let message = JsonValue::object3(
                "id",
                JsonValue::unsigned(i),
                "jsonrpc",
                JsonValue::string("2.0"),
                "result",
                result,
            );
            push_send(actions, message);
        },
        None => {},
    }
}

fn reply_only(id: Option<u64>, result: JsonValue) -> (r: Vec<StubAction>)
    ensures
        actions_view(r@) == replied(Seq::empty(), id, result@),
{
    let mut actions: Vec<StubAction> = Vec::new();
    push_reply(&mut actions, id, result);
    actions
}

fn build_session_update(update: JsonValue) -> (r: JsonValue)
    ensures
        r@ == session_update(update@),
{
    JsonValue::object3(
        "jsonrpc",
        JsonValue::string("2.0"),
        "method",
        JsonValue::string("session/update"),
        "params",
        update,
    )
}

fn build_text_update(kind: &str, text: &str) -> (r: JsonValue)
    ensures
        r@ == session_update(text_update(kind@, text@)),
{
    build_session_update(
        JsonValue::object2(
            "text",
            JsonValue::string(text),
            "type",
            JsonValue::string(kind),
        ),
    )
}

fn build_tool_call_update(config: &StubConfig, status: &str, error: Option<&str>) -> (r: JsonValue)
    ensures
        r@ == tool_call_update(
            config@,
            status@,
            match error {
                Some(e) => Some(e@),
                None => None,
            },
        ),
{
    let mut members: Vec<(String, JsonValue)> = Vec::new();
    match error {
        Some(e) => {
            members.push(("error".to_owned(), JsonValue::string(e)));
            assert(members_view(members@) =~= seq![("error"@, Json::String(e@))]);
        },
        None => {
            assert(members_view(members@) =~= Seq::empty());
        },
    }
    let ghost failed = members_view(members@);
    members.push(("kind".to_owned(), JsonValue::string("edit")));
    let ghost kind = members_view(members@);
    assert(kind =~= failed.push(("kind"@, Json::String("edit"@))));
    match &config.target_path {
        Some(path) => {
            let place = JsonValue::object1("path", JsonValue::string(path.as_str()));
            let ghost p = place@;
            let mut places: Vec<JsonValue> = Vec::new();
            places.push(place);
            assert(items_view(places@) =~= seq![p]);
            members.push(("locations".to_owned(), JsonValue::array(places)));
            assert(members_view(members@) =~= kind.push(
                ("locations"@, Json::Array(seq![Json::object1("path"@, Json::String(path@))])),
            ));
        },
        None => {},
    }
    let ghost located = members_view(members@);
    members.push(("status".to_owned(), JsonValue::string(status)));
    members.push(("title".to_owned(), JsonValue::string("Edit file")));
    members.push(("toolCallId".to_owned(), JsonValue::string(config.tool_call_id.as_str())));
    assert(members_view(members@) =~= located.push(("status"@, Json::String(status@))).push(
        ("title"@, Json::String("Edit file"@)),
    ).push(("toolCallId"@, Json::String(config.tool_call_id@))));
    proof {
        lemma_object_view(members);
    }
    build_session_update(
        JsonValue::object3(
            "status",
            JsonValue::string(status),
            "toolCall",
            JsonValue::Object(members),
            "type",
            JsonValue::string("tool_call"),
        ),
    )
}

fn build_initialize_result() -> (r: JsonValue)
    ensures
        r@ == initialize_result(),
{
    JsonValue::object2(
        "capabilities",
        JsonValue::object2(
            "fs",
            JsonValue::object2(
                "readTextFile",
                JsonValue::Bool(true),
                "writeTextFile",
                JsonValue::Bool(true),
            ),
            "session",
            JsonValue::empty_object(),
        ),
        "serverInfo",
        JsonValue::object2(
            "name",
            JsonValue::string("acp-stub"),
            "version",
            JsonValue::string("0.1.0"),
        ),
    )
}

impl StubState {
    /// The first id that a stand-in agent gives to a request of its own.
    pub open spec fn first_id() -> u64 {
        1000
    }

    /// A fresh state: ids start at 1000 and nothing is awaited.
    pub fn new() -> (r: StubState)
        ensures
            r.next_id == StubState::first_id(),
            r.pending_write_id is None,
            r.waiting_for_write_response_since is None,
    {
        StubState { next_id: 1000, pending_write_id: None, waiting_for_write_response_since: None }
    }

    /// Hands out the next request id and moves the counter on by one.
    pub fn next_request_id(&mut self) -> (id: u64)
        requires
            old(self).next_id < u64::MAX,
        ensures
            id == old(self).next_id,
            final(self).next_id == id + 1,
            final(self).pending_write_id == old(self).pending_write_id,
            final(self).waiting_for_write_response_since == old(
                self,
            ).waiting_for_write_response_since,
    {
        let id = self.next_id;
        self.next_id = self.next_id + 1;
        id
    }

    fn handle_prompt(&mut self, config: &StubConfig, id: Option<u64>, now: u64) -> (r: Vec<
        StubAction,
    >)
        requires
            old(self).next_id < u64::MAX,
        ensures
            (*final(self), actions_view(r@)) == prompt_step(*old(self), config@, id, now),
    {
        let mut actions: Vec<StubAction> = Vec::new();
        push_reply(
            &mut actions,
            id,
            JsonValue::object1("stopReason", JsonValue::string("completed")),
        );
        if config.prompt_delay_ms > 0 {
            let ghost before = actions_view(actions@);
            actions.push(StubAction::Sleep(config.prompt_delay_ms));
            assert(actions_view(actions@) =~= before.push(Action::Sleep(config.prompt_delay_ms)));
        }
        push_send(&mut actions, build_text_update("agent_message_chunk", "Stub: "));
        push_send(&mut actions, build_text_update("agent_message", "streaming response."));
        push_send(&mut actions, build_tool_call_update(config, "in_progress", None));
        match &config.target_path {
            Some(path) => {
                let request_id = self.next_request_id();
                self.pending_write_id = Some(request_id);
                self.waiting_for_write_response_since = Some(now);
                let message = JsonValue::object4(
                    "id",
                    JsonValue::unsigned(request_id),
                    "jsonrpc",
                    JsonValue::string("2.0"),
                    "method",
                    JsonValue::string("fs/write_text_file"),
                    "params",
                    JsonValue::object2(
                        "content",
                        JsonValue::string(config.write_content.as_str()),
                        "path",
                        JsonValue::string(path.as_str()),
                    ),
                );
                push_send(&mut actions, message);
            },
            None => {
                push_send(&mut actions, build_tool_call_update(config, "completed", None));
            },
        }
        actions
    }

    fn handle_method(&mut self, config: &StubConfig, message: &JsonValue, now: u64) -> (r: Vec<
        StubAction,
    >)
        requires
            old(self).next_id < u64::MAX,
        ensures
            (*final(self), actions_view(r@)) == method_step(*old(self), config@, message@, now),
    {
        let method = message.str_or_empty("method");
        let id = match message.get("id") {
            Some(v) => v.as_u64(),
            None => None,
        };
        let name = method.as_str();
        if str_eq(name, "initialize") {
            reply_only(id, build_initialize_result())
        } else if str_eq(name, "session/new") || str_eq(name, "session/load") {
            reply_only(
                id,
                JsonValue::object1("sessionId", JsonValue::string(config.session_id.as_str())),
            )
        } else if str_eq(name, "session/set_mode") || str_eq(name, "session/set_model") || str_eq(
            name,
            "session/cancel",
        ) {
            reply_only(id, JsonValue::empty_object())
        } else if str_eq(name, "session/prompt") {
            self.handle_prompt(config, id, now)
        } else {
            let mut actions: Vec<StubAction> = Vec::new();
            if let Some(i) = id {
                let reply = JsonValue::object3(
                    "error",
                    JsonValue::object2(
                        "code",
                        JsonValue::signed(METHOD_NOT_FOUND),
                        "message",
                        JsonValue::string("method not found"),
                    ),
                    "id",
                    JsonValue::unsigned(i),
                    "jsonrpc",
                    JsonValue::string("2.0"),
                );
                actions.push(StubAction::Send(reply));
            }
            actions
        }
    }

    /// Handles a message of the client that came at the time `now`, in
    /// milliseconds of a monotonic clock: changes the state and returns what
    /// is to be done, in order.
    pub fn handle(&mut self, config: &StubConfig, message: &JsonValue, now: u64) -> (r: Vec<
        StubAction,
    >)
        requires
            old(self).next_id < u64::MAX,
        ensures
            (*final(self), actions_view(r@)) == stub_step(*old(self), config@, message@, now),
    {
        let id = match message.get("id") {
            Some(v) => v.as_u64(),
            None => None,
        };
        let answered = match (id, message.get("method"), self.pending_write_id) {
            (Some(i), None, Some(waiting)) => i == waiting,
            _ => false,
        };
        if answered {
            self.pending_write_id = None;
            self.waiting_for_write_response_since = None;
            let mut actions: Vec<StubAction> = Vec::new();
            push_send(&mut actions, build_tool_call_update(config, "completed", None));
            push_send(
                &mut actions,
                build_text_update("agent_message", "Write completed via stub."),
            );
            return actions;
        }
        let mut actions = self.handle_method(config, message, now);
        let overdue = match self.waiting_for_write_response_since {
            Some(since) => now > since && now - since > WRITE_TIMEOUT_MILLIS,
            None => false,
        };
        if overdue {
            self.pending_write_id = None;
            self.waiting_for_write_response_since = None;
            push_send(
                &mut actions,
                build_tool_call_update(config, "failed", Some("write timeout")),
            );
        }
        actions
    }
}

} // verus!
