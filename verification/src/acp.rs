use crate::json::{lemma_object_get, Json, JsonNumber, JsonValue};
use crate::json_text::{parse, text_json};
use crate::pending::{slot_of, IdCounter, PendingTable};
use crate::text::{is_blank, line_is_blank};
use vstd::prelude::*;
use vstd::string::{StrSliceExecFns, StringExecFns, StringSliceAdditionalSpecFns};

verus! {

/// How long a call to the agent waits for its reply, in seconds.
pub const REQUEST_TIMEOUT_SECS: u64 = 30;

/// How long a waiting call sleeps between two looks at its slot, in
/// milliseconds.
pub const POLL_INTERVAL_MILLIS: u64 = 10;

/// How long after its start the agent process is looked at once, to tell a
/// failed start from a later exit, in milliseconds.
pub const EARLY_EXIT_CHECK_MILLIS: u64 = 500;

/// The code of the error that the bridge answers an agent's request with.
pub const ERROR_CODE: i64 = -32000;

/// What the agent sends on its own account: a notification, or a request
/// that is numbered by the agent and wants an answer.
#[derive(Debug, PartialEq, Eq)]
pub enum AcpInbound {
    Notification { method: String, params: JsonValue },
    Request { id: u64, method: String, params: JsonValue },
}

/// The mathematical content of an [`AcpInbound`].
pub enum Inbound {
    Notification { method: Seq<char>, params: Json },
    Request { id: u64, method: Seq<char>, params: Json },
}

impl View for AcpInbound {
    type V = Inbound;

    open spec fn view(&self) -> Inbound {
        match self {
            AcpInbound::Notification { method, params } => Inbound::Notification {
                method: method@,
                params: params@,
            },
            AcpInbound::Request { id, method, params } => Inbound::Request {
                id: *id,
                method: method@,
                params: params@,
            },
        }
    }
}

/// The content of a reply: the result, or the error object.
pub open spec fn outcome_view(outcome: Result<JsonValue, JsonValue>) -> Result<Json, Json> {
    match outcome {
        Ok(v) => Ok(v@),
        Err(e) => Err(e@),
    }
}

/// What a JSON document from the agent is.
#[derive(Debug, PartialEq, Eq)]
pub enum AgentMessage {
    /// A request or a notification of the agent's own.
    Inbound(AcpInbound),
    /// The reply to the bridge's call `id`.
    Response { id: u64, outcome: Result<JsonValue, JsonValue> },
    /// Neither.
    Unrecognized,
}

/// The mathematical content of an [`AgentMessage`].
pub enum Classified {
    Inbound(Inbound),
    Response { id: u64, outcome: Result<Json, Json> },
    Unrecognized,
}

impl View for AgentMessage {
    type V = Classified;

    open spec fn view(&self) -> Classified {
        match self {
            AgentMessage::Inbound(m) => Classified::Inbound(m@),
            AgentMessage::Response { id, outcome } => Classified::Response {
                id: *id,
                outcome: outcome_view(*outcome),
            },
            AgentMessage::Unrecognized => Classified::Unrecognized,
        }
    }
}

/// The id of a document: its member `id`, where that is an unsigned integer.
pub open spec fn id_of(value: Json) -> Option<u64> {
    match value.get("id"@) {
        Some(v) => v.as_u64(),
        None => None,
    }
}

/// The method that a request names: its member `method`, or `unknown` where
/// that is no string.
pub open spec fn request_method(method: Json) -> Seq<char> {
    match method.as_str() {
        Some(s) => s,
        None => "unknown"@,
    }
}

/// What a reply brings: its member `error` where it has one, else its member
/// `result`, `null` where it has none.
pub open spec fn reply_outcome(value: Json) -> Result<Json, Json> {
    match value.get("error"@) {
        Some(e) => Err(e),
        None => Ok(value.get_or_null("result"@)),
    }
}

/// What a document from the agent is. With an id it is a request where it
/// has a member `method`, and else the reply to a call; without an id it is a
/// notification where its member `method` is a string.
pub open spec fn classified(value: Json) -> Classified {
    match id_of(value) {
        Some(id) => match value.get("method"@) {
            Some(m) => Classified::Inbound(
                Inbound::Request {
                    id,
                    method: request_method(m),
                    params: value.get_or_null("params"@),
                },
            ),
            None => Classified::Response { id, outcome: reply_outcome(value) },
        },
        None => match value.get("method"@) {
            Some(Json::String(method)) => Classified::Inbound(
                Inbound::Notification { method, params: value.get_or_null("params"@) },
            ),
            _ => Classified::Unrecognized,
        },
    }
}

/// Says what a document from the agent is.
pub fn classify(value: &JsonValue) -> (r: AgentMessage)
    ensures
        r@ == classified(value@),
{
    let id = match value.get("id") {
        Some(v) => v.as_u64(),
        None => None,
    };
    match id {
        Some(id) => match value.get("method") {
            Some(m) => {
                let method = match m.as_str() {
                    Some(s) => s.to_owned(),
                    None => "unknown".to_owned(),
                };
                let params = value.get_or_null("params");
                AgentMessage::Inbound(AcpInbound::Request { id, method, params })
            },
            None => {
                let outcome = match value.get("error") {
                    Some(e) => Err(e.clone()),
                    None => Ok(value.get_or_null("result")),
                };
                AgentMessage::Response { id, outcome }
            },
        },
        None => {
            let method = match value.get("method") {
                Some(m) => m.as_str(),
                None => None,
            };
            match method {
                Some(s) => {
                    let params = value.get_or_null("params");
                    AgentMessage::Inbound(
                        AcpInbound::Notification { method: s.to_owned(), params },
                    )
                },
                None => AgentMessage::Unrecognized,
            }
        },
    }
}

/// What a line of the agent's output means.
pub enum LineMeaning {
    /// Nothing but white space: skipped.
    Blank,
    /// No JSON document: dropped.
    Malformed,
    /// A JSON document.
    Message(Classified),
}

/// What a line of the agent's output means.
pub open spec fn line_meaning(line: Seq<char>) -> LineMeaning {
    if is_blank(line) {
        LineMeaning::Blank
    } else {
        match text_json(line) {
            Some(value) => LineMeaning::Message(classified(value)),
            None => LineMeaning::Malformed,
        }
    }
}

/// What the reader does with a line of the agent's output.
pub enum LineEvent<S> {
    /// The line was blank.
    Blank,
    /// The line was no JSON document.
    Malformed,
    /// The document was neither a request, a reply nor a notification.
    Unrecognized,
    /// The agent asks or tells something: it goes on the inbound queue.
    Inbound(AcpInbound),
    /// The reply to a call that was waiting in `slot`.
    Reply { id: u64, slot: S, outcome: Result<JsonValue, JsonValue> },
    /// A reply to a call that nobody waits for.
    Orphan { id: u64 },
}

/// What the reader does with a message, given the calls that are waiting.
pub open spec fn message_event<S>(
    pending: Map<u64, S>,
    message: Classified,
    event: LineEvent<S>,
) -> bool {
    match message {
        Classified::Inbound(m) => event matches LineEvent::Inbound(got) && got@ == m,
        Classified::Response { id, outcome } => match slot_of(pending, id) {
            Some(slot) => event matches LineEvent::Reply { id: i, slot: s, outcome: o } && i == id
                && s == slot && outcome_view(o) == outcome,
            None => event matches LineEvent::Orphan { id: i } && i == id,
        },
        Classified::Unrecognized => event is Unrecognized,
    }
}

/// The calls that are still waiting once a message has been handled: a reply
/// takes its call out of the table, and nothing else changes it.
pub open spec fn pending_after<S>(pending: Map<u64, S>, message: Classified) -> Map<u64, S> {
    match message {
        Classified::Response { id, .. } => pending.remove(id),
        _ => pending,
    }
}

/// What the reader does with a line, given the calls that are waiting.
pub open spec fn line_event<S>(pending: Map<u64, S>, line: Seq<char>, event: LineEvent<S>) -> bool {
    match line_meaning(line) {
        LineMeaning::Blank => event is Blank,
        LineMeaning::Malformed => event is Malformed,
        LineMeaning::Message(message) => message_event(pending, message, event),
    }
}

/// The calls that are still waiting once a line has been handled.
pub open spec fn pending_after_line<S>(pending: Map<u64, S>, line: Seq<char>) -> Map<u64, S> {
    match line_meaning(line) {
        LineMeaning::Message(message) => pending_after(pending, message),
        _ => pending,
    }
}

/// The request `{"id": .., "jsonrpc": "2.0", "method": .., "params": ..}`.
pub open spec fn request_message(id: u64, method: Seq<char>, params: Json) -> Json {
    Json::object4(
        "id"@,
        Json::Number(JsonNumber::PosInt(id)),
        "jsonrpc"@,
        Json::String("2.0"@),
        "method"@,
        Json::String(method),
        "params"@,
        params,
    )
}

/// The notification `{"jsonrpc": "2.0", "method": .., "params": ..}`.
pub open spec fn notification_message(method: Seq<char>, params: Json) -> Json {
    Json::object3("jsonrpc"@, Json::String("2.0"@), "method"@, Json::String(method), "params"@, params)
}

/// The error object `{"code": -32000, "message": ..}`.
pub open spec fn error_object(message: Seq<char>) -> Json {
    Json::object2(
        "code"@,
        Json::Number(JsonNumber::NegInt(ERROR_CODE)),
        "message"@,
        Json::String(message),
    )
}

/// The reply to the agent's request `id`: `{"id": .., "jsonrpc": "2.0"}` with
/// the member `result`, or with the member `error` and the message in it.
pub open spec fn response_message(id: u64, result: Result<Json, Seq<char>>) -> Json {
    match result {
        Ok(value) => Json::object3(
            "id"@,
            Json::Number(JsonNumber::PosInt(id)),
            "jsonrpc"@,
            Json::String("2.0"@),
            "result"@,
            value,
        ),
        Err(message) => Json::object3(
            "error"@,
            error_object(message),
            "id"@,
            Json::Number(JsonNumber::PosInt(id)),
            "jsonrpc"@,
            Json::String("2.0"@),
        ),
    }
}

/// The content of an answer to the agent.
pub open spec fn answer_view(result: Result<JsonValue, String>) -> Result<Json, Seq<char>> {
    match result {
        Ok(v) => Ok(v@),
        Err(m) => Err(m@),
    }
}

/// A request that one end of the agent channel writes, the other end reads
/// as that request: with its id, its method and its parameters.
pub proof fn law_request_is_read_back(id: u64, method: Seq<char>, params: Json)
    ensures
        classified(request_message(id, method, params)) == Classified::Inbound(
            Inbound::Request { id, method, params },
        ),
{
    reveal_strlit("id");
    assert("id"@.len() == 2);
    reveal_strlit("jsonrpc");
    assert("jsonrpc"@.len() == 7);
    reveal_strlit("method");
    assert("method"@.len() == 6);
    reveal_strlit("params");
    assert("params"@.len() == 6);
    assert("method"@[0] != "params"@[0]);
    let two = Json::String("2.0"@);
    let number = Json::Number(JsonNumber::PosInt(id));
    let name = Json::String(method);
    lemma_object_get("id"@, number, "jsonrpc"@, two, "method"@, name, "params"@, params, "id"@);
    lemma_object_get("id"@, number, "jsonrpc"@, two, "method"@, name, "params"@, params, "method"@);
    lemma_object_get("id"@, number, "jsonrpc"@, two, "method"@, name, "params"@, params, "params"@);
}

/// A notification that one end of the agent channel writes, the other end
/// reads as that notification.
pub proof fn law_notification_is_read_back(method: Seq<char>, params: Json)
    ensures
        classified(notification_message(method, params)) == Classified::Inbound(
            Inbound::Notification { method, params },
        ),
{
    reveal_strlit("id");
    assert("id"@.len() == 2);
    reveal_strlit("jsonrpc");
    assert("jsonrpc"@.len() == 7);
    reveal_strlit("method");
    assert("method"@.len() == 6);
    reveal_strlit("params");
    assert("params"@.len() == 6);
    assert("method"@[0] != "params"@[0]);
    let two = Json::String("2.0"@);
    let name = Json::String(method);
    lemma_object_get("jsonrpc"@, two, "method"@, name, "params"@, params, "id"@, two, "id"@);
    lemma_object_get("jsonrpc"@, two, "method"@, name, "params"@, params, "id"@, two, "method"@);
    lemma_object_get("jsonrpc"@, two, "method"@, name, "params"@, params, "id"@, two, "params"@);
}

/// An answer with a result that the bridge writes, the agent reads as the
/// reply to its request, with that result.
pub proof fn law_result_is_read_back(id: u64, value: Json)
    ensures
        classified(response_message(id, Ok(value))) == (Classified::Response {
            id,
            outcome: Ok(value),
        }),
{
    reveal_strlit("id");
    assert("id"@.len() == 2);
    reveal_strlit("jsonrpc");
    assert("jsonrpc"@.len() == 7);
    reveal_strlit("method");
    assert("method"@.len() == 6);
    reveal_strlit("result");
    assert("result"@.len() == 6);
    reveal_strlit("error");
    assert("error"@.len() == 5);
    assert("method"@[0] != "result"@[0]);
    let two = Json::String("2.0"@);
    let number = Json::Number(JsonNumber::PosInt(id));
    lemma_object_get("id"@, number, "jsonrpc"@, two, "result"@, value, "id"@, number, "id"@);
    lemma_object_get("id"@, number, "jsonrpc"@, two, "result"@, value, "id"@, number, "method"@);
    lemma_object_get("id"@, number, "jsonrpc"@, two, "result"@, value, "id"@, number, "error"@);
    lemma_object_get("id"@, number, "jsonrpc"@, two, "result"@, value, "id"@, number, "result"@);
}

/// An answer with an error that the bridge writes, the agent reads as the
/// reply to its request, with the error object that carries the code and
/// the message.
pub proof fn law_error_is_read_back(id: u64, message: Seq<char>)
    ensures
        classified(response_message(id, Err(message))) == (Classified::Response {
            id,
            outcome: Err(error_object(message)),
        }),
{
    reveal_strlit("id");
    assert("id"@.len() == 2);
    reveal_strlit("jsonrpc");
    assert("jsonrpc"@.len() == 7);
    reveal_strlit("method");
    assert("method"@.len() == 6);
    reveal_strlit("error");
    assert("error"@.len() == 5);
    let two = Json::String("2.0"@);
    let number = Json::Number(JsonNumber::PosInt(id));
    let failed = error_object(message);
    lemma_object_get("error"@, failed, "id"@, number, "jsonrpc"@, two, "id"@, number, "id"@);
    lemma_object_get("error"@, failed, "id"@, number, "jsonrpc"@, two, "id"@, number, "method"@);
    lemma_object_get("error"@, failed, "id"@, number, "jsonrpc"@, two, "id"@, number, "error"@);
}

/// What a waiting call finds in its slot.
#[derive(Debug, PartialEq, Eq)]
pub enum SlotState {
    /// The reply is there.
    Ready(Result<JsonValue, JsonValue>),
    /// The slot was given up: the reader is gone.
    Closed,
    /// Nothing yet.
    Empty,
}

/// The mathematical content of a [`SlotState`].
pub enum Observed {
    Ready(Result<Json, Json>),
    Closed,
    Empty,
}

impl View for SlotState {
    type V = Observed;

    open spec fn view(&self) -> Observed {
        match self {
            SlotState::Ready(outcome) => Observed::Ready(outcome_view(*outcome)),
            SlotState::Closed => Observed::Closed,
            SlotState::Empty => Observed::Empty,
        }
    }
}

/// How a call to the agent ends.
#[derive(Debug, PartialEq, Eq)]
pub enum CallOutcome {
    /// The agent replied with a result.
    Value(JsonValue),
    /// The agent replied with an error object.
    Remote(JsonValue),
    /// The reply can no longer come: the agent's output has ended.
    Closed,
    /// No reply came in time.
    TimedOut,
}

/// The mathematical content of a [`CallOutcome`].
pub enum Outcome {
    Value(Json),
    Remote(Json),
    Closed,
    TimedOut,
}

impl View for CallOutcome {
    type V = Outcome;

    open spec fn view(&self) -> Outcome {
        match self {
            CallOutcome::Value(v) => Outcome::Value(v@),
            CallOutcome::Remote(e) => Outcome::Remote(e@),
            CallOutcome::Closed => Outcome::Closed,
            CallOutcome::TimedOut => Outcome::TimedOut,
        }
    }
}

/// The content of an outcome that may not be there yet.
pub open spec fn step_view(step: Option<CallOutcome>) -> Option<Outcome> {
    match step {
        Some(o) => Some(o@),
        None => None,
    }
}

/// What one look at the slot decides. A reply that is there ends the call,
/// even when the time is up as well; a closed slot ends it; an empty slot
/// ends it only once the time is up.
pub open spec fn step_outcome(seen: Observed, time_is_up: bool) -> Option<Outcome> {
    match seen {
        Observed::Ready(Ok(v)) => Some(Outcome::Value(v)),
        Observed::Ready(Err(e)) => Some(Outcome::Remote(e)),
        Observed::Closed => Some(Outcome::Closed),
        Observed::Empty => if time_is_up {
            Some(Outcome::TimedOut)
        } else {
            None
        },
    }
}

/// How a call ends that looks at its slot as `looks` says, one look after
/// the other: with what the first look decides that decides anything.
pub open spec fn call_outcome(looks: Seq<(Observed, bool)>) -> Option<Outcome>
    decreases looks.len(),
{
    if looks.len() == 0 {
        None
    } else {
        match step_outcome(looks[0].0, looks[0].1) {
            Some(o) => Some(o),
            None => call_outcome(looks.drop_first()),
        }
    }
}

/// A look that decides nothing: the slot is empty and there is time left.
pub open spec fn undecided(look: (Observed, bool)) -> bool {
    look.0 is Empty && !look.1
}

/// A call goes on exactly as long as every look finds the slot empty with
/// time left. So a call whose time runs out ends, whatever the agent does.
pub proof fn law_call_ends(looks: Seq<(Observed, bool)>)
    ensures
        call_outcome(looks) is None <==> forall|i: int|
            0 <= i < looks.len() ==> undecided(#[trigger] looks[i]),
        (exists|i: int| 0 <= i < looks.len() && (#[trigger] looks[i]).1) ==> call_outcome(
            looks,
        ) is Some,
    decreases looks.len(),
{
    if looks.len() > 0 {
        let rest = looks.drop_first();
        law_call_ends(rest);
        if call_outcome(looks) is None {
            assert forall|i: int| 0 <= i < looks.len() implies undecided(
                #[trigger] looks[i],
            ) by {
                if i > 0 {
                    assert(rest[i - 1] == looks[i]);
                }
            }
        }
    }
}

/// A call ends in one way only: as the first look decides that decides
/// anything, with all the looks before it undecided. Later looks change
/// nothing.
pub proof fn law_call_ends_once(looks: Seq<(Observed, bool)>, outcome: Outcome)
    requires
        call_outcome(looks) == Some(outcome),
    ensures
        exists|i: int|
            0 <= i < looks.len() && step_outcome(
                (#[trigger] looks[i]).0,
                looks[i].1,
            ) == Some(outcome) && call_outcome(looks.take(i)) is None && (forall|more: Seq<
                (Observed, bool),
            >| #[trigger] call_outcome(looks.take(i + 1) + more) == Some(outcome)),
    decreases looks.len(),
{
    if step_outcome(looks[0].0, looks[0].1) is None {
        let rest = looks.drop_first();
        law_call_ends_once(rest, outcome);
        let j = choose|j: int|
            0 <= j < rest.len() && step_outcome((#[trigger] rest[j]).0, rest[j].1) == Some(
                outcome,
            ) && call_outcome(rest.take(j)) is None && (forall|more: Seq<(Observed, bool)>| #[trigger]
                call_outcome(rest.take(j + 1) + more) == Some(outcome));
        let i = j + 1;
        assert(looks.take(i).drop_first() =~= rest.take(j));
        assert forall|more: Seq<(Observed, bool)>| #[trigger]
            call_outcome(looks.take(i + 1) + more) == Some(outcome) by {
            assert((looks.take(i + 1) + more).drop_first() =~= rest.take(j + 1) + more);
            assert(call_outcome(rest.take(j + 1) + more) == Some(outcome));
        }
    }
}

/// The bytes that go on the agent channel for a message: its text in UTF-8,
/// and the line feed that ends it.
pub open spec fn framed(text: Seq<char>) -> Seq<u8> {
    vstd::utf8::encode_utf8(text).push(10u8)
}

/// Frames the text of a message as one line of the agent channel.
pub fn frame_line(text: &str) -> (r: Vec<u8>)
    ensures
        r@ == framed(text@),
{
    let mut bytes = text.as_bytes_vec();
    bytes.push(10u8);
    bytes
}

/// A call that the bridge has made to the agent: its id and the message to
/// send.
#[derive(Debug, PartialEq, Eq)]
pub struct OutboundCall {
    pub id: u64,
    pub message: JsonValue,
}

/// The bridge's end of the agent channel: the calls that wait for a reply,
/// and the counter that numbers them. `S` is what a waiting call is woken by.
pub struct AcpClient<S> {
    pending: PendingTable<S>,
    next_id: IdCounter,
}

impl<S> AcpClient<S> {
    /// The slots of the calls that wait for a reply, by id.
    pub closed spec fn pending(&self) -> Map<u64, S> {
        self.pending@
    }

    /// The id that the next call gets.
    pub closed spec fn upcoming(&self) -> u64 {
        self.next_id.upcoming()
    }

    /// The client of a fresh connection: no call waits, the first id is 1.
    pub fn new() -> (r: AcpClient<S>)
        ensures
            r.pending() == Map::<u64, S>::empty(),
            r.upcoming() == 1,
    {
        AcpClient { pending: PendingTable::new(), next_id: IdCounter::new() }
    }

    /// Whether the call `id` waits for a reply.
    pub fn is_pending(&self, id: u64) -> (r: bool)
        ensures
            r == self.pending().contains_key(id),
    {
        self.pending.contains(id)
    }

    /// Makes a call to the agent: gives it the next id, lets it wait in
    /// `slot` and returns the message to send. Where no id is left, nothing
    /// is registered and nothing is returned.
    pub fn request(&mut self, method: &str, params: JsonValue, slot: S) -> (r: Option<
        OutboundCall,
    >)
        ensures
            old(self).upcoming() < u64::MAX ==> {
                &&& r matches Some(call)
                &&& call.id == old(self).upcoming()
                &&& call.message@ == request_message(call.id, method@, params@)
                &&& final(self).pending() == old(self).pending().insert(call.id, slot)
                &&& final(self).upcoming() == old(self).upcoming() + 1
            },
            old(self).upcoming() == u64::MAX ==> {
                &&& r is None
                &&& final(self).pending() == old(self).pending()
                &&& final(self).upcoming() == old(self).upcoming()
            },
    {
        match self.next_id.allocate() {
            Some(id) => {
                let _ = self.pending.register(id, slot);
                let message = JsonValue::object4(
                    "id",
                    JsonValue::unsigned(id),
                    "jsonrpc",
                    JsonValue::string("2.0"),
                    "method",
                    JsonValue::string(method),
                    "params",
                    params,
                );
                Some(OutboundCall { id, message })
            },
            None => None,
        }
    }

    /// The message that tells the agent something. No reply is awaited.
    pub fn notify(&self, method: &str, params: JsonValue) -> (r: JsonValue)
        ensures
            r@ == notification_message(method@, params@),
    {
        JsonValue::object3(
            "jsonrpc",
            JsonValue::string("2.0"),
            "method",
            JsonValue::string(method),
            "params",
            params,
        )
    }

    /// The message that answers the agent's request `id`, with a result or
    /// with an error that carries the code -32000 and a message.
    pub fn respond(&self, id: u64, result: Result<JsonValue, String>) -> (r: JsonValue)
        ensures
            r@ == response_message(id, answer_view(result)),
    {
        match result {
            Ok(value) => JsonValue::object3(
                "id",
                JsonValue::unsigned(id),
                "jsonrpc",
                JsonValue::string("2.0"),
                "result",
                value,
            ),
            Err(message) => {
                let error = JsonValue::object2(
                    "code",
                    JsonValue::signed(ERROR_CODE),
                    "message",
                    JsonValue::string(message.as_str()),
                );
                JsonValue::object3(
                    "error",
                    error,
                    "id",
                    JsonValue::unsigned(id),
                    "jsonrpc",
                    JsonValue::string("2.0"),
                )
            },
        }
    }

    /// Handles a JSON document from the agent: a reply takes its call out of
    /// the table and is handed out with the call's slot; a request or a
    /// notification is handed out for the inbound queue.
    pub fn handle_message(&mut self, value: &JsonValue) -> (r: LineEvent<S>)
        ensures
            message_event(old(self).pending(), classified(value@), r),
            final(self).pending() == pending_after(old(self).pending(), classified(value@)),
            final(self).upcoming() == old(self).upcoming(),
    {
        match classify(value) {
            AgentMessage::Inbound(m) => LineEvent::Inbound(m),
            AgentMessage::Response { id, outcome } => match self.pending.resolve(id) {
                Some(slot) => LineEvent::Reply { id, slot, outcome },
                None => {
                    LineEvent::Orphan { id }
                },
            },
            AgentMessage::Unrecognized => LineEvent::Unrecognized,
        }
    }

    /// Handles a line of the agent's output. A blank line is skipped and a
    /// line that is no JSON document is dropped: neither changes anything.
    pub fn handle_line(&mut self, line: &str) -> (r: LineEvent<S>)
        ensures
            line_event(old(self).pending(), line@, r),
            final(self).pending() == pending_after_line(old(self).pending(), line@),
            final(self).upcoming() == old(self).upcoming(),
    {
        if line_is_blank(line) {
            return LineEvent::Blank;
        }
        match parse(line) {
            Some(value) => self.handle_message(&value),
            None => LineEvent::Malformed,
        }
    }

    /// One look of the waiting call `id` at its slot. The call ends with a
    /// reply or a closed slot; else it ends once its time is up, and then its
    /// id leaves the table, so that a late reply finds nobody.
    pub fn poll(&mut self, id: u64, seen: SlotState, time_is_up: bool) -> (r: Option<CallOutcome>)
        ensures
            step_view(r) == step_outcome(seen@, time_is_up),
            final(self).upcoming() == old(self).upcoming(),
            final(self).pending() == if step_outcome(seen@, time_is_up) == Some(
                Outcome::TimedOut,
            ) {
                old(self).pending().remove(id)
            } else {
                old(self).pending()
            },
    {
        match seen {
            SlotState::Ready(Ok(value)) => Some(CallOutcome::Value(value)),
            SlotState::Ready(Err(error)) => Some(CallOutcome::Remote(error)),
            SlotState::Closed => Some(CallOutcome::Closed),
            SlotState::Empty => {
                if time_is_up {
                    let _ = self.pending.resolve(id);
                    Some(CallOutcome::TimedOut)
                } else {
                    None
                }
            },
        }
    }
}

/// What the caller of a call gets once it has ended: the agent's result, or
/// the failure in words. `rendered` is the text of the error object of a
/// [`CallOutcome::Remote`].
pub open spec fn call_result(outcome: Outcome, rendered: Seq<char>) -> Result<Json, Seq<char>> {
    match outcome {
        Outcome::Value(v) => Ok(v),
        Outcome::Remote(_) => Err("acp error: "@ + rendered),
        Outcome::Closed => Err("acp response channel closed - the ACP process may have exited"@),
        Outcome::TimedOut => Err(
            "request timed out after 30 seconds - the ACP process may have failed to start or exited unexpectedly"@,
        ),
    }
}

impl CallOutcome {
    /// What the caller of the call gets: the agent's result, or the failure
    /// in words, each kind of failure in words of its own.
    pub fn into_result(self, rendered: &str) -> (r: Result<JsonValue, String>)
        ensures
            answer_view(r) == call_result(self@, rendered@),
    {
        match self {
            CallOutcome::Value(v) => Ok(v),
            CallOutcome::Remote(_) => Err("acp error: ".to_owned().concat(rendered)),
            CallOutcome::Closed => Err(
                "acp response channel closed - the ACP process may have exited".to_owned(),
            ),
            CallOutcome::TimedOut => Err(
                "request timed out after 30 seconds - the ACP process may have failed to start or exited unexpectedly".to_owned(),
            ),
        }
    }
}

} // verus!
