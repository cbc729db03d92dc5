use crate::msgpack::{clone_values, items_view, lemma_array_view, Integer, Msgpack, MsgpackValue};
use crate::pending::{slot_of, IdCounter, PendingTable};
use vstd::prelude::*;

verus! {

/// A message of the host channel.
#[derive(Debug, PartialEq, Eq)]
pub enum RpcMessage {
    Request { msgid: u64, method: String, params: Vec<MsgpackValue> },
    Response { msgid: u64, error: Option<MsgpackValue>, result: Option<MsgpackValue> },
    Notification { method: String, params: Vec<MsgpackValue> },
}

/// The mathematical content of an [`RpcMessage`].
pub enum Message {
    Request { msgid: u64, method: Seq<char>, params: Seq<Msgpack> },
    Response { msgid: u64, error: Option<Msgpack>, result: Option<Msgpack> },
    Notification { method: Seq<char>, params: Seq<Msgpack> },
}

/// The content of a value that may be missing.
pub open spec fn optional_view(value: Option<MsgpackValue>) -> Option<Msgpack> {
    match value {
        Some(v) => Some(v@),
        None => None,
    }
}

impl View for RpcMessage {
    type V = Message;

    open spec fn view(&self) -> Message {
        match self {
            RpcMessage::Request { msgid, method, params } => Message::Request {
                msgid: *msgid,
                method: method@,
                params: items_view(params@),
            },
            RpcMessage::Response { msgid, error, result } => Message::Response {
                msgid: *msgid,
                error: optional_view(*error),
                result: optional_view(*result),
            },
            RpcMessage::Notification { method, params } => Message::Notification {
                method: method@,
                params: items_view(params@),
            },
        }
    }
}

/// Why a value is no message of the host channel.
#[derive(Clone, Copy, Debug, PartialEq, Eq, Structural)]
pub enum ParseError {
    /// The value is no array.
    NotArray,
    /// The array does not begin with an integer that fits in `i64`.
    MissingType,
    /// A call or response has no id that fits in `u64`.
    MissingMsgid,
    /// A call or notification has no method name.
    MissingMethod,
    /// The parameters are there and are no array.
    ParamsNotArray,
    /// The message type is none of 0, 1 and 2.
    UnknownType,
}

impl ParseError {
    /// The error in words.
    pub open spec fn spec_message(self) -> Seq<char> {
        match self {
            ParseError::NotArray => "msgpack-rpc message is not array"@,
            ParseError::MissingType => "missing msg type"@,
            ParseError::MissingMsgid => "missing msgid"@,
            ParseError::MissingMethod => "missing method"@,
            ParseError::ParamsNotArray => "params must be array"@,
            ParseError::UnknownType => "unknown msg type"@,
        }
    }

    /// The error in words.
    pub fn message(&self) -> (r: String)
        ensures
            r@ == self.spec_message(),
    {
        match self {
            ParseError::NotArray => "msgpack-rpc message is not array".to_owned(),
            ParseError::MissingType => "missing msg type".to_owned(),
            ParseError::MissingMsgid => "missing msgid".to_owned(),
            ParseError::MissingMethod => "missing method".to_owned(),
            ParseError::ParamsNotArray => "params must be array".to_owned(),
            ParseError::UnknownType => "unknown msg type".to_owned(),
        }
    }
}

/// The element `i` of `arr`, where it has one.
pub open spec fn element(arr: Seq<Msgpack>, i: int) -> Option<Msgpack> {
    if 0 <= i < arr.len() {
        Some(arr[i])
    } else {
        None
    }
}

/// The message type that an array begins with.
pub open spec fn type_of(arr: Seq<Msgpack>) -> Option<i64> {
    match element(arr, 0) {
        Some(v) => v.as_i64(),
        None => None,
    }
}

/// The message id at place `i`.
pub open spec fn msgid_at(arr: Seq<Msgpack>, i: int) -> Option<u64> {
    match element(arr, i) {
        Some(v) => v.as_u64(),
        None => None,
    }
}

/// The method name at place `i`.
pub open spec fn method_at(arr: Seq<Msgpack>, i: int) -> Option<Seq<char>> {
    match element(arr, i) {
        Some(v) => v.as_str(),
        None => None,
    }
}

/// The parameters at place `i`: the elements of the array that stands there,
/// none where the message ends before, an error for any other value.
pub open spec fn params_at(arr: Seq<Msgpack>, i: int) -> Result<Seq<Msgpack>, ParseError> {
    match element(arr, i) {
        Some(Msgpack::Array(p)) => Ok(p),
        Some(_) => Err(ParseError::ParamsNotArray),
        None => Ok(Seq::empty()),
    }
}

/// The call `[0, msgid, method, params]` that `arr` holds.
pub open spec fn request_of(arr: Seq<Msgpack>) -> Result<Message, ParseError> {
    match msgid_at(arr, 1) {
        None => Err(ParseError::MissingMsgid),
        Some(msgid) => match method_at(arr, 2) {
            None => Err(ParseError::MissingMethod),
            Some(method) => match params_at(arr, 3) {
                Err(e) => Err(e),
                Ok(params) => Ok(Message::Request { msgid, method, params }),
            },
        },
    }
}

/// The response `[1, msgid, error, result]` that `arr` holds.
pub open spec fn response_of(arr: Seq<Msgpack>) -> Result<Message, ParseError> {
    match msgid_at(arr, 1) {
        None => Err(ParseError::MissingMsgid),
        Some(msgid) => Ok(
            Message::Response { msgid, error: element(arr, 2), result: element(arr, 3) },
        ),
    }
}

/// The notification `[2, method, params]` that `arr` holds.
pub open spec fn notification_of(arr: Seq<Msgpack>) -> Result<Message, ParseError> {
    match method_at(arr, 1) {
        None => Err(ParseError::MissingMethod),
        Some(method) => match params_at(arr, 2) {
            Err(e) => Err(e),
            Ok(params) => Ok(Message::Notification { method, params }),
        },
    }
}

/// The message that a value of the host channel holds, or why it holds none.
pub open spec fn message_of(value: Msgpack) -> Result<Message, ParseError> {
    match value {
        Msgpack::Array(arr) => match type_of(arr) {
            None => Err(ParseError::MissingType),
            Some(kind) => if kind == 0 {
                request_of(arr)
            } else if kind == 1 {
                response_of(arr)
            } else if kind == 2 {
                notification_of(arr)
            } else {
                Err(ParseError::UnknownType)
            },
        },
        _ => Err(ParseError::NotArray),
    }
}

fn read_msgid(arr: &Vec<MsgpackValue>, i: usize) -> (r: Option<u64>)
    ensures
        r == msgid_at(items_view(arr@), i as int),
{
    if i < arr.len() {
        arr[i].as_u64()
    } else {
        None
    }
}

fn read_method(arr: &Vec<MsgpackValue>, i: usize) -> (r: Option<String>)
    ensures
        match r {
            Some(m) => method_at(items_view(arr@), i as int) == Some(m@),
            None => method_at(items_view(arr@), i as int) is None,
        },
{
    if i < arr.len() {
        match arr[i].as_str() {
            Some(s) => Some(s.to_owned()),
            None => None,
        }
    } else {
        None
    }
}

fn read_params(arr: &Vec<MsgpackValue>, i: usize) -> (r: Result<Vec<MsgpackValue>, ParseError>)
    ensures
        match r {
            Ok(p) => params_at(items_view(arr@), i as int) == Ok::<Seq<Msgpack>, ParseError>(
                items_view(p@),
            ),
            Err(e) => params_at(items_view(arr@), i as int) == Err::<Seq<Msgpack>, ParseError>(e),
        },
{
    if i < arr.len() {
        match &arr[i] {
            MsgpackValue::Array(p) => {
                proof {
                    lemma_array_view(*p);
                }
                Ok(clone_values(p))
            },
            _ => Err(ParseError::ParamsNotArray),
        }
    } else {
        let none: Vec<MsgpackValue> = Vec::new();
        assert(items_view(none@) =~= Seq::empty());
        Ok(none)
    }
}

fn read_element(arr: &Vec<MsgpackValue>, i: usize) -> (r: Option<MsgpackValue>)
    ensures
        optional_view(r) == element(items_view(arr@), i as int),
{
    if i < arr.len() {
        Some(arr[i].clone())
    } else {
        None
    }
}

/// Reads a value of the host channel as a call, a response or a
/// notification.
pub fn parse_message(val: MsgpackValue) -> (r: Result<RpcMessage, ParseError>)
    ensures
        match r {
            Ok(m) => message_of(val@) == Ok::<Message, ParseError>(m@),
            Err(e) => message_of(val@) == Err::<Message, ParseError>(e),
        },
{
    let arr = match val {
        MsgpackValue::Array(arr) => arr,
        _ => {
            return Err(ParseError::NotArray);
        },
    };
    proof {
        lemma_array_view(arr);
    }
    let kind = if arr.len() > 0 {
        arr[0].as_i64()
    } else {
        None
    };
    let kind = match kind {
        Some(kind) => kind,
        None => {
            return Err(ParseError::MissingType);
        },
    };
    if kind == 0 {
        let msgid = match read_msgid(&arr, 1) {
            Some(msgid) => msgid,
            None => {
                return Err(ParseError::MissingMsgid);
            },
        };
        let method = match read_method(&arr, 2) {
            Some(method) => method,
            None => {
                return Err(ParseError::MissingMethod);
            },
        };
        let params = match read_params(&arr, 3) {
            Ok(params) => params,
            Err(e) => {
                return Err(e);
            },
        };
        Ok(RpcMessage::Request { msgid, method, params })
    } else if kind == 1 {
        let msgid = match read_msgid(&arr, 1) {
            Some(msgid) => msgid,
            None => {
                return Err(ParseError::MissingMsgid);
            },
        };
        let error = read_element(&arr, 2);
        let result = read_element(&arr, 3);
        Ok(RpcMessage::Response { msgid, error, result })
    } else if kind == 2 {
        let method = match read_method(&arr, 1) {
            Some(method) => method,
            None => {
                return Err(ParseError::MissingMethod);
            },
        };
        let params = match read_params(&arr, 2) {
            Ok(params) => params,
            Err(e) => {
                return Err(e);
            },
        };
        Ok(RpcMessage::Notification { method, params })
    } else {
        Err(ParseError::UnknownType)
    }
}

/// The integer that a message carries for the id `msgid`: the id itself.
pub open spec fn wire_id(msgid: u64) -> Msgpack {
    Msgpack::Integer(Integer::PosInt(msgid))
}

/// The call `[0, msgid, method, params]`.
pub open spec fn request_frame(msgid: u64, method: Seq<char>, params: Seq<Msgpack>) -> Msgpack {
    Msgpack::Array(
        seq![
            Msgpack::Integer(Integer::PosInt(0)),
            wire_id(msgid),
            Msgpack::String(method),
            Msgpack::Array(params),
        ],
    )
}

/// The value that stands for one that may be missing: `nil` where it is.
pub open spec fn or_nil(value: Option<Msgpack>) -> Msgpack {
    match value {
        Some(v) => v,
        None => Msgpack::Nil,
    }
}

/// The response `[1, msgid, error, result]`, with `nil` for what is missing.
pub open spec fn response_frame(
    msgid: u64,
    error: Option<Msgpack>,
    result: Option<Msgpack>,
) -> Msgpack {
    Msgpack::Array(
        seq![Msgpack::Integer(Integer::PosInt(1)), wire_id(msgid), or_nil(error), or_nil(result)],
    )
}

/// The notification `[2, method, params]`.
pub open spec fn notification_frame(method: Seq<char>, params: Seq<Msgpack>) -> Msgpack {
    Msgpack::Array(
        seq![Msgpack::Integer(Integer::PosInt(2)), Msgpack::String(method), Msgpack::Array(params)],
    )
}

fn unwrap_or_nil(value: Option<MsgpackValue>) -> (r: MsgpackValue)
    ensures
        r@ == or_nil(optional_view(value)),
{
    match value {
        Some(v) => v,
        None => MsgpackValue::Nil,
    }
}

/// Frames a call to the host.
pub fn encode_request(msgid: u64, method: &str, params: Vec<MsgpackValue>) -> (r: MsgpackValue)
    ensures
        r@ == request_frame(msgid, method@, items_view(params@)),
{
    let ghost p = items_view(params@);
    let mut items: Vec<MsgpackValue> = Vec::new();
    items.push(MsgpackValue::Integer(Integer::PosInt(0)));
    items.push(MsgpackValue::from_u64(msgid));
    items.push(MsgpackValue::string(method));
    items.push(MsgpackValue::array(params));
    proof {
        lemma_array_view(items);
        assert(items_view(items@) =~= seq![
            Msgpack::Integer(Integer::PosInt(0)),
            wire_id(msgid),
            Msgpack::String(method@),
            Msgpack::Array(p),
        ]);
    }
    MsgpackValue::Array(items)
}

/// Frames the response to the host's call `msgid`.
pub fn encode_response(
    msgid: u64,
    error: Option<MsgpackValue>,
    result: Option<MsgpackValue>,
) -> (r: MsgpackValue)
    ensures
        r@ == response_frame(msgid, optional_view(error), optional_view(result)),
{
    let ghost e = or_nil(optional_view(error));
    let ghost v = or_nil(optional_view(result));
    let mut items: Vec<MsgpackValue> = Vec::new();
    items.push(MsgpackValue::Integer(Integer::PosInt(1)));
    items.push(MsgpackValue::from_u64(msgid));
    items.push(unwrap_or_nil(error));
    items.push(unwrap_or_nil(result));
    proof {
        lemma_array_view(items);
        assert(items_view(items@) =~= seq![
            Msgpack::Integer(Integer::PosInt(1)),
            wire_id(msgid),
            e,
            v,
        ]);
    }
    MsgpackValue::Array(items)
}

/// Frames a notification to the host.
pub fn encode_notification(method: &str, params: Vec<MsgpackValue>) -> (r: MsgpackValue)
    ensures
        r@ == notification_frame(method@, items_view(params@)),
{
    let ghost p = items_view(params@);
    let mut items: Vec<MsgpackValue> = Vec::new();
    items.push(MsgpackValue::Integer(Integer::PosInt(2)));
    items.push(MsgpackValue::string(method));
    items.push(MsgpackValue::array(params));
    proof {
        lemma_array_view(items);
        assert(items_view(items@) =~= seq![
            Msgpack::Integer(Integer::PosInt(2)),
            Msgpack::String(method@),
            Msgpack::Array(p),
        ]);
    }
    MsgpackValue::Array(items)
}

/// A call that was framed and is read again is the same call.
pub proof fn law_request_round_trip(msgid: u64, method: Seq<char>, params: Seq<Msgpack>)
    ensures
        message_of(request_frame(msgid, method, params)) == Ok::<Message, ParseError>(
            Message::Request { msgid, method, params },
        ),
{
}

/// A response that was framed and is read again bears the id of the call it
/// answers; what was missing comes back as `nil`.
pub proof fn law_response_round_trip(
    msgid: u64,
    error: Option<Msgpack>,
    result: Option<Msgpack>,
)
    ensures
        message_of(response_frame(msgid, error, result)) == Ok::<Message, ParseError>(
            Message::Response {
                msgid,
                error: Some(or_nil(error)),
                result: Some(or_nil(result)),
            },
        ),
{
}

/// A notification that was framed and is read again is the same notification.
pub proof fn law_notification_round_trip(method: Seq<char>, params: Seq<Msgpack>)
    ensures
        message_of(notification_frame(method, params)) == Ok::<Message, ParseError>(
            Message::Notification { method, params },
        ),
{
}

/// What the host's answer means for the caller: the error where there is
/// one that is not `nil`, else the result, `nil` where there is none.
pub open spec fn reply_outcome(error: Option<Msgpack>, result: Option<Msgpack>) -> Result<
    Msgpack,
    Msgpack,
> {
    match error {
        Some(e) => if e == Msgpack::Nil {
            Ok(or_nil(result))
        } else {
            Err(e)
        },
        None => Ok(or_nil(result)),
    }
}

/// The content of an answer.
pub open spec fn outcome_view(outcome: Result<MsgpackValue, MsgpackValue>) -> Result<
    Msgpack,
    Msgpack,
> {
    match outcome {
        Ok(v) => Ok(v@),
        Err(e) => Err(e@),
    }
}

/// The calls that the bridge has made to the host and that the host has not
/// answered yet, with the counter that numbers them.
pub struct RpcClient<S> {
    pending: PendingTable<S>,
    next_id: IdCounter,
}

impl<S> RpcClient<S> {
    /// The slots of the calls that are not answered yet, by id.
    pub closed spec fn pending(&self) -> Map<u64, S> {
        self.pending@
    }

    /// The id that the next call gets.
    pub closed spec fn upcoming(&self) -> u64 {
        self.next_id.upcoming()
    }

    /// A client that has made no call: the first id is 1.
    pub fn new() -> (r: RpcClient<S>)
        ensures
            r.pending() == Map::<u64, S>::empty(),
            r.upcoming() == 1,
    {
        RpcClient { pending: PendingTable::new(), next_id: IdCounter::new() }
    }

    /// Whether the answer to the call `msgid` is awaited.
    pub fn is_pending(&self, msgid: u64) -> (r: bool)
        ensures
            r == self.pending().contains_key(msgid),
    {
        self.pending.contains(msgid)
    }

    /// Delivers the host's answer to the call `msgid`: takes the call's slot
    /// out of the table and hands it back with what the answer means. An
    /// answer to a call that is not awaited changes nothing.
    pub fn handle_response(
        &mut self,
        msgid: u64,
        error: Option<MsgpackValue>,
        result: Option<MsgpackValue>,
    ) -> (r: Option<(S, Result<MsgpackValue, MsgpackValue>)>)
        ensures
            final(self).pending() == old(self).pending().remove(msgid),
            final(self).upcoming() == old(self).upcoming(),
            match r {
                Some((slot, outcome)) => slot_of(old(self).pending(), msgid) == Some(slot)
                    && outcome_view(outcome) == reply_outcome(
                    optional_view(error),
                    optional_view(result),
                ),
                None => slot_of(old(self).pending(), msgid) is None,
            },
    {
        match self.pending.resolve(msgid) {
            Some(slot) => {
                let failed = match &error {
                    Some(e) => !e.is_nil(),
                    None => false,
                };
                if failed {
                    match error {
                        Some(e) => Some((slot, Err(e))),
                        None => Some((slot, Ok(MsgpackValue::Nil))),
                    }
                } else {
                    Some((slot, Ok(unwrap_or_nil(result))))
                }
            },
            None => None,
        }
    }

    /// Makes a call to the host: gives it the next id, awaits its answer in
    /// `slot` and returns the frame to send. Where no id is left, nothing is
    /// registered and nothing is returned.
    pub fn request(&mut self, method: &str, params: Vec<MsgpackValue>, slot: S) -> (r: Option<
        MsgpackValue,
    >)
        ensures
            old(self).upcoming() < u64::MAX ==> {
                &&& r matches Some(frame)
                &&& frame@ == request_frame(old(self).upcoming(), method@, items_view(params@))
                &&& final(self).pending() == old(self).pending().insert(
                    old(self).upcoming(),
                    slot,
                )
                &&& final(self).upcoming() == old(self).upcoming() + 1
            },
            old(self).upcoming() == u64::MAX ==> {
                &&& r is None
                &&& final(self).pending() == old(self).pending()
                &&& final(self).upcoming() == old(self).upcoming()
            },
    {
        match self.next_id.allocate() {
            Some(msgid) => {
                let _ = self.pending.register(msgid, slot);
                Some(encode_request(msgid, method, params))
            },
            None => None,
        }
    }

    /// Frames a notification to the host. Nothing is awaited.
    pub fn notify(&self, method: &str, params: Vec<MsgpackValue>) -> (r: MsgpackValue)
        ensures
            r@ == notification_frame(method@, items_view(params@)),
    {
        encode_notification(method, params)
    }
}

/// A command of the host that does not come with exactly one parameter.
#[derive(Clone, Copy, Debug, PartialEq, Eq, Structural)]
pub struct ParamCountError {
    /// The number of parameters that came.
    pub got: usize,
}

/// The one parameter that a command of the host comes with.
pub fn as_single_param(params: Vec<MsgpackValue>) -> (r: Result<MsgpackValue, ParamCountError>)
    ensures
        match r {
            Ok(v) => params@.len() == 1 && v == params@[0],
            Err(e) => params@.len() != 1 && e.got == params@.len(),
        },
{
    let mut params = params;
    let got = params.len();
    if got != 1 {
        return Err(ParamCountError { got });
    }
    match params.pop() {
        Some(v) => Ok(v),
        None => Err(ParamCountError { got }),
    }
}

} // verus!
