use crate::commands::texts_view;
use crate::convert::{json_to_rmpv, packed};
use crate::json::{Json, JsonValue};
use crate::msgpack::{items_view, Msgpack, MsgpackValue};
use crate::router::{error_event, event_view, result_view, Event, HostEvent, ReplyShape};
use crate::rpc::{
    encode_response, message_of, request_frame, response_frame, Message, ParseError, RpcClient,
};
use vstd::prelude::*;
use vstd::string::StringExecFns;

verus! {

/// The character for a digit.
pub open spec fn digit_char(d: nat) -> char {
    if d == 0 {
        '0'
    } else if d == 1 {
        '1'
    } else if d == 2 {
        '2'
    } else if d == 3 {
        '3'
    } else if d == 4 {
        '4'
    } else if d == 5 {
        '5'
    } else if d == 6 {
        '6'
    } else if d == 7 {
        '7'
    } else if d == 8 {
        '8'
    } else {
        '9'
    }
}

/// A number in decimal digits, without leading zeros.
pub open spec fn decimal_digits(n: nat) -> Seq<char>
    decreases n,
{
    if n < 10 {
        seq![digit_char(n)]
    } else {
        decimal_digits(n / 10).push(digit_char(n % 10))
    }
}

fn digit_text(d: u64) -> (r: &'static str)
    requires
        d < 10,
    ensures
        r@ == seq![digit_char(d as nat)],
{
    proof {
        reveal_strlit("0");
        reveal_strlit("1");
        reveal_strlit("2");
        reveal_strlit("3");
        reveal_strlit("4");
        reveal_strlit("5");
        reveal_strlit("6");
        reveal_strlit("7");
        reveal_strlit("8");
        reveal_strlit("9");
    }
    let r = if d == 0 {
        "0"
    } else if d == 1 {
        "1"
    } else if d == 2 {
        "2"
    } else if d == 3 {
        "3"
    } else if d == 4 {
        "4"
    } else if d == 5 {
        "5"
    } else if d == 6 {
        "6"
    } else if d == 7 {
        "7"
    } else if d == 8 {
        "8"
    } else {
        "9"
    };
    r
}

/// Writes a number in decimal digits.
pub fn decimal(n: u64) -> (r: String)
    ensures
        r@ == decimal_digits(n as nat),
    decreases n,
{
    if n < 10 {
        digit_text(n).to_owned()
    } else {
        let head = decimal(n / 10);
        let tail = digit_text(n % 10);
        head.concat(tail)
    }
}

/// The words for a command that came with another number of parameters than
/// one.
pub open spec fn param_count_text(got: nat) -> Seq<char> {
    "expected single param, got "@ + decimal_digits(got)
}

/// The words for a command that came with another number of parameters than
/// one.
pub fn param_count_message(got: usize) -> (r: String)
    ensures
        r@ == param_count_text(got as nat),
{
    let digits = decimal(got as u64);
    "expected single param, got ".to_owned().concat(digits.as_str())
}

/// The words for a method that is no command.
pub open spec fn unknown_method_text(method: Seq<char>) -> Seq<char> {
    "unknown method "@ + method
}

/// The words for a method that is no command.
pub fn unknown_method_message(method: &str) -> (r: String)
    ensures
        r@ == unknown_method_text(method@),
{
    "unknown method ".to_owned().concat(method)
}

/// The lines, with `separator` between each two of them.
pub open spec fn joined(lines: Seq<Seq<char>>, separator: Seq<char>) -> Seq<char>
    decreases lines.len(),
{
    if lines.len() == 0 {
        Seq::empty()
    } else if lines.len() == 1 {
        lines[0]
    } else {
        joined(lines.drop_last(), separator) + separator + lines.last()
    }
}

/// Joins the lines, with `separator` between each two of them.
pub fn join(lines: &Vec<String>, separator: &str) -> (r: String)
    ensures
        r@ == joined(texts_view(lines@), separator@),
{
    let ghost all = texts_view(lines@);
    let mut out = String::new();
    let mut i: usize = 0;
    while i < lines.len()
        invariant
            0 <= i <= lines.len(),
            all == texts_view(lines@),
            out@ == joined(all.take(i as int), separator@),
        decreases lines.len() - i,
    {
        if i > 0 {
            out.append(separator);
        }
        out.append(lines[i].as_str());
        proof {
            let now = all.take(i + 1);
            assert(now.drop_last() =~= all.take(i as int));
        }
        i += 1;
    }
    assert(all.take(lines.len() as int) =~= all);
    out
}

/// What the failure of a handshake says of the agent's error output: nothing
/// where there was none, else the lines under a heading.
pub open spec fn stderr_note(lines: Seq<Seq<char>>) -> Seq<char> {
    if lines.len() == 0 {
        Seq::empty()
    } else {
        "\nProcess stderr:\n"@ + joined(lines, "\n"@)
    }
}

/// What the host gets for a call to the agent that has ended: the result, in
/// the shape that the command asks for, or the failure in words.
pub open spec fn call_answer(reply: ReplyShape, result: Result<Json, Seq<char>>) -> Result<
    Msgpack,
    Seq<char>,
> {
    match result {
        Ok(v) => Ok(
            match reply {
                ReplyShape::Result => packed(v),
                ReplyShape::Ack => Msgpack::Boolean(true),
            },
        ),
        Err(failure) => Err(failure),
    }
}

/// The words for a handshake that failed: the failure, and what the agent
/// wrote to its error output.
pub open spec fn connect_failure_text(failure: Seq<char>, stderr: Seq<Seq<char>>) -> Seq<char> {
    "initialize request failed: "@ + failure + stderr_note(stderr)
}

/// What the host gets for a handshake that has ended: the agent's reply as it
/// is, or the failure in words, with what the agent wrote to its error
/// output.
pub open spec fn connect_answer(result: Result<Json, Seq<char>>, stderr: Seq<Seq<char>>) -> Result<
    Msgpack,
    Seq<char>,
> {
    match result {
        Ok(v) => Ok(packed(v)),
        Err(failure) => Err(connect_failure_text(failure, stderr)),
    }
}

/// The event that tells the host of a prompt whose call has failed; none
/// where the call came back with a result.
pub open spec fn prompt_event(result: Result<Json, Seq<char>>) -> Option<Event> {
    match result {
        Ok(_) => None,
        Err(failure) => Some(error_event(failure)),
    }
}

/// The content of an answer.
pub open spec fn answer_view(answer: Result<MsgpackValue, String>) -> Result<Msgpack, Seq<char>> {
    match answer {
        Ok(v) => Ok(v@),
        Err(m) => Err(m@),
    }
}

/// The answer to the host for a call to the agent that has ended with
/// `result`.
pub fn finish_call(reply: ReplyShape, result: Result<JsonValue, String>) -> (r: Result<
    MsgpackValue,
    String,
>)
    ensures
        answer_view(r) == call_answer(reply, result_view(result)),
{
    match result {
        Ok(v) => Ok(
            match reply {
                ReplyShape::Result => json_to_rmpv(&v),
                ReplyShape::Ack => MsgpackValue::Boolean(true),
            },
        ),
        Err(failure) => Err(failure),
    }
}

/// The words for a handshake that failed.
pub fn connect_failure_message(failure: &str, stderr: &Vec<String>) -> (r: String)
    ensures
        r@ == connect_failure_text(failure@, texts_view(stderr@)),
{
    let mut text = "initialize request failed: ".to_owned();
    text.append(failure);
    if stderr.len() > 0 {
        text.append("\nProcess stderr:\n");
        let lines = join(stderr, "\n");
        text.append(lines.as_str());
    }
    text
}

/// The answer to the host for a handshake that has ended with `result`.
/// `stderr` holds the lines that the agent has written to its error output
/// so far.
pub fn finish_connect(result: Result<JsonValue, String>, stderr: &Vec<String>) -> (r: Result<
    MsgpackValue,
    String,
>)
    ensures
        answer_view(r) == connect_answer(result_view(result), texts_view(stderr@)),
{
    match result {
        Ok(v) => Ok(json_to_rmpv(&v)),
        Err(failure) => Err(connect_failure_message(failure.as_str(), stderr)),
    }
}

/// The event that tells the host of a prompt whose call has failed; none
/// where the call came back with a result.
pub fn prompt_failure(result: &Result<JsonValue, String>) -> (r: Option<HostEvent>)
    ensures
        event_view(r) == prompt_event(result_view(*result)),
{
    match result {
        Ok(_) => None,
        Err(failure) => {
            let message = "prompt request failed: ".to_owned().concat(failure.as_str());
            Some(
                HostEvent {
                    name: "CogError".to_owned(),
                    payload: JsonValue::object1("message", JsonValue::String(message)),
                },
            )
        },
    }
}

/// The response to the host's call `msgid`: the result, or the error in
/// words.
pub open spec fn reply_frame(msgid: u64, answer: Result<Msgpack, Seq<char>>) -> Msgpack {
    match answer {
        Ok(v) => response_frame(msgid, None, Some(v)),
        Err(text) => response_frame(msgid, Some(Msgpack::String(text)), None),
    }
}

/// Frames the one response that the host gets to its call `msgid`.
pub fn host_reply(msgid: u64, answer: Result<MsgpackValue, String>) -> (r: MsgpackValue)
    ensures
        r@ == reply_frame(msgid, answer_view(answer)),
{
    match answer {
        Ok(v) => encode_response(msgid, None, Some(v)),
        Err(text) => encode_response(msgid, Some(MsgpackValue::String(text)), None),
    }
}

/// Whatever comes of a call of the host, the frame that answers it is a
/// response that bears the call's id: with a result and no error, or with an
/// error and no result.
pub proof fn law_reply_bears_call_id(msgid: u64, answer: Result<Msgpack, Seq<char>>)
    ensures
        message_of(reply_frame(msgid, answer)) == Ok::<Message, ParseError>(
            match answer {
                Ok(v) => Message::Response { msgid, error: Some(Msgpack::Nil), result: Some(v) },
                Err(text) => Message::Response {
                    msgid,
                    error: Some(Msgpack::String(text)),
                    result: Some(Msgpack::Nil),
                },
            },
        ),
{
}

/// The code that the host runs for an event.
pub open spec fn notify_code() -> Seq<char> {
    "return require('cog.backend')._on_notify(...)"@
}

/// The parameters of the call that tells the host of an event: the code to
/// run, and its arguments, the name of the event and what it carries.
pub open spec fn event_call_params(event: Event) -> Seq<Msgpack> {
    seq![
        Msgpack::String(notify_code()),
        Msgpack::Array(seq![Msgpack::String(event.name), packed(event.payload)]),
    ]
}

/// Tells the host of an event, as a call of `nvim_exec_lua` whose answer
/// nobody needs: it waits in `slot` like that of any call. Where no id is
/// left, nothing is registered and nothing is returned.
pub fn notify_lua<S>(rpc: &mut RpcClient<S>, event: &HostEvent, slot: S) -> (r: Option<
    MsgpackValue,
>)
    ensures
        old(rpc).upcoming() < u64::MAX ==> {
            &&& r matches Some(frame)
            &&& frame@ == request_frame(
                old(rpc).upcoming(),
                "nvim_exec_lua"@,
                event_call_params(event@),
            )
            &&& final(rpc).pending() == old(rpc).pending().insert(old(rpc).upcoming(), slot)
            &&& final(rpc).upcoming() == old(rpc).upcoming() + 1
        },
        old(rpc).upcoming() == u64::MAX ==> {
            &&& r is None
            &&& final(rpc).pending() == old(rpc).pending()
            &&& final(rpc).upcoming() == old(rpc).upcoming()
        },
{
    let mut args: Vec<MsgpackValue> = Vec::new();
    args.push(MsgpackValue::string(event.name.as_str()));
    args.push(json_to_rmpv(&event.payload));
    assert(items_view(args@) =~= seq![Msgpack::String(event.name@), packed(event.payload@)]);
    let mut params: Vec<MsgpackValue> = Vec::new();
    params.push(MsgpackValue::string("return require('cog.backend')._on_notify(...)"));
    params.push(MsgpackValue::array(args));
    assert(items_view(params@) =~= event_call_params(event@));
    rpc.request("nvim_exec_lua", params, slot)
}

} // verus!
