use cog_agent::acp::{
    classify, frame_line, AcpClient, AcpInbound, AgentMessage, CallOutcome, LineEvent,
    OutboundCall, SlotState, EARLY_EXIT_CHECK_MILLIS, ERROR_CODE, POLL_INTERVAL_MILLIS,
    REQUEST_TIMEOUT_SECS,
};
use cog_agent::json::JsonValue;
use cog_agent::json_text::parse;

fn doc(text: &str) -> JsonValue {
    parse(text).expect("valid json")
}

fn reply_of(event: LineEvent<u8>) -> (u64, u8, Result<JsonValue, JsonValue>) {
    match event {
        LineEvent::Reply { id, slot, outcome } => (id, slot, outcome),
        _ => panic!("no reply"),
    }
}

#[test]
fn the_limits_are_those_of_the_protocol() {
    assert_eq!(REQUEST_TIMEOUT_SECS, 30);
    assert_eq!(POLL_INTERVAL_MILLIS, 10);
    assert_eq!(EARLY_EXIT_CHECK_MILLIS, 500);
    assert_eq!(ERROR_CODE, -32000);
}

#[test]
fn a_document_with_id_and_method_is_a_request() {
    let v = doc("{\"jsonrpc\":\"2.0\",\"id\":1000,\"method\":\"fs/write_text_file\",\"params\":{\"path\":\"/tmp/x\"}}");
    assert_eq!(
        classify(&v),
        AgentMessage::Inbound(AcpInbound::Request {
            id: 1000,
            method: "fs/write_text_file".to_string(),
            params: JsonValue::object1("path", JsonValue::string("/tmp/x")),
        })
    );
}

#[test]
fn a_request_without_parameters_has_null() {
    let v = doc("{\"id\":1,\"method\":\"m\"}");
    assert_eq!(
        classify(&v),
        AgentMessage::Inbound(AcpInbound::Request {
            id: 1,
            method: "m".to_string(),
            params: JsonValue::Null,
        })
    );
}

#[test]
fn a_request_whose_method_is_no_string_is_called_unknown() {
    let v = doc("{\"id\":1,\"method\":17}");
    assert_eq!(
        classify(&v),
        AgentMessage::Inbound(AcpInbound::Request {
            id: 1,
            method: "unknown".to_string(),
            params: JsonValue::Null,
        })
    );
    let w = doc("{\"id\":1,\"method\":null}");
    assert_eq!(
        classify(&w),
        AgentMessage::Inbound(AcpInbound::Request {
            id: 1,
            method: "unknown".to_string(),
            params: JsonValue::Null,
        })
    );
}

#[test]
fn a_document_with_id_and_no_method_is_a_reply() {
    assert_eq!(
        classify(&doc("{\"id\":4,\"result\":{\"sessionId\":\"s\"}}")),
        AgentMessage::Response {
            id: 4,
            outcome: Ok(JsonValue::object1("sessionId", JsonValue::string("s"))),
        }
    );
    assert_eq!(
        classify(&doc("{\"id\":4}")),
        AgentMessage::Response { id: 4, outcome: Ok(JsonValue::Null) }
    );
    assert_eq!(
        classify(&doc("{\"id\":4,\"error\":{\"code\":-32601,\"message\":\"method not found\"}}")),
        AgentMessage::Response {
            id: 4,
            outcome: Err(JsonValue::object2(
                "code",
                JsonValue::signed(-32601),
                "message",
                JsonValue::string("method not found"),
            )),
        }
    );
}

#[test]
fn an_error_wins_over_a_result() {
    assert_eq!(
        classify(&doc("{\"id\":4,\"result\":1,\"error\":null}")),
        AgentMessage::Response { id: 4, outcome: Err(JsonValue::Null) }
    );
}

#[test]
fn a_document_with_method_and_no_id_is_a_notification() {
    assert_eq!(
        classify(&doc("{\"method\":\"session/update\",\"params\":{\"type\":\"agent_message\"}}")),
        AgentMessage::Inbound(AcpInbound::Notification {
            method: "session/update".to_string(),
            params: JsonValue::object1("type", JsonValue::string("agent_message")),
        })
    );
}

#[test]
fn an_id_that_is_no_unsigned_integer_is_no_id() {
    assert_eq!(
        classify(&doc("{\"id\":\"7\",\"method\":\"m\"}")),
        AgentMessage::Inbound(AcpInbound::Notification {
            method: "m".to_string(),
            params: JsonValue::Null,
        })
    );
    assert_eq!(
        classify(&doc("{\"id\":-7,\"method\":\"m\"}")),
        AgentMessage::Inbound(AcpInbound::Notification {
            method: "m".to_string(),
            params: JsonValue::Null,
        })
    );
    assert_eq!(classify(&doc("{\"id\":1.5,\"result\":1}")), AgentMessage::Unrecognized);
    assert_eq!(classify(&doc("{\"id\":null,\"method\":3}")), AgentMessage::Unrecognized);
}

#[test]
fn anything_else_is_not_recognized() {
    assert_eq!(classify(&doc("{}")), AgentMessage::Unrecognized);
    assert_eq!(classify(&doc("{\"result\":1}")), AgentMessage::Unrecognized);
    assert_eq!(classify(&doc("[1,2]")), AgentMessage::Unrecognized);
    assert_eq!(classify(&doc("\"text\"")), AgentMessage::Unrecognized);
    assert_eq!(classify(&doc("17")), AgentMessage::Unrecognized);
}

#[test]
fn calls_are_numbered_from_one_and_framed() {
    let mut client: AcpClient<u8> = AcpClient::new();
    let first = client.request("initialize", JsonValue::Object(vec![]), 1).expect("an id is left");
    assert_eq!(
        first,
        OutboundCall {
            id: 1,
            message: JsonValue::Object(vec![
                ("id".to_string(), JsonValue::unsigned(1)),
                ("jsonrpc".to_string(), JsonValue::string("2.0")),
                ("method".to_string(), JsonValue::string("initialize")),
                ("params".to_string(), JsonValue::Object(vec![])),
            ]),
        }
    );
    let second = client.request("session/new", JsonValue::Null, 2).expect("an id is left");
    assert_eq!(second.id, 2);
    assert!(client.is_pending(1));
    assert!(client.is_pending(2));
    assert!(!client.is_pending(3));
}

#[test]
fn a_notification_to_the_agent_has_no_id() {
    let client: AcpClient<u8> = AcpClient::new();
    assert_eq!(
        client.notify("disconnect", JsonValue::Null),
        JsonValue::Object(vec![
            ("jsonrpc".to_string(), JsonValue::string("2.0")),
            ("method".to_string(), JsonValue::string("disconnect")),
            ("params".to_string(), JsonValue::Null),
        ])
    );
    assert_eq!(client.notify("m", JsonValue::Null).get("id"), None);
}

#[test]
fn an_answer_to_the_agent_carries_a_result_or_an_error() {
    let client: AcpClient<u8> = AcpClient::new();
    assert_eq!(
        client.respond(1000, Ok(JsonValue::Object(vec![]))),
        JsonValue::Object(vec![
            ("id".to_string(), JsonValue::unsigned(1000)),
            ("jsonrpc".to_string(), JsonValue::string("2.0")),
            ("result".to_string(), JsonValue::Object(vec![])),
        ])
    );
    assert_eq!(
        client.respond(3, Err("unsupported method".to_string())),
        JsonValue::Object(vec![
            (
                "error".to_string(),
                JsonValue::Object(vec![
                    ("code".to_string(), JsonValue::signed(-32000)),
                    ("message".to_string(), JsonValue::string("unsupported method")),
                ]),
            ),
            ("id".to_string(), JsonValue::unsigned(3)),
            ("jsonrpc".to_string(), JsonValue::string("2.0")),
        ])
    );
}

#[test]
fn an_answer_is_read_back_as_the_reply_it_is() {
    let client: AcpClient<u8> = AcpClient::new();
    assert_eq!(
        classify(&client.respond(5, Ok(JsonValue::string("r")))),
        AgentMessage::Response { id: 5, outcome: Ok(JsonValue::string("r")) }
    );
    assert_eq!(
        classify(&client.notify("n", JsonValue::unsigned(1))),
        AgentMessage::Inbound(AcpInbound::Notification {
            method: "n".to_string(),
            params: JsonValue::unsigned(1),
        })
    );
}

#[test]
fn blank_and_malformed_lines_change_nothing() {
    let mut client: AcpClient<u8> = AcpClient::new();
    client.request("m", JsonValue::Null, 9).expect("an id is left");
    assert!(matches!(client.handle_line(""), LineEvent::Blank));
    assert!(matches!(client.handle_line("   \t"), LineEvent::Blank));
    assert!(matches!(client.handle_line("{\"id\": 1,"), LineEvent::Malformed));
    assert!(matches!(client.handle_line("garbage"), LineEvent::Malformed));
    assert!(matches!(client.handle_line("{}"), LineEvent::Unrecognized));
    assert!(client.is_pending(1));
}

#[test]
fn a_reply_wakes_its_call_once() {
    let mut client: AcpClient<u8> = AcpClient::new();
    client.request("a", JsonValue::Null, 10).expect("an id is left");
    client.request("b", JsonValue::Null, 20).expect("an id is left");
    let event = client.handle_line("{\"jsonrpc\":\"2.0\",\"id\":2,\"result\":{\"ok\":true}}");
    assert_eq!(
        reply_of(event),
        (2, 20, Ok(JsonValue::object1("ok", JsonValue::Bool(true))))
    );
    assert!(!client.is_pending(2));
    assert!(client.is_pending(1));
    assert!(matches!(
        client.handle_line("{\"jsonrpc\":\"2.0\",\"id\":2,\"result\":{\"ok\":true}}"),
        LineEvent::Orphan { id: 2 }
    ));
    let event = client.handle_line("{\"id\":1,\"error\":\"nope\"}");
    assert_eq!(reply_of(event), (1, 10, Err(JsonValue::string("nope"))));
    assert!(!client.is_pending(1));
}

#[test]
fn a_reply_to_an_unknown_call_is_an_orphan() {
    let mut client: AcpClient<u8> = AcpClient::new();
    assert!(matches!(client.handle_line("{\"id\":5,\"result\":1}"), LineEvent::Orphan { id: 5 }));
}

#[test]
fn requests_and_notifications_go_to_the_inbound_queue() {
    let mut client: AcpClient<u8> = AcpClient::new();
    client.request("a", JsonValue::Null, 10).expect("an id is left");
    match client.handle_line("{\"id\":1,\"method\":\"fs/read_text_file\",\"params\":{\"path\":\"p\"}}") {
        LineEvent::Inbound(message) => assert_eq!(
            message,
            AcpInbound::Request {
                id: 1,
                method: "fs/read_text_file".to_string(),
                params: JsonValue::object1("path", JsonValue::string("p")),
            }
        ),
        _ => panic!("no inbound message"),
    }
    assert!(client.is_pending(1));
    match client.handle_line("{\"method\":\"session/update\",\"params\":[1]}") {
        LineEvent::Inbound(message) => assert_eq!(
            message,
            AcpInbound::Notification {
                method: "session/update".to_string(),
                params: JsonValue::Array(vec![JsonValue::unsigned(1)]),
            }
        ),
        _ => panic!("no inbound message"),
    }
}

#[test]
fn handle_message_does_what_handle_line_does_after_reading() {
    let mut client: AcpClient<u8> = AcpClient::new();
    client.request("a", JsonValue::Null, 10).expect("an id is left");
    let reply = JsonValue::object2("id", JsonValue::unsigned(1), "result", JsonValue::unsigned(8));
    assert_eq!(reply_of(client.handle_message(&reply)), (1, 10, Ok(JsonValue::unsigned(8))));
    assert!(matches!(client.handle_message(&reply), LineEvent::Orphan { id: 1 }));
    assert!(matches!(client.handle_message(&JsonValue::Null), LineEvent::Unrecognized));
}

#[test]
fn a_look_at_the_slot_decides() {
    let mut client: AcpClient<u8> = AcpClient::new();
    let call = client.request("a", JsonValue::Null, 10).expect("an id is left");
    assert_eq!(client.poll(call.id, SlotState::Empty, false), None);
    assert!(client.is_pending(call.id));
    assert_eq!(
        client.poll(call.id, SlotState::Ready(Ok(JsonValue::unsigned(1))), false),
        Some(CallOutcome::Value(JsonValue::unsigned(1)))
    );
    assert_eq!(
        client.poll(call.id, SlotState::Ready(Err(JsonValue::string("e"))), false),
        Some(CallOutcome::Remote(JsonValue::string("e")))
    );
    assert_eq!(client.poll(call.id, SlotState::Closed, false), Some(CallOutcome::Closed));
    assert!(client.is_pending(call.id));
}

#[test]
fn a_reply_that_is_there_wins_over_the_clock() {
    let mut client: AcpClient<u8> = AcpClient::new();
    let call = client.request("a", JsonValue::Null, 10).expect("an id is left");
    assert_eq!(
        client.poll(call.id, SlotState::Ready(Ok(JsonValue::Null)), true),
        Some(CallOutcome::Value(JsonValue::Null))
    );
    assert_eq!(client.poll(call.id, SlotState::Closed, true), Some(CallOutcome::Closed));
    assert!(client.is_pending(call.id));
}

#[test]
fn a_call_that_times_out_leaves_the_table() {
    let mut client: AcpClient<u8> = AcpClient::new();
    let kept = client.request("a", JsonValue::Null, 10).expect("an id is left");
    let call = client.request("b", JsonValue::Null, 20).expect("an id is left");
    assert_eq!(client.poll(call.id, SlotState::Empty, false), None);
    assert_eq!(client.poll(call.id, SlotState::Empty, true), Some(CallOutcome::TimedOut));
    assert!(!client.is_pending(call.id));
    assert!(client.is_pending(kept.id));
    assert!(matches!(
        client.handle_line("{\"id\":2,\"result\":\"late\"}"),
        LineEvent::Orphan { id: 2 }
    ));
    assert_eq!(
        CallOutcome::TimedOut.into_result(""),
        Err(
            "request timed out after 30 seconds - the ACP process may have failed to start or exited unexpectedly"
                .to_string()
        )
    );
}

#[test]
fn failures_have_their_own_words() {
    assert_eq!(
        CallOutcome::Value(JsonValue::unsigned(1)).into_result("x"),
        Ok(JsonValue::unsigned(1))
    );
    assert_eq!(
        CallOutcome::Closed.into_result("x"),
        Err("acp response channel closed - the ACP process may have exited".to_string())
    );
    assert_eq!(
        CallOutcome::Remote(JsonValue::Null).into_result("{\"code\":-32601}"),
        Err("acp error: {\"code\":-32601}".to_string())
    );
}

#[test]
fn a_message_is_framed_as_one_line() {
    assert_eq!(frame_line("{}"), vec![b'{', b'}', b'\n']);
    assert_eq!(frame_line(""), vec![b'\n']);
    assert_eq!(frame_line("\"é\""), vec![b'"', 0xc3, 0xa9, b'"', b'\n']);
}
