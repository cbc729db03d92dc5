use cog_agent::msgpack::{Integer, MsgpackValue};
use cog_agent::rpc::{
    as_single_param, encode_notification, encode_request, encode_response, parse_message,
    ParamCountError, ParseError, RpcClient, RpcMessage,
};

fn num(n: i64) -> MsgpackValue {
    MsgpackValue::from_i64(n)
}

fn txt(s: &str) -> MsgpackValue {
    MsgpackValue::string(s)
}

#[test]
fn a_call_is_read() {
    let v = MsgpackValue::Array(vec![
        num(0),
        num(9),
        txt("cog_prompt"),
        MsgpackValue::Array(vec![txt("a"), MsgpackValue::Nil]),
    ]);
    assert_eq!(
        parse_message(v),
        Ok(RpcMessage::Request {
            msgid: 9,
            method: "cog_prompt".to_string(),
            params: vec![txt("a"), MsgpackValue::Nil],
        })
    );
}

#[test]
fn a_call_without_parameters_has_none() {
    let v = MsgpackValue::Array(vec![num(0), num(1), txt("cog_disconnect")]);
    assert_eq!(
        parse_message(v),
        Ok(RpcMessage::Request { msgid: 1, method: "cog_disconnect".to_string(), params: vec![] })
    );
}

#[test]
fn a_response_is_read() {
    let v = MsgpackValue::Array(vec![num(1), num(3), MsgpackValue::Nil, txt("ok")]);
    assert_eq!(
        parse_message(v),
        Ok(RpcMessage::Response { msgid: 3, error: Some(MsgpackValue::Nil), result: Some(txt("ok")) })
    );
    let short = MsgpackValue::Array(vec![num(1), num(3)]);
    assert_eq!(parse_message(short), Ok(RpcMessage::Response { msgid: 3, error: None, result: None }));
    let half = MsgpackValue::Array(vec![num(1), num(3), txt("bad")]);
    assert_eq!(
        parse_message(half),
        Ok(RpcMessage::Response { msgid: 3, error: Some(txt("bad")), result: None })
    );
}

#[test]
fn a_notification_is_read() {
    let v = MsgpackValue::Array(vec![num(2), txt("redraw"), MsgpackValue::Array(vec![num(-1)])]);
    assert_eq!(
        parse_message(v),
        Ok(RpcMessage::Notification { method: "redraw".to_string(), params: vec![num(-1)] })
    );
    let bare = MsgpackValue::Array(vec![num(2), txt("redraw")]);
    assert_eq!(
        parse_message(bare),
        Ok(RpcMessage::Notification { method: "redraw".to_string(), params: vec![] })
    );
}

#[test]
fn what_is_no_array_is_no_message() {
    assert_eq!(parse_message(MsgpackValue::Nil), Err(ParseError::NotArray));
    assert_eq!(parse_message(num(0)), Err(ParseError::NotArray));
    assert_eq!(parse_message(MsgpackValue::Pairs(vec![])), Err(ParseError::NotArray));
    assert_eq!(ParseError::NotArray.message(), "msgpack-rpc message is not array");
}

#[test]
fn a_message_needs_a_type() {
    assert_eq!(parse_message(MsgpackValue::Array(vec![])), Err(ParseError::MissingType));
    assert_eq!(parse_message(MsgpackValue::Array(vec![txt("0")])), Err(ParseError::MissingType));
    assert_eq!(
        parse_message(MsgpackValue::Array(vec![MsgpackValue::from_u64(u64::MAX)])),
        Err(ParseError::MissingType)
    );
    assert_eq!(parse_message(MsgpackValue::Array(vec![MsgpackValue::F64(0)])), Err(ParseError::MissingType));
    assert_eq!(ParseError::MissingType.message(), "missing msg type");
}

#[test]
fn only_three_types_are_known() {
    assert_eq!(parse_message(MsgpackValue::Array(vec![num(3)])), Err(ParseError::UnknownType));
    assert_eq!(parse_message(MsgpackValue::Array(vec![num(-1)])), Err(ParseError::UnknownType));
    assert_eq!(ParseError::UnknownType.message(), "unknown msg type");
}

#[test]
fn a_call_needs_an_id_and_a_method() {
    assert_eq!(parse_message(MsgpackValue::Array(vec![num(0)])), Err(ParseError::MissingMsgid));
    assert_eq!(
        parse_message(MsgpackValue::Array(vec![num(0), num(-1), txt("m")])),
        Err(ParseError::MissingMsgid)
    );
    assert_eq!(
        parse_message(MsgpackValue::Array(vec![num(1), txt("1")])),
        Err(ParseError::MissingMsgid)
    );
    assert_eq!(parse_message(MsgpackValue::Array(vec![num(0), num(1)])), Err(ParseError::MissingMethod));
    assert_eq!(
        parse_message(MsgpackValue::Array(vec![num(0), num(1), num(2)])),
        Err(ParseError::MissingMethod)
    );
    assert_eq!(
        parse_message(MsgpackValue::Array(vec![num(0), num(1), MsgpackValue::RawString(vec![0xff])])),
        Err(ParseError::MissingMethod)
    );
    assert_eq!(parse_message(MsgpackValue::Array(vec![num(2)])), Err(ParseError::MissingMethod));
    assert_eq!(ParseError::MissingMsgid.message(), "missing msgid");
    assert_eq!(ParseError::MissingMethod.message(), "missing method");
}

#[test]
fn parameters_must_be_an_array() {
    assert_eq!(
        parse_message(MsgpackValue::Array(vec![num(0), num(1), txt("m"), MsgpackValue::Nil])),
        Err(ParseError::ParamsNotArray)
    );
    assert_eq!(
        parse_message(MsgpackValue::Array(vec![num(2), txt("m"), txt("p")])),
        Err(ParseError::ParamsNotArray)
    );
    assert_eq!(ParseError::ParamsNotArray.message(), "params must be array");
}

#[test]
fn the_first_fault_is_the_one_reported() {
    assert_eq!(
        parse_message(MsgpackValue::Array(vec![num(0), txt("x"), num(1), num(2)])),
        Err(ParseError::MissingMsgid)
    );
    assert_eq!(
        parse_message(MsgpackValue::Array(vec![num(0), num(1), num(1), num(2)])),
        Err(ParseError::MissingMethod)
    );
}

#[test]
fn frames_have_the_three_shapes() {
    assert_eq!(
        encode_request(5, "nvim_exec_lua", vec![txt("code")]),
        MsgpackValue::Array(vec![
            MsgpackValue::Integer(Integer::PosInt(0)),
            MsgpackValue::Integer(Integer::PosInt(5)),
            txt("nvim_exec_lua"),
            MsgpackValue::Array(vec![txt("code")]),
        ])
    );
    assert_eq!(
        encode_response(6, None, Some(MsgpackValue::Boolean(true))),
        MsgpackValue::Array(vec![
            MsgpackValue::Integer(Integer::PosInt(1)),
            MsgpackValue::Integer(Integer::PosInt(6)),
            MsgpackValue::Nil,
            MsgpackValue::Boolean(true),
        ])
    );
    assert_eq!(
        encode_response(6, Some(txt("failed")), None),
        MsgpackValue::Array(vec![
            MsgpackValue::Integer(Integer::PosInt(1)),
            MsgpackValue::Integer(Integer::PosInt(6)),
            txt("failed"),
            MsgpackValue::Nil,
        ])
    );
    assert_eq!(
        encode_notification("event", vec![]),
        MsgpackValue::Array(vec![
            MsgpackValue::Integer(Integer::PosInt(2)),
            txt("event"),
            MsgpackValue::Array(vec![]),
        ])
    );
}

#[test]
fn every_id_goes_out_as_it_is() {
    assert_eq!(
        encode_request(u64::MAX, "m", vec![]),
        MsgpackValue::Array(vec![
            MsgpackValue::Integer(Integer::PosInt(0)),
            MsgpackValue::Integer(Integer::PosInt(u64::MAX)),
            txt("m"),
            MsgpackValue::Array(vec![]),
        ])
    );
    assert_eq!(
        parse_message(encode_response(i64::MAX as u64 + 1, None, None)),
        Ok(RpcMessage::Response {
            msgid: i64::MAX as u64 + 1,
            error: Some(MsgpackValue::Nil),
            result: Some(MsgpackValue::Nil),
        })
    );
    assert_eq!(
        parse_message(encode_request(u64::MAX, "m", vec![])),
        Ok(RpcMessage::Request { msgid: u64::MAX, method: "m".to_string(), params: vec![] })
    );
}

#[test]
fn a_frame_that_is_read_again_is_the_same_message() {
    assert_eq!(
        parse_message(encode_request(12, "m", vec![num(1)])),
        Ok(RpcMessage::Request { msgid: 12, method: "m".to_string(), params: vec![num(1)] })
    );
    assert_eq!(
        parse_message(encode_notification("n", vec![txt("x")])),
        Ok(RpcMessage::Notification { method: "n".to_string(), params: vec![txt("x")] })
    );
    assert_eq!(
        parse_message(encode_response(12, None, Some(num(4)))),
        Ok(RpcMessage::Response { msgid: 12, error: Some(MsgpackValue::Nil), result: Some(num(4)) })
    );
}

#[test]
fn integers_convert_as_far_as_they_fit() {
    assert_eq!(Integer::PosInt(7).as_i64(), Some(7));
    assert_eq!(Integer::PosInt(u64::MAX).as_i64(), None);
    assert_eq!(Integer::PosInt(u64::MAX).as_u64(), Some(u64::MAX));
    assert_eq!(Integer::NegInt(-7).as_i64(), Some(-7));
    assert_eq!(Integer::NegInt(-7).as_u64(), None);
    assert_eq!(Integer::NegInt(7).as_u64(), Some(7));
    assert_eq!(Integer::from_i64(-1), Integer::NegInt(-1));
    assert_eq!(Integer::from_i64(1), Integer::PosInt(1));
    assert_eq!(txt("s").as_str(), Some("s"));
    assert_eq!(MsgpackValue::Binary(vec![b's']).as_str(), None);
    assert_eq!(txt("1").as_i64(), None);
    assert!(MsgpackValue::Nil.is_nil());
    assert!(!MsgpackValue::Boolean(false).is_nil());
}

#[test]
fn a_msgpack_clone_is_equal_to_what_it_copies() {
    let v = MsgpackValue::Pairs(vec![
        (txt("k"), MsgpackValue::Array(vec![num(-1), MsgpackValue::F32(1), MsgpackValue::F64(2)])),
        (MsgpackValue::Binary(vec![1, 2]), MsgpackValue::Ext(-3, vec![4])),
        (MsgpackValue::RawString(vec![0xff]), MsgpackValue::Boolean(true)),
    ]);
    assert_eq!(v.clone(), v);
}

#[test]
fn host_calls_are_numbered_from_one() {
    let mut rpc: RpcClient<&str> = RpcClient::new();
    let first = rpc.request("a", vec![], "first").expect("an id is left");
    let second = rpc.request("b", vec![num(1)], "second").expect("an id is left");
    assert_eq!(first, encode_request(1, "a", vec![]));
    assert_eq!(second, encode_request(2, "b", vec![num(1)]));
    assert!(rpc.is_pending(1));
    assert!(rpc.is_pending(2));
    assert!(!rpc.is_pending(3));
}

#[test]
fn a_host_answer_reaches_its_call_once() {
    let mut rpc: RpcClient<&str> = RpcClient::new();
    rpc.request("a", vec![], "first").expect("an id is left");
    rpc.request("b", vec![], "second").expect("an id is left");
    assert_eq!(rpc.handle_response(2, None, Some(num(5))), Some(("second", Ok(num(5)))));
    assert_eq!(rpc.handle_response(2, None, Some(num(5))), None);
    assert!(rpc.is_pending(1));
    assert_eq!(
        rpc.handle_response(1, Some(txt("boom")), Some(num(5))),
        Some(("first", Err(txt("boom"))))
    );
    assert!(!rpc.is_pending(1));
    assert_eq!(rpc.handle_response(77, None, None), None);
}

#[test]
fn a_nil_error_is_no_error() {
    let mut rpc: RpcClient<u8> = RpcClient::new();
    rpc.request("a", vec![], 1).expect("an id is left");
    assert_eq!(rpc.handle_response(1, Some(MsgpackValue::Nil), None), Some((1, Ok(MsgpackValue::Nil))));
    rpc.request("a", vec![], 2).expect("an id is left");
    assert_eq!(
        rpc.handle_response(2, Some(MsgpackValue::Boolean(false)), Some(num(1))),
        Some((2, Err(MsgpackValue::Boolean(false))))
    );
}

#[test]
fn a_host_notification_waits_for_nothing() {
    let rpc: RpcClient<u8> = RpcClient::new();
    assert_eq!(rpc.notify("n", vec![num(1)]), encode_notification("n", vec![num(1)]));
    assert!(!rpc.is_pending(1));
}

#[test]
fn a_command_comes_with_one_parameter() {
    assert_eq!(as_single_param(vec![txt("only")]), Ok(txt("only")));
    assert_eq!(as_single_param(vec![]), Err(ParamCountError { got: 0 }));
    assert_eq!(as_single_param(vec![num(1), num(2)]), Err(ParamCountError { got: 2 }));
}
