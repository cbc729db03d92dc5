use cog_agent::convert::json_to_rmpv;
use cog_agent::json::{JsonNumber, JsonValue};
use cog_agent::json_text::parse;
use cog_agent::msgpack::{Integer, MsgpackValue};

#[test]
fn plain_values_keep_their_kind() {
    assert_eq!(json_to_rmpv(&JsonValue::Null), MsgpackValue::Nil);
    assert_eq!(json_to_rmpv(&JsonValue::Bool(true)), MsgpackValue::Boolean(true));
    assert_eq!(json_to_rmpv(&JsonValue::string("s")), MsgpackValue::String("s".to_string()));
}

#[test]
fn numbers_keep_their_value() {
    assert_eq!(
        json_to_rmpv(&JsonValue::unsigned(5)),
        MsgpackValue::Integer(Integer::PosInt(5))
    );
    assert_eq!(
        json_to_rmpv(&JsonValue::unsigned(u64::MAX)),
        MsgpackValue::Integer(Integer::PosInt(u64::MAX))
    );
    assert_eq!(
        json_to_rmpv(&JsonValue::signed(-5)),
        MsgpackValue::Integer(Integer::NegInt(-5))
    );
    assert_eq!(
        json_to_rmpv(&JsonValue::Number(JsonNumber::NegInt(5))),
        MsgpackValue::Integer(Integer::PosInt(5))
    );
    assert_eq!(
        json_to_rmpv(&JsonValue::Number(JsonNumber::Float(2.5f64.to_bits()))),
        MsgpackValue::F64(2.5f64.to_bits())
    );
}

#[test]
fn arrays_and_objects_are_converted_member_by_member() {
    let v = JsonValue::Object(vec![
        ("list".to_string(), JsonValue::Array(vec![JsonValue::unsigned(1), JsonValue::Null])),
        ("inner".to_string(), JsonValue::object1("k", JsonValue::Bool(false))),
    ]);
    assert_eq!(
        json_to_rmpv(&v),
        MsgpackValue::Pairs(vec![
            (
                MsgpackValue::string("list"),
                MsgpackValue::Array(vec![MsgpackValue::from_u64(1), MsgpackValue::Nil]),
            ),
            (
                MsgpackValue::string("inner"),
                MsgpackValue::Pairs(vec![(MsgpackValue::string("k"), MsgpackValue::Boolean(false))]),
            ),
        ])
    );
    assert_eq!(json_to_rmpv(&JsonValue::Array(vec![])), MsgpackValue::Array(vec![]));
    assert_eq!(json_to_rmpv(&JsonValue::Object(vec![])), MsgpackValue::Pairs(vec![]));
}

#[test]
fn a_handshake_reply_reaches_the_host_unchanged() {
    let reply = parse(
        "{\"serverInfo\": {\"name\": \"acp-stub\", \"version\": \"0.1.0\"}, \"capabilities\": {\"fs\": {\"readTextFile\": true}}}",
    )
    .expect("valid json");
    assert_eq!(
        json_to_rmpv(&reply),
        MsgpackValue::Pairs(vec![
            (
                MsgpackValue::string("capabilities"),
                MsgpackValue::Pairs(vec![(
                    MsgpackValue::string("fs"),
                    MsgpackValue::Pairs(vec![(
                        MsgpackValue::string("readTextFile"),
                        MsgpackValue::Boolean(true),
                    )]),
                )]),
            ),
            (
                MsgpackValue::string("serverInfo"),
                MsgpackValue::Pairs(vec![
                    (MsgpackValue::string("name"), MsgpackValue::string("acp-stub")),
                    (MsgpackValue::string("version"), MsgpackValue::string("0.1.0")),
                ]),
            ),
        ])
    );
}
