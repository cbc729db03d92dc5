use crate::json::{members_view, Json, JsonNumber, JsonValue};
use crate::json::{items_view as json_items_view, lemma_array_view as lemma_json_array_view};
use crate::json::lemma_object_view;
use crate::msgpack::{items_view, lemma_array_view, lemma_pairs_view, pairs_view};
use crate::msgpack::{Integer, Msgpack, MsgpackValue};
use vstd::prelude::*;

verus! {

broadcast use vstd::std_specs::vec::group_vec_axioms;

/// The MessagePack value for a JSON number: an integer that fits in `i64` is
/// held as the signed number it is, a larger one as unsigned, and a double
/// keeps its bits.
pub open spec fn packed_number(n: JsonNumber) -> Msgpack {
    match n.spec_as_i64() {
        Some(i) => Msgpack::from_i64(i),
        None => match n {
            JsonNumber::PosInt(u) => Msgpack::Integer(Integer::PosInt(u)),
            JsonNumber::NegInt(i) => Msgpack::from_i64(i),
            JsonNumber::Float(bits) => Msgpack::F64(bits),
        },
    }
}

/// The MessagePack value that the host gets for a JSON document: `null` is
/// `nil`, an array stays an array, and an object becomes a map from its keys,
/// as strings, to its values, in the order of its members.
pub open spec fn packed(value: Json) -> Msgpack
    decreases value,
{
    match value {
        Json::Null => Msgpack::Nil,
        Json::Bool(b) => Msgpack::Boolean(b),
        Json::Number(n) => packed_number(n),
        Json::String(s) => Msgpack::String(s),
        Json::Array(items) => Msgpack::Array(
            Seq::new(
                items.len(),
                |i: int|
                    if 0 <= i < items.len() {
                        packed(items[i])
                    } else {
                        Msgpack::Nil
                    },
            ),
        ),
        Json::Object(members) => Msgpack::Pairs(
            Seq::new(
                members.len(),
                |i: int|
                    if 0 <= i < members.len() {
                        (Msgpack::String(members[i].0), packed(members[i].1))
                    } else {
                        (Msgpack::Nil, Msgpack::Nil)
                    },
            ),
        ),
    }
}

/// The elements of a packed array, one by one.
pub open spec fn packed_items(items: Seq<Json>) -> Seq<Msgpack> {
    Seq::new(items.len(), |i: int| packed(items[i]))
}

/// The pairs of a packed object, one by one.
pub open spec fn packed_members(members: Seq<(Seq<char>, Json)>) -> Seq<(Msgpack, Msgpack)> {
    Seq::new(members.len(), |i: int| (Msgpack::String(members[i].0), packed(members[i].1)))
}

/// A packed array holds the packed elements.
pub proof fn lemma_packed_array(items: Seq<Json>)
    ensures
        packed(Json::Array(items)) == Msgpack::Array(packed_items(items)),
{
    reveal_with_fuel(packed, 2);
    assert(packed(Json::Array(items))->Array_0 =~= packed_items(items));
}

/// A packed object holds the packed members.
pub proof fn lemma_packed_object(members: Seq<(Seq<char>, Json)>)
    ensures
        packed(Json::Object(members)) == Msgpack::Pairs(packed_members(members)),
{
    reveal_with_fuel(packed, 2);
    assert(packed(Json::Object(members))->Pairs_0 =~= packed_members(members));
}

fn number_to_rmpv(n: JsonNumber) -> (r: MsgpackValue)
    ensures
        r@ == packed_number(n),
{
    match n.as_i64() {
        Some(i) => MsgpackValue::from_i64(i),
        None => match n {
            JsonNumber::PosInt(u) => MsgpackValue::from_u64(u),
            JsonNumber::NegInt(i) => MsgpackValue::from_i64(i),
            JsonNumber::Float(bits) => MsgpackValue::F64(bits),
        },
    }
}

/// Turns a JSON document into the MessagePack value that the host gets for
/// it.
pub fn json_to_rmpv(value: &JsonValue) -> (r: MsgpackValue)
    ensures
        r@ == packed(value@),
    decreases value,
{
    match value {
        JsonValue::Null => MsgpackValue::Nil,
        JsonValue::Bool(b) => MsgpackValue::Boolean(*b),
        JsonValue::Number(n) => number_to_rmpv(*n),
        JsonValue::String(s) => MsgpackValue::String(s.clone()),
        JsonValue::Array(items) => {
            let mut out: Vec<MsgpackValue> = Vec::new();
            let mut i: usize = 0;
            while i < items.len()
                invariant
                    0 <= i <= items.len(),
                    *value == JsonValue::Array(*items),
                    out.len() == i,
                    forall|j: int| 0 <= j < i ==> out[j]@ == packed(items[j]@),
                decreases items.len() - i,
            {
                assert(decreases_to!(*value => value->Array_0));
                let item = json_to_rmpv(&items[i]);
                out.push(item);
                i += 1;
            }
            proof {
                lemma_json_array_view(*items);
                lemma_packed_array(json_items_view(items@));
                lemma_array_view(out);
                assert(items_view(out@) =~= packed_items(json_items_view(items@)));
            }
            MsgpackValue::Array(out)
        },
        JsonValue::Object(members) => {
            let mut out: Vec<(MsgpackValue, MsgpackValue)> = Vec::new();
            let mut i: usize = 0;
            while i < members.len()
                invariant
                    0 <= i <= members.len(),
                    *value == JsonValue::Object(*members),
                    out.len() == i,
                    forall|j: int|
                        0 <= j < i ==> out[j].0@ == Msgpack::String(members[j].0@) && out[j].1@
                            == packed(members[j].1@),
                decreases members.len() - i,
            {
                assert(decreases_to!(*value => value->Object_0));
                let key = MsgpackValue::String(members[i].0.clone());
                let item = json_to_rmpv(&members[i].1);
                out.push((key, item));
                i += 1;
            }
            proof {
                lemma_object_view(*members);
                lemma_packed_object(members_view(members@));
                lemma_pairs_view(out);
                assert(pairs_view(out@) =~= packed_members(members_view(members@)));
            }
            MsgpackValue::Pairs(out)
        },
    }
}

} // verus!
