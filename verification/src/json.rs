use crate::text::str_eq;
use vstd::prelude::*;

verus! {

broadcast use vstd::std_specs::vec::group_vec_axioms;

/// A JSON number: an unsigned integer, a negative integer, or a double held
/// by its IEEE-754 bit pattern.
#[derive(Clone, Copy, Debug, PartialEq, Eq, Structural)]
pub enum JsonNumber {
    PosInt(u64),
    NegInt(i64),
    Float(u64),
}

impl JsonNumber {
    /// The number as a `u64`: only an unsigned integer is one.
    pub open spec fn spec_as_u64(self) -> Option<u64> {
        match self {
            JsonNumber::PosInt(n) => Some(n),
            _ => None,
        }
    }

    /// The number as an `i64`: a negative integer, or an unsigned one that fits.
    pub open spec fn spec_as_i64(self) -> Option<i64> {
        match self {
            JsonNumber::PosInt(n) => if n <= i64::MAX {
                Some(n as i64)
            } else {
                None
            },
            JsonNumber::NegInt(n) => Some(n),
            JsonNumber::Float(_) => None,
        }
    }

    /// The number that stands for the signed integer `n`.
    pub open spec fn spec_from_i64(n: i64) -> JsonNumber {
        if n < 0 {
            JsonNumber::NegInt(n)
        } else {
            JsonNumber::PosInt(n as u64)
        }
    }

    /// The number as a `u64`: only an unsigned integer is one.
    #[verifier::when_used_as_spec(spec_as_u64)]
    pub fn as_u64(self) -> (r: Option<u64>)
        ensures
            r == self.spec_as_u64(),
    {
        match self {
            JsonNumber::PosInt(n) => Some(n),
            _ => None,
        }
    }

    /// The number as an `i64`: a negative integer, or an unsigned one that fits.
    #[verifier::when_used_as_spec(spec_as_i64)]
    pub fn as_i64(self) -> (r: Option<i64>)
        ensures
            r == self.spec_as_i64(),
    {
        match self {
            JsonNumber::PosInt(n) => if n <= 0x7fff_ffff_ffff_ffff {
                Some(n as i64)
            } else {
                None
            },
            JsonNumber::NegInt(n) => Some(n),
            JsonNumber::Float(_) => None,
        }
    }

    /// The number that stands for the signed integer `n`.
    #[verifier::when_used_as_spec(spec_from_i64)]
    pub fn from_i64(n: i64) -> (r: JsonNumber)
        ensures
            r == JsonNumber::spec_from_i64(n),
    {
        if n < 0 {
            JsonNumber::NegInt(n)
        } else {
            JsonNumber::PosInt(n as u64)
        }
    }
}

/// A JSON document.
///
/// An object keeps its members in the order in which they were written. Where
/// a key occurs more than once, the last member with that key is the one the
/// object has.
#[derive(Debug, PartialEq, Eq)]
pub enum JsonValue {
    Null,
    Bool(bool),
    Number(JsonNumber),
    String(String),
    Array(Vec<JsonValue>),
    Object(Vec<(String, JsonValue)>),
}

/// The mathematical content of a [`JsonValue`].
pub enum Json {
    Null,
    Bool(bool),
    Number(JsonNumber),
    String(Seq<char>),
    Array(Seq<Json>),
    Object(Seq<(Seq<char>, Json)>),
}

impl View for JsonValue {
    type V = Json;

    open spec fn view(&self) -> Json
        decreases self,
    {
        match self {
            JsonValue::Null => Json::Null,
            JsonValue::Bool(b) => Json::Bool(*b),
            JsonValue::Number(n) => Json::Number(*n),
            JsonValue::String(s) => Json::String(s@),
            JsonValue::Array(items) => Json::Array(
                Seq::new(
                    items.len() as nat,
                    |i: int|
                        if 0 <= i < items.len() {
                            items[i]@
                        } else {
                            Json::Null
                        },
                ),
            ),
            JsonValue::Object(members) => Json::Object(
                Seq::new(
                    members.len() as nat,
                    |i: int|
                        if 0 <= i < members.len() {
                            (members[i].0@, members[i].1@)
                        } else {
                            (Seq::empty(), Json::Null)
                        },
                ),
            ),
        }
    }
}

/// The contents of the elements of an array, one by one.
pub open spec fn items_view(items: Seq<JsonValue>) -> Seq<Json> {
    Seq::new(items.len(), |i: int| items[i]@)
}

/// The contents of the members of an object, one by one.
pub open spec fn members_view(members: Seq<(String, JsonValue)>) -> Seq<(Seq<char>, Json)> {
    Seq::new(members.len(), |i: int| (members[i].0@, members[i].1@))
}

/// The value that the members `members` give to `key`: that of the last
/// member with this key.
pub open spec fn member(members: Seq<(Seq<char>, Json)>, key: Seq<char>) -> Option<Json>
    decreases members.len(),
{
    if members.len() == 0 {
        None
    } else if members.last().0 == key {
        Some(members.last().1)
    } else {
        member(members.drop_last(), key)
    }
}

impl Json {
    /// The member `key` of an object; nothing for any other value.
    pub open spec fn get(self, key: Seq<char>) -> Option<Json> {
        match self {
            Json::Object(members) => member(members, key),
            _ => None,
        }
    }

    /// The value as a `u64`, where it is a number that is one.
    pub open spec fn as_u64(self) -> Option<u64> {
        match self {
            Json::Number(n) => n.spec_as_u64(),
            _ => None,
        }
    }

    /// The value as an `i64`, where it is a number that is one.
    pub open spec fn as_i64(self) -> Option<i64> {
        match self {
            Json::Number(n) => n.spec_as_i64(),
            _ => None,
        }
    }

    /// The characters of the value, where it is a string.
    pub open spec fn as_str(self) -> Option<Seq<char>> {
        match self {
            Json::String(s) => Some(s),
            _ => None,
        }
    }

    /// The member `key`, or `null` where the value has none.
    pub open spec fn get_or_null(self, key: Seq<char>) -> Json {
        match self.get(key) {
            Some(v) => v,
            None => Json::Null,
        }
    }

    /// The member `key` where it is a string, else the empty string.
    pub open spec fn str_or_empty(self, key: Seq<char>) -> Seq<char> {
        match self.get(key) {
            Some(Json::String(s)) => s,
            _ => Seq::empty(),
        }
    }

    /// An object with one member.
    pub open spec fn object1(k0: Seq<char>, v0: Json) -> Json {
        Json::Object(seq![(k0, v0)])
    }

    /// An object with two members.
    pub open spec fn object2(k0: Seq<char>, v0: Json, k1: Seq<char>, v1: Json) -> Json {
        Json::Object(seq![(k0, v0), (k1, v1)])
    }

    /// An object with three members.
    pub open spec fn object3(
        k0: Seq<char>,
        v0: Json,
        k1: Seq<char>,
        v1: Json,
        k2: Seq<char>,
        v2: Json,
    ) -> Json {
        Json::Object(seq![(k0, v0), (k1, v1), (k2, v2)])
    }

    /// An object with four members.
    pub open spec fn object4(
        k0: Seq<char>,
        v0: Json,
        k1: Seq<char>,
        v1: Json,
        k2: Seq<char>,
        v2: Json,
        k3: Seq<char>,
        v3: Json,
    ) -> Json {
        Json::Object(seq![(k0, v0), (k1, v1), (k2, v2), (k3, v3)])
    }
}

/// An array's content is the contents of its elements.
pub proof fn lemma_array_view(items: Vec<JsonValue>)
    ensures
        JsonValue::Array(items)@ == Json::Array(items_view(items@)),
{
    reveal_with_fuel(<JsonValue as View>::view, 2);
    assert(JsonValue::Array(items)@->Array_0 =~= items_view(items@));
}

/// An object's content is the contents of its members.
pub proof fn lemma_object_view(members: Vec<(String, JsonValue)>)
    ensures
        JsonValue::Object(members)@ == Json::Object(members_view(members@)),
{
    reveal_with_fuel(<JsonValue as View>::view, 2);
    assert(JsonValue::Object(members)@->Object_0 =~= members_view(members@));
}

/// A member that is written last is the one that its key has; any other key
/// has what it had before.
pub proof fn lemma_member_push(
    members: Seq<(Seq<char>, Json)>,
    key: Seq<char>,
    value: Json,
    wanted: Seq<char>,
)
    ensures
        member(members.push((key, value)), wanted) == if key == wanted {
            Some(value)
        } else {
            member(members, wanted)
        },
{
    assert(members.push((key, value)).drop_last() =~= members);
}

/// The members of an object with up to four of them, by key.
pub proof fn lemma_object_get(
    k0: Seq<char>,
    v0: Json,
    k1: Seq<char>,
    v1: Json,
    k2: Seq<char>,
    v2: Json,
    k3: Seq<char>,
    v3: Json,
    wanted: Seq<char>,
)
    ensures
        Json::object1(k0, v0).get(wanted) == if k0 == wanted {
            Some(v0)
        } else {
            None
        },
        Json::object2(k0, v0, k1, v1).get(wanted) == if k1 == wanted {
            Some(v1)
        } else {
            Json::object1(k0, v0).get(wanted)
        },
        Json::object3(k0, v0, k1, v1, k2, v2).get(wanted) == if k2 == wanted {
            Some(v2)
        } else {
            Json::object2(k0, v0, k1, v1).get(wanted)
        },
        Json::object4(k0, v0, k1, v1, k2, v2, k3, v3).get(wanted) == if k3 == wanted {
            Some(v3)
        } else {
            Json::object3(k0, v0, k1, v1, k2, v2).get(wanted)
        },
{
    let none: Seq<(Seq<char>, Json)> = Seq::empty();
    let one = none.push((k0, v0));
    let two = one.push((k1, v1));
    let three = two.push((k2, v2));
    let four = three.push((k3, v3));
    assert(two =~= seq![(k0, v0), (k1, v1)]);
    assert(three =~= seq![(k0, v0), (k1, v1), (k2, v2)]);
    assert(four =~= seq![(k0, v0), (k1, v1), (k2, v2), (k3, v3)]);
    lemma_member_push(none, k0, v0, wanted);
    lemma_member_push(one, k1, v1, wanted);
    lemma_member_push(two, k2, v2, wanted);
    lemma_member_push(three, k3, v3, wanted);
}

impl Clone for JsonValue {
    fn clone(&self) -> (r: JsonValue)
        ensures
            r@ == self@,
        decreases self,
    {
        match self {
            JsonValue::Null => JsonValue::Null,
            JsonValue::Bool(b) => JsonValue::Bool(*b),
            JsonValue::Number(n) => JsonValue::Number(*n),
            JsonValue::String(s) => JsonValue::String(s.clone()),
            JsonValue::Array(items) => {
                let mut out: Vec<JsonValue> = Vec::new();
                let mut i: usize = 0;
                while i < items.len()
                    invariant
                        0 <= i <= items.len(),
                        *self == JsonValue::Array(*items),
                        out.len() == i,
                        forall|j: int| 0 <= j < i ==> out[j]@ == items[j]@,
                    decreases items.len() - i,
                {
                    assert(decreases_to!(*self => self->Array_0));
                    let item = items[i].clone();
                    out.push(item);
                    i += 1;
                }
                proof {
                    lemma_array_view(out);
                    lemma_array_view(*items);
                    assert(items_view(out@) =~= items_view(items@));
                }
                JsonValue::Array(out)
            },
            JsonValue::Object(members) => {
                let mut out: Vec<(String, JsonValue)> = Vec::new();
                let mut i: usize = 0;
                while i < members.len()
                    invariant
                        0 <= i <= members.len(),
                        *self == JsonValue::Object(*members),
                        out.len() == i,
                        forall|j: int|
                            0 <= j < i ==> out[j].0@ == members[j].0@ && out[j].1@
                                == members[j].1@,
                    decreases members.len() - i,
                {
                    let key = members[i].0.clone();
                    assert(decreases_to!(*self => self->Object_0));
                    let value = members[i].1.clone();
                    out.push((key, value));
                    i += 1;
                }
                proof {
                    lemma_object_view(out);
                    lemma_object_view(*members);
                    assert(members_view(out@) =~= members_view(members@));
                }
                JsonValue::Object(out)
            },
        }
    }
}

impl JsonValue {
    /// A JSON string with the characters of `s`.
    pub fn string(s: &str) -> (r: JsonValue)
        ensures
            r@ == Json::String(s@),
    {
        JsonValue::String(s.to_owned())
    }

    /// The JSON number `n`.
    pub fn unsigned(n: u64) -> (r: JsonValue)
        ensures
            r@ == Json::Number(JsonNumber::PosInt(n)),
    {
        JsonValue::Number(JsonNumber::PosInt(n))
    }

    /// The JSON number `n`.
    pub fn signed(n: i64) -> (r: JsonValue)
        ensures
            r@ == Json::Number(JsonNumber::spec_from_i64(n)),
    {
        JsonValue::Number(JsonNumber::from_i64(n))
    }

    /// A JSON string where there is one, `null` where there is none.
    pub fn optional_string(s: &Option<String>) -> (r: JsonValue)
        ensures
            r@ == match *s {
                Some(text) => Json::String(text@),
                None => Json::Null,
            },
    {
        match s {
            Some(text) => JsonValue::String(text.clone()),
            None => JsonValue::Null,
        }
    }

    /// Whether the value is `null`.
    pub fn is_null(&self) -> (r: bool)
        ensures
            r == (self@ == Json::Null),
    {
        match self {
            JsonValue::Null => true,
            _ => false,
        }
    }

    /// The value as a `u64`, where it is a number that is one.
    pub fn as_u64(&self) -> (r: Option<u64>)
        ensures
            r == self@.as_u64(),
    {
        match self {
            JsonValue::Number(n) => n.as_u64(),
            _ => None,
        }
    }

    /// The value as an `i64`, where it is a number that is one.
    pub fn as_i64(&self) -> (r: Option<i64>)
        ensures
            r == self@.as_i64(),
    {
        match self {
            JsonValue::Number(n) => n.as_i64(),
            _ => None,
        }
    }

    /// The value as a string slice, where it is a string.
    pub fn as_str(&self) -> (r: Option<&str>)
        ensures
            match r {
                Some(s) => self@.as_str() == Some(s@),
                None => self@.as_str() is None,
            },
    {
        match self {
            JsonValue::String(s) => Some(s.as_str()),
            _ => None,
        }
    }

    /// The member `key` of an object: the last one written with that key.
    pub fn get(&self, key: &str) -> (r: Option<&JsonValue>)
        ensures
            match r {
                Some(v) => self@.get(key@) == Some(v@),
                None => self@.get(key@) is None,
            },
    {
        match self {
            JsonValue::Object(members) => {
                proof {
                    lemma_object_view(*members);
                }
                let ghost all = members_view(members@);
                let mut i: usize = members.len();
                assert(all.take(i as int) =~= all);
                while i > 0
                    invariant
                        0 <= i <= members.len(),
                        all == members_view(members@),
                        self@ == Json::Object(all),
                        member(all, key@) == member(all.take(i as int), key@),
                    decreases i,
                {
                    i -= 1;
                    assert(all.take(i + 1).drop_last() =~= all.take(i as int));
                    if str_eq(members[i].0.as_str(), key) {
                        return Some(&members[i].1);
                    }
                }
                None
            },
            _ => None,
        }
    }

    /// A copy of the member `key`, or `null` where the value has none.
    pub fn get_or_null(&self, key: &str) -> (r: JsonValue)
        ensures
            r@ == self@.get_or_null(key@),
    {
        match self.get(key) {
            Some(v) => v.clone(),
            None => JsonValue::Null,
        }
    }

    /// A copy of the member `key` where it is a string, else the empty string.
    pub fn str_or_empty(&self, key: &str) -> (r: String)
        ensures
            r@ == self@.str_or_empty(key@),
    {
        match self.get(key) {
            Some(JsonValue::String(s)) => s.clone(),
            _ => String::new(),
        }
    }

    /// An object with one member.
    pub fn object1(k0: &str, v0: JsonValue) -> (r: JsonValue)
        ensures
            r@ == Json::object1(k0@, v0@),
    {
        let mut members: Vec<(String, JsonValue)> = Vec::new();
        members.push((k0.to_owned(), v0));
        proof {
            lemma_object_view(members);
            assert(members_view(members@) =~= seq![(k0@, v0@)]);
        }
        JsonValue::Object(members)
    }

    /// An object with two members.
    pub fn object2(k0: &str, v0: JsonValue, k1: &str, v1: JsonValue) -> (r: JsonValue)
        ensures
            r@ == Json::object2(k0@, v0@, k1@, v1@),
    {
        let mut members: Vec<(String, JsonValue)> = Vec::new();
        members.push((k0.to_owned(), v0));
        members.push((k1.to_owned(), v1));
        proof {
            lemma_object_view(members);
            assert(members_view(members@) =~= seq![(k0@, v0@), (k1@, v1@)]);
        }
        JsonValue::Object(members)
    }

    /// An object with three members.
    pub fn object3(
        k0: &str,
        v0: JsonValue,
        k1: &str,
        v1: JsonValue,
        k2: &str,
        v2: JsonValue,
    ) -> (r: JsonValue)
        ensures
            r@ == Json::object3(k0@, v0@, k1@, v1@, k2@, v2@),
    {
        let mut members: Vec<(String, JsonValue)> = Vec::new();
        members.push((k0.to_owned(), v0));
        members.push((k1.to_owned(), v1));
        members.push((k2.to_owned(), v2));
        proof {
            lemma_object_view(members);
            assert(members_view(members@) =~= seq![(k0@, v0@), (k1@, v1@), (k2@, v2@)]);
        }
        JsonValue::Object(members)
    }

    /// An object with four members.
    pub fn object4(
        k0: &str,
        v0: JsonValue,
        k1: &str,
        v1: JsonValue,
        k2: &str,
        v2: JsonValue,
        k3: &str,
        v3: JsonValue,
    ) -> (r: JsonValue)
        ensures
            r@ == Json::object4(k0@, v0@, k1@, v1@, k2@, v2@, k3@, v3@),
    {
        let mut members: Vec<(String, JsonValue)> = Vec::new();
        members.push((k0.to_owned(), v0));
        members.push((k1.to_owned(), v1));
        members.push((k2.to_owned(), v2));
        members.push((k3.to_owned(), v3));
        proof {
            lemma_object_view(members);
            assert(members_view(members@) =~= seq![
                (k0@, v0@),
                (k1@, v1@),
                (k2@, v2@),
                (k3@, v3@),
            ]);
        }
        JsonValue::Object(members)
    }

    /// The object without members.
    pub fn empty_object() -> (r: JsonValue)
        ensures
            r@ == Json::Object(Seq::empty()),
    {
        let members: Vec<(String, JsonValue)> = Vec::new();
        proof {
            lemma_object_view(members);
            assert(members_view(members@) =~= Seq::empty());
        }
        JsonValue::Object(members)
    }

    /// An array of the given elements.
    pub fn array(items: Vec<JsonValue>) -> (r: JsonValue)
        ensures
            r@ == Json::Array(items_view(items@)),
    {
        proof {
            lemma_array_view(items);
        }
        JsonValue::Array(items)
    }
}

} // verus!
