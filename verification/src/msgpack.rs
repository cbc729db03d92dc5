use vstd::prelude::*;

verus! {

broadcast use vstd::std_specs::vec::group_vec_axioms;

/// A MessagePack integer: anything from `-(2^63)` up to `2^64 - 1`.
#[derive(Clone, Copy, Debug, PartialEq, Eq, Structural)]
pub enum Integer {
    PosInt(u64),
    NegInt(i64),
}

impl Integer {
    /// The number that the integer stands for.
    pub open spec fn value(self) -> int {
        match self {
            Integer::PosInt(n) => n as int,
            Integer::NegInt(n) => n as int,
        }
    }

    /// The integer as an `i64`, where it fits.
    pub open spec fn spec_as_i64(self) -> Option<i64> {
        if self.value() <= i64::MAX {
            Some(self.value() as i64)
        } else {
            None
        }
    }

    /// The integer as a `u64`, where it fits.
    pub open spec fn spec_as_u64(self) -> Option<u64> {
        if 0 <= self.value() {
            Some(self.value() as u64)
        } else {
            None
        }
    }

    /// The integer for a signed number: a negative one is held as such, any
    /// other as an unsigned one.
    pub open spec fn spec_from_i64(n: i64) -> Integer {
        if n < 0 {
            Integer::NegInt(n)
        } else {
            Integer::PosInt(n as u64)
        }
    }

    /// The integer as an `i64`, where it fits.
    #[verifier::when_used_as_spec(spec_as_i64)]
    pub fn as_i64(self) -> (r: Option<i64>)
        ensures
            r == self.spec_as_i64(),
    {
        match self {
            Integer::PosInt(n) => if n <= 0x7fff_ffff_ffff_ffff {
                Some(n as i64)
            } else {
                None
            },
            Integer::NegInt(n) => Some(n),
        }
    }

    /// The integer as a `u64`, where it fits.
    #[verifier::when_used_as_spec(spec_as_u64)]
    pub fn as_u64(self) -> (r: Option<u64>)
        ensures
            r == self.spec_as_u64(),
    {
        match self {
            Integer::PosInt(n) => Some(n),
            Integer::NegInt(n) => if n >= 0 {
                Some(n as u64)
            } else {
                None
            },
        }
    }

    /// The integer for a signed number.
    #[verifier::when_used_as_spec(spec_from_i64)]
    pub fn from_i64(n: i64) -> (r: Integer)
        ensures
            r == Integer::spec_from_i64(n),
    {
        if n < 0 {
            Integer::NegInt(n)
        } else {
            Integer::PosInt(n as u64)
        }
    }
}

/// A MessagePack value.
///
/// A float is held by its IEEE-754 bit pattern. A string whose bytes are no
/// UTF-8 is held as [`MsgpackValue::RawString`].
#[derive(Debug, PartialEq, Eq)]
pub enum MsgpackValue {
    Nil,
    Boolean(bool),
    Integer(Integer),
    F32(u32),
    F64(u64),
    String(String),
    RawString(Vec<u8>),
    Binary(Vec<u8>),
    Array(Vec<MsgpackValue>),
    Pairs(Vec<(MsgpackValue, MsgpackValue)>),
    Ext(i8, Vec<u8>),
}

/// The mathematical content of a [`MsgpackValue`].
pub enum Msgpack {
    Nil,
    Boolean(bool),
    Integer(Integer),
    F32(u32),
    F64(u64),
    String(Seq<char>),
    RawString(Seq<u8>),
    Binary(Seq<u8>),
    Array(Seq<Msgpack>),
    Pairs(Seq<(Msgpack, Msgpack)>),
    Ext(i8, Seq<u8>),
}

impl View for MsgpackValue {
    type V = Msgpack;

    open spec fn view(&self) -> Msgpack
        decreases self,
    {
        match self {
            MsgpackValue::Nil => Msgpack::Nil,
            MsgpackValue::Boolean(b) => Msgpack::Boolean(*b),
            MsgpackValue::Integer(n) => Msgpack::Integer(*n),
            MsgpackValue::F32(bits) => Msgpack::F32(*bits),
            MsgpackValue::F64(bits) => Msgpack::F64(*bits),
            MsgpackValue::String(s) => Msgpack::String(s@),
            MsgpackValue::RawString(bytes) => Msgpack::RawString(bytes@),
            MsgpackValue::Binary(bytes) => Msgpack::Binary(bytes@),
            MsgpackValue::Array(items) => Msgpack::Array(
                Seq::new(
                    items.len() as nat,
                    |i: int|
                        if 0 <= i < items.len() {
                            items[i]@
                        } else {
                            Msgpack::Nil
                        },
                ),
            ),
            MsgpackValue::Pairs(pairs) => Msgpack::Pairs(
                Seq::new(
                    pairs.len() as nat,
                    |i: int|
                        if 0 <= i < pairs.len() {
                            (pairs[i].0@, pairs[i].1@)
                        } else {
                            (Msgpack::Nil, Msgpack::Nil)
                        },
                ),
            ),
            MsgpackValue::Ext(tag, bytes) => Msgpack::Ext(*tag, bytes@),
        }
    }
}

/// The contents of the elements of an array, one by one.
pub open spec fn items_view(items: Seq<MsgpackValue>) -> Seq<Msgpack> {
    Seq::new(items.len(), |i: int| items[i]@)
}

/// The contents of the pairs of a map, one by one.
pub open spec fn pairs_view(pairs: Seq<(MsgpackValue, MsgpackValue)>) -> Seq<(Msgpack, Msgpack)> {
    Seq::new(pairs.len(), |i: int| (pairs[i].0@, pairs[i].1@))
}

impl Msgpack {
    /// The value as an `i64`, where it is an integer that fits.
    pub open spec fn as_i64(self) -> Option<i64> {
        match self {
            Msgpack::Integer(n) => n.spec_as_i64(),
            _ => None,
        }
    }

    /// The value as a `u64`, where it is an integer that fits.
    pub open spec fn as_u64(self) -> Option<u64> {
        match self {
            Msgpack::Integer(n) => n.spec_as_u64(),
            _ => None,
        }
    }

    /// The characters of the value, where it is a string of valid UTF-8.
    pub open spec fn as_str(self) -> Option<Seq<char>> {
        match self {
            Msgpack::String(s) => Some(s),
            _ => None,
        }
    }

    /// The integer value that stands for the signed number `n`.
    pub open spec fn from_i64(n: i64) -> Msgpack {
        Msgpack::Integer(Integer::spec_from_i64(n))
    }
}

/// An array's content is the contents of its elements.
pub proof fn lemma_array_view(items: Vec<MsgpackValue>)
    ensures
        MsgpackValue::Array(items)@ == Msgpack::Array(items_view(items@)),
{
    reveal_with_fuel(<MsgpackValue as View>::view, 2);
    assert(MsgpackValue::Array(items)@->Array_0 =~= items_view(items@));
}

/// A map's content is the contents of its pairs.
pub proof fn lemma_pairs_view(pairs: Vec<(MsgpackValue, MsgpackValue)>)
    ensures
        MsgpackValue::Pairs(pairs)@ == Msgpack::Pairs(pairs_view(pairs@)),
{
    reveal_with_fuel(<MsgpackValue as View>::view, 2);
    assert(MsgpackValue::Pairs(pairs)@->Pairs_0 =~= pairs_view(pairs@));
}

/// Copies a vector of bytes.
pub fn clone_bytes(bytes: &Vec<u8>) -> (r: Vec<u8>)
    ensures
        r@ == bytes@,
{
    let mut out: Vec<u8> = Vec::new();
    let mut i: usize = 0;
    while i < bytes.len()
        invariant
            0 <= i <= bytes.len(),
            out@ == bytes@.take(i as int),
        decreases bytes.len() - i,
    {
        out.push(bytes[i]);
        i += 1;
    }
    out
}

/// Copies the values of `items`, one by one.
pub fn clone_values(items: &Vec<MsgpackValue>) -> (r: Vec<MsgpackValue>)
    ensures
        items_view(r@) == items_view(items@),
{
    let mut out: Vec<MsgpackValue> = Vec::new();
    let mut i: usize = 0;
    while i < items.len()
        invariant
            0 <= i <= items.len(),
            out.len() == i,
            forall|j: int| 0 <= j < i ==> out[j]@ == items[j]@,
        decreases items.len() - i,
    {
        out.push(items[i].clone());
        i += 1;
    }
    out
}

impl Clone for MsgpackValue {
    fn clone(&self) -> (r: MsgpackValue)
        ensures
            r@ == self@,
        decreases self,
    {
        match self {
            MsgpackValue::Nil => MsgpackValue::Nil,
            MsgpackValue::Boolean(b) => MsgpackValue::Boolean(*b),
            MsgpackValue::Integer(n) => MsgpackValue::Integer(*n),
            MsgpackValue::F32(bits) => MsgpackValue::F32(*bits),
            MsgpackValue::F64(bits) => MsgpackValue::F64(*bits),
            MsgpackValue::String(s) => MsgpackValue::String(s.clone()),
            MsgpackValue::RawString(bytes) => MsgpackValue::RawString(clone_bytes(bytes)),
            MsgpackValue::Binary(bytes) => MsgpackValue::Binary(clone_bytes(bytes)),
            MsgpackValue::Array(items) => {
                let mut out: Vec<MsgpackValue> = Vec::new();
                let mut i: usize = 0;
                while i < items.len()
                    invariant
                        0 <= i <= items.len(),
                        *self == MsgpackValue::Array(*items),
                        out.len() == i,
                        forall|j: int| 0 <= j < i ==> out[j]@ == items[j]@,
                    decreases items.len() - i,
                {
                    assert(decreases_to!(*self => self->Array_0));
                    let item = items[i].clone();
                    out.push(item);
                    i += 1;
                }
                proof {
                    lemma_array_view(out);
                    lemma_array_view(*items);
                    assert(items_view(out@) =~= items_view(items@));
                }
                MsgpackValue::Array(out)
            },
            MsgpackValue::Pairs(pairs) => {
                let mut out: Vec<(MsgpackValue, MsgpackValue)> = Vec::new();
                let mut i: usize = 0;
                while i < pairs.len()
                    invariant
                        0 <= i <= pairs.len(),
                        *self == MsgpackValue::Pairs(*pairs),
                        out.len() == i,
                        forall|j: int|
                            0 <= j < i ==> out[j].0@ == pairs[j].0@ && out[j].1@ == pairs[j].1@,
                    decreases pairs.len() - i,
                {
                    assert(decreases_to!(*self => self->Pairs_0));
                    let key = pairs[i].0.clone();
                    let value = pairs[i].1.clone();
                    out.push((key, value));
                    i += 1;
                }
                proof {
                    lemma_pairs_view(out);
                    lemma_pairs_view(*pairs);
                    assert(pairs_view(out@) =~= pairs_view(pairs@));
                }
                MsgpackValue::Pairs(out)
            },
            MsgpackValue::Ext(tag, bytes) => MsgpackValue::Ext(*tag, clone_bytes(bytes)),
        }
    }
}

impl MsgpackValue {
    /// The string value with the characters of `s`.
    pub fn string(s: &str) -> (r: MsgpackValue)
        ensures
            r@ == Msgpack::String(s@),
    {
        MsgpackValue::String(s.to_owned())
    }

    /// The integer value that stands for the signed number `n`.
    pub fn from_i64(n: i64) -> (r: MsgpackValue)
        ensures
            r@ == Msgpack::from_i64(n),
    {
        MsgpackValue::Integer(Integer::from_i64(n))
    }

    /// The integer value `n`.
    pub fn from_u64(n: u64) -> (r: MsgpackValue)
        ensures
            r@ == Msgpack::Integer(Integer::PosInt(n)),
    {
        MsgpackValue::Integer(Integer::PosInt(n))
    }

    /// The array of the given values.
    pub fn array(items: Vec<MsgpackValue>) -> (r: MsgpackValue)
        ensures
            r@ == Msgpack::Array(items_view(items@)),
    {
        proof {
            lemma_array_view(items);
        }
        MsgpackValue::Array(items)
    }

    /// The map of the given pairs.
    pub fn pairs(pairs: Vec<(MsgpackValue, MsgpackValue)>) -> (r: MsgpackValue)
        ensures
            r@ == Msgpack::Pairs(pairs_view(pairs@)),
    {
        proof {
            lemma_pairs_view(pairs);
        }
        MsgpackValue::Pairs(pairs)
    }

    /// Whether the value is `nil`.
    pub fn is_nil(&self) -> (r: bool)
        ensures
            r == (self@ == Msgpack::Nil),
    {
        match self {
            MsgpackValue::Nil => true,
            _ => false,
        }
    }

    /// The value as an `i64`, where it is an integer that fits.
    pub fn as_i64(&self) -> (r: Option<i64>)
        ensures
            r == self@.as_i64(),
    {
        match self {
            MsgpackValue::Integer(n) => n.as_i64(),
            _ => None,
        }
    }

    /// The value as a `u64`, where it is an integer that fits.
    pub fn as_u64(&self) -> (r: Option<u64>)
        ensures
            r == self@.as_u64(),
    {
        match self {
            MsgpackValue::Integer(n) => n.as_u64(),
            _ => None,
        }
    }

    /// The value as a string slice, where it is a string of valid UTF-8.
    pub fn as_str(&self) -> (r: Option<&str>)
        ensures
            match r {
                Some(s) => self@.as_str() == Some(s@),
                None => self@.as_str() is None,
            },
    {
        match self {
            MsgpackValue::String(s) => Some(s.as_str()),
            _ => None,
        }
    }
}

} // verus!
