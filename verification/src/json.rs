//! The crate's own representation of a generic JSON document, together with
//! its mathematical model.
//!
//! Every protocol line becomes a value of [`JsonValue`]; all shape checks of
//! the message reader and of the response parsers are stated over the model
//! type [`SpecJson`] that a value's view yields.

use vstd::prelude::*;

verus! {

/// A JSON number, kept in the exact form the wire carried it.
///
/// Integers that fit in 64 bits keep their integral value; any other number
/// keeps its decimal text, which round-trips through the caller's own
/// floating-point conversion outside this crate.
#[derive(Debug, Clone, PartialEq, Eq)]
pub enum JsonNum {
    /// A non-negative integer.
    Uint(u64),
    /// A negative integer.
    Int(i64),
    /// Any other number, as its decimal text.
    Dec(String),
}

/// A generic JSON value: the library's view of one protocol line.
#[derive(Debug, PartialEq, Eq)]
pub enum JsonValue {
    Null,
    Bool(bool),
    Num(JsonNum),
    Str(String),
    Arr(Vec<JsonValue>),
    Obj(Vec<(String, JsonValue)>),
}

/// The model of a JSON number.
#[verifier::ext_equal]
pub enum SpecNum {
    Uint(u64),
    Int(i64),
    Dec(Seq<char>),
}

/// The model of a JSON value: object entries keep their order, and a lookup
/// takes the first entry bearing the key.
#[verifier::ext_equal]
pub enum SpecJson {
    Null,
    Bool(bool),
    Num(SpecNum),
    Str(Seq<char>),
    Arr(Seq<SpecJson>),
    Obj(Seq<(Seq<char>, SpecJson)>),
}

impl JsonNum {
    /// The model of this number.
    pub open spec fn rep(self) -> SpecNum {
        match self {
            JsonNum::Uint(u) => SpecNum::Uint(u),
            JsonNum::Int(i) => SpecNum::Int(i),
            JsonNum::Dec(s) => SpecNum::Dec(s@),
        }
    }
}

impl JsonValue {
    /// The model of this value.
    pub open spec fn rep(self) -> SpecJson
        decreases self,
    {
        match self {
            JsonValue::Null => SpecJson::Null,
            JsonValue::Bool(b) => SpecJson::Bool(b),
            JsonValue::Num(n) => SpecJson::Num(n.rep()),
            JsonValue::Str(s) => SpecJson::Str(s@),
            JsonValue::Arr(items) => SpecJson::Arr(seq_rep(items@)),
            JsonValue::Obj(entries) => SpecJson::Obj(entries_rep(entries@)),
        }
    }
}

/// The models of a sequence of JSON values, in order.
pub open spec fn seq_rep(items: Seq<JsonValue>) -> Seq<SpecJson>
    decreases items,
{
    Seq::new(
        items.len(),
        |i: int|
            if 0 <= i < items.len() {
                items[i].rep()
            } else {
                SpecJson::Null
            },
    )
}

/// The models of a sequence of object entries, in order.
pub open spec fn entries_rep(entries: Seq<(String, JsonValue)>) -> Seq<(Seq<char>, SpecJson)>
    decreases entries,
{
    Seq::new(
        entries.len(),
        |i: int|
            if 0 <= i < entries.len() {
                (entries[i].0@, entries[i].1.rep())
            } else {
                (Seq::<char>::empty(), SpecJson::Null)
            },
    )
}

impl View for JsonNum {
    type V = SpecNum;

    open spec fn view(&self) -> SpecNum {
        self.rep()
    }
}

impl View for JsonValue {
    type V = SpecJson;

    open spec fn view(&self) -> SpecJson {
        self.rep()
    }
}

/// The value under the first entry of `entries` bearing `key`, if any.
pub open spec fn obj_get(entries: Seq<(Seq<char>, SpecJson)>, key: Seq<char>) -> Option<SpecJson>
    decreases entries.len(),
{
    if entries.len() <= 0 {
        None
    } else if entries[0].0 == key {
        Some(entries[0].1)
    } else {
        obj_get(entries.drop_first(), key)
    }
}

impl SpecJson {
    /// Field lookup: the value under `key` when this is an object that
    /// carries one, and nothing otherwise.
    pub open spec fn get(self, key: Seq<char>) -> Option<SpecJson> {
        match self {
            SpecJson::Obj(entries) => obj_get(entries, key),
            _ => None,
        }
    }
}

/// Borrows the value under the first entry of `entries` bearing `key`.
pub fn get_entry<'a>(entries: &'a Vec<(String, JsonValue)>, key: &str) -> (r: Option<
    &'a JsonValue,
>)
    ensures
        match r {
            Some(v) => obj_get(entries_rep(entries@), key@) == Some(v@),
            None => obj_get(entries_rep(entries@), key@) is None,
        },
{
    let k: String = key.to_owned();
    let ghost m = entries_rep(entries@);
    proof {
        assert(m.skip(0) =~= m);
    }
    let mut i: usize = 0;
    while i < entries.len()
        invariant
            i <= entries.len(),
            k@ == key@,
            m == entries_rep(entries@),
            obj_get(m, key@) == obj_get(m.skip(i as int), key@),
        decreases entries.len() - i,
    {
        proof {
            assert(m.skip(i as int)[0] == m[i as int]);
        }
        if entries[i].0 == k {
            return Some(&entries[i].1);
        }
        proof {
            assert(m.skip(i as int).drop_first() =~= m.skip(i as int + 1));
        }
        i += 1;
    }
    None
}

/// Moves the value under the first entry of `entries` bearing `key` out of
/// the entry list, consuming it.
pub fn take_entry(entries: Vec<(String, JsonValue)>, key: &str) -> (r: Option<JsonValue>)
    ensures
        match r {
            Some(v) => obj_get(entries_rep(entries@), key@) == Some(v@),
            None => obj_get(entries_rep(entries@), key@) is None,
        },
{
    let mut es = entries;
    let k: String = key.to_owned();
    let ghost m = entries_rep(entries@);
    proof {
        assert(m.skip(0) =~= m);
    }
    let mut i: usize = 0;
    while i < es.len()
        invariant
            i <= es.len(),
            k@ == key@,
            m == entries_rep(es@),
            m == entries_rep(entries@),
            obj_get(m, key@) == obj_get(m.skip(i as int), key@),
        decreases es.len() - i,
    {
        proof {
            assert(m.skip(i as int)[0] == m[i as int]);
        }
        if es[i].0 == k {
            let pair = es.remove(i);
            return Some(pair.1);
        }
        proof {
            assert(m.skip(i as int).drop_first() =~= m.skip(i as int + 1));
        }
        i += 1;
    }
    None
}

impl JsonValue {
    /// Whether this value is a JSON object.
    pub fn is_object(&self) -> (r: bool)
        ensures
            r == (self@ is Obj),
    {
        match self {
            JsonValue::Obj(_) => true,
            _ => false,
        }
    }

    /// Borrows the value under `key` when this value is an object carrying
    /// such a field.
    pub fn get<'a>(&'a self, key: &str) -> (r: Option<&'a JsonValue>)
        ensures
            match r {
                Some(v) => self@.get(key@) == Some(v@),
                None => self@.get(key@) is None,
            },
    {
        match self {
            JsonValue::Obj(entries) => get_entry(entries, key),
            _ => None,
        }
    }
}

} // verus!
