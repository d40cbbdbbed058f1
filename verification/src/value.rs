//! The generic value tree that the wire decoder produces, and its
//! mathematical model.

use std::collections::HashMap;
use vstd::prelude::*;

verus! {

broadcast use vstd::std_specs::hash::group_hash_axioms;

/// A decoded message: a mapping from field identifiers to values.
#[derive(Debug, PartialEq, Eq)]
pub struct Tree {
    pub fields: HashMap<u64, Value>,
}

/// A value recovered from the wire without a schema.
#[derive(Debug, PartialEq, Eq)]
pub enum Value {
    /// A varint or fixed-width scalar.
    Integer(u64),
    /// A length-delimited payload that is valid UTF-8.
    String(String),
    /// A length-delimited payload that is neither a message nor text, kept
    /// as its base64 text.
    Bytes(String),
    /// A length-delimited payload that is itself a message.
    Tree(Tree),
    /// The occurrences of a repeated field, in the order they were met.
    Array(Vec<Value>),
}

/// The mathematical content of a [`Value`].
#[verifier::ext_equal]
pub enum SpecValue {
    Integer(u64),
    String(Seq<char>),
    Bytes(Seq<char>),
    Tree(Map<u64, SpecValue>),
    Array(Seq<SpecValue>),
}

/// What `v` stands for.
pub open spec fn value_model(v: Value) -> SpecValue
    decreases v,
{
    match v {
        Value::Integer(n) => SpecValue::Integer(n),
        Value::String(s) => SpecValue::String(s@),
        Value::Bytes(s) => SpecValue::Bytes(s@),
        Value::Tree(t) => SpecValue::Tree(
            Map::new(
                |id: u64| t.fields@.contains_key(id),
                |id: u64|
                    if t.fields@.contains_key(id) {
                        value_model(t.fields@[id])
                    } else {
                        SpecValue::Integer(0)
                    },
            ),
        ),
        Value::Array(items) => SpecValue::Array(items_model(items@)),
    }
}

/// The mapping that the entries of a message stand for: under each
/// identifier, the model of the value that the message holds there.
pub open spec fn fields_model(fields: Map<u64, Value>) -> Map<u64, SpecValue> {
    Map::new(
        |id: u64| fields.contains_key(id),
        |id: u64|
            if fields.contains_key(id) {
                value_model(fields[id])
            } else {
                SpecValue::Integer(0)
            },
    )
}

/// The models of a list of values, one for one.
pub open spec fn items_model(items: Seq<Value>) -> Seq<SpecValue>
    decreases items,
{
    Seq::new(
        items.len(),
        |i: int|
            if 0 <= i < items.len() {
                value_model(items[i])
            } else {
                SpecValue::Integer(0)
            },
    )
}

impl View for Value {
    type V = SpecValue;

    open spec fn view(&self) -> SpecValue {
        value_model(*self)
    }
}

impl DeepView for Value {
    type V = SpecValue;

    open spec fn deep_view(&self) -> SpecValue {
        value_model(*self)
    }
}

impl View for Tree {
    type V = Map<u64, SpecValue>;

    open spec fn view(&self) -> Map<u64, SpecValue> {
        fields_model(self.fields@)
    }
}

impl DeepView for Tree {
    type V = Map<u64, SpecValue>;

    open spec fn deep_view(&self) -> Map<u64, SpecValue> {
        fields_model(self.fields@)
    }
}

/// The mapping `m` after one more occurrence of field `id` with value `v`.
///
/// A first occurrence is stored as it is. A second occurrence turns the entry
/// into an array of the earlier value and the new one; every further
/// occurrence is appended to that array.
pub open spec fn spec_insert(m: Map<u64, SpecValue>, id: u64, v: SpecValue) -> Map<
    u64,
    SpecValue,
> {
    if m.contains_key(id) {
        match m[id] {
            SpecValue::Array(items) => m.insert(id, SpecValue::Array(items.push(v))),
            earlier => m.insert(id, SpecValue::Array(seq![earlier, v])),
        }
    } else {
        m.insert(id, v)
    }
}

/// The model of a list does not depend on how the list was built.
pub proof fn lemma_items_model_push(items: Seq<Value>, v: Value)
    ensures
        items_model(items.push(v)) == items_model(items).push(value_model(v)),
{
    assert(items_model(items.push(v)) =~= items_model(items).push(value_model(v)));
}

/// A message as a value stands for the mapping that the message stands
/// for.
pub proof fn lemma_tree_model(t: Tree)
    ensures
        value_model(Value::Tree(t)) == SpecValue::Tree(t@),
{
    assert(value_model(Value::Tree(t))->Tree_0 =~= t@);
}

impl Tree {
    /// A message without fields.
    pub fn new() -> (t: Tree)
        ensures
            t@ == Map::<u64, SpecValue>::empty(),
    {
        let t = Tree { fields: HashMap::new() };
        assert(t@ =~= Map::<u64, SpecValue>::empty());
        t
    }

    /// The value stored under `id`, if the message has that field.
    pub fn get(&self, id: u64) -> (r: Option<&Value>)
        ensures
            match r {
                Some(v) => self@.contains_key(id) && v@ == self@[id],
                None => !self@.contains_key(id),
            },
    {
        self.fields.get(&id)
    }

    /// Records one more occurrence of field `id`, promoting the entry to an
    /// array from the second occurrence on.
    pub fn insert(&mut self, id: u64, value: Value)
        ensures
            final(self)@ == spec_insert(old(self)@, id, value@),
    {
        let ghost before = self.fields@;
        match self.fields.remove(&id) {
            Some(earlier) => {
                let promoted = match earlier {
                    Value::Array(mut items) => {
                        proof {
                            lemma_items_model_push(items@, value);
                        }
                        items.push(value);
                        Value::Array(items)
                    },
                    single => {
                        let mut items: Vec<Value> = Vec::new();
                        let ghost first = single;
                        items.push(single);
                        items.push(value);
                        assert(items_model(items@) =~= seq![value_model(first), value_model(value)]);
                        Value::Array(items)
                    },
                };
                self.fields.insert(id, promoted);
                assert(self@ =~= spec_insert(fields_model(before), id, value@));
            },
            None => {
                self.fields.insert(id, value);
                assert(self@ =~= spec_insert(fields_model(before), id, value@));
            },
        }
    }
}

impl Value {
    /// The value stored under `id`, where `self` is a message that has that
    /// field.
    pub fn get(&self, id: u64) -> (r: Option<&Value>)
        ensures
            r.deep_view() == spec_get(self@, id),
    {
        match self {
            Value::Tree(t) => {
                proof {
                    lemma_tree_model(*t);
                }
                t.get(id)
            },
            _ => None,
        }
    }

    /// The text of `self`, where it is text or a blob kept as text.
    pub fn as_str(&self) -> (r: Option<&str>)
        ensures
            match r {
                Some(s) => spec_text(self@) == Some(s@),
                None => spec_text(self@) is None,
            },
    {
        match self {
            Value::String(s) => Some(s.as_str()),
            Value::Bytes(s) => Some(s.as_str()),
            _ => None,
        }
    }

    /// The integer that `self` holds, where it fits a signed 64-bit number.
    pub fn as_i64(&self) -> (r: Option<i64>)
        ensures
            r == spec_signed(self@),
    {
        match self {
            Value::Integer(n) => {
                if *n <= 0x7fff_ffff_ffff_ffff {
                    Some(*n as i64)
                } else {
                    None
                }
            },
            _ => None,
        }
    }

    /// The occurrences that `self` holds, where it is a repeated field.
    pub fn as_array(&self) -> (r: Option<&Vec<Value>>)
        ensures
            r.deep_view() == spec_items(self@),
    {
        match self {
            Value::Array(items) => {
                assert(items.deep_view() =~= items_model(items@));
                Some(items)
            },
            _ => None,
        }
    }
}

/// The value under `id` in `v`, where `v` is a message with that field.
pub open spec fn spec_get(v: SpecValue, id: u64) -> Option<SpecValue> {
    match v {
        SpecValue::Tree(m) => if m.contains_key(id) {
            Some(m[id])
        } else {
            None
        },
        _ => None,
    }
}

/// The text of `v`: that of a string, or the base64 text that stands for a
/// blob.
pub open spec fn spec_text(v: SpecValue) -> Option<Seq<char>> {
    match v {
        SpecValue::String(s) => Some(s),
        SpecValue::Bytes(s) => Some(s),
        _ => None,
    }
}

/// The integer of `v` as a signed number, where it is one and fits.
pub open spec fn spec_signed(v: SpecValue) -> Option<i64> {
    match v {
        SpecValue::Integer(n) => if n <= i64::MAX {
            Some(n as i64)
        } else {
            None
        },
        _ => None,
    }
}

/// The occurrences of `v`, where it is a repeated field.
pub open spec fn spec_items(v: SpecValue) -> Option<Seq<SpecValue>> {
    match v {
        SpecValue::Array(items) => Some(items),
        _ => None,
    }
}

impl Clone for Value {
    #[verifier::loop_isolation(false)]
    fn clone(&self) -> (r: Value)
        ensures
            r@ == self@,
        decreases self,
    {
        match self {
            Value::Integer(n) => Value::Integer(*n),
            Value::String(s) => Value::String(s.clone()),
            Value::Bytes(s) => Value::Bytes(s.clone()),
            Value::Tree(t) => {
                let mut fields: HashMap<u64, Value> = HashMap::new();
                for entry in it: t.fields.iter()
                    invariant
                        forall|id: u64| #[trigger]
                            fields@.contains_key(id) ==> t.fields@.contains_key(id) && value_model(
                                fields@[id],
                            ) == value_model(t.fields@[id]),
                        forall|i: int|
                            0 <= i < it.index() ==> fields@.contains_key(*(#[trigger] it.seq()[i]).0),
                {
                    let (id, value) = entry;
                    assert(t.fields@.contains_key(*id) && t.fields@[*id] == *value);
                    let copy = value.clone();
                    fields.insert(*id, copy);
                }
                let copied = Tree { fields };
                assert(copied@ =~= t@);
                proof {
                    lemma_tree_model(copied);
                    lemma_tree_model(*t);
                }
                Value::Tree(copied)
            },
            Value::Array(items) => {
                let mut copies: Vec<Value> = Vec::new();
                let mut i: usize = 0;
                while i < items.len()
                    invariant
                        i <= items.len(),
                        copies.len() == i,
                        forall|j: int| 0 <= j < i ==> value_model(copies[j]) == value_model(items[j]),
                    decreases items.len() - i,
                {
                    let copy = items[i].clone();
                    copies.push(copy);
                    i += 1;
                }
                assert(items_model(copies@) =~= items_model(items@));
                Value::Array(copies)
            },
        }
    }
}

} // verus!
