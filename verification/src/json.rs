//! JSON documents as plain data.
//!
//! Response bodies are parsed by `serde_json`; what it hands back is copied
//! into [`Json`], a tree of plain values that the decoders can read and that
//! callers can build by hand.

use crate::error::SchemaError;
use serde_json::Value;
use vstd::prelude::*;

verus! {

/// A JSON number, kept apart by how it was written.
#[derive(Clone, Copy, Debug, PartialEq, Eq, Structural)]
pub enum JsonNumber {
    /// A non-negative integer.
    Unsigned(u64),
    /// A negative integer.
    Negative(i64),
    /// Any other number, as the bit pattern of its double-precision value.
    Real(u64),
}

/// One name/value pair of a JSON object.
#[derive(Debug, PartialEq, Eq)]
pub struct Member {
    pub name: String,
    pub value: Json,
}

/// A JSON value.
#[derive(Debug, PartialEq, Eq)]
pub enum Json {
    Null,
    Bool(bool),
    Number(JsonNumber),
    Text(String),
    Array(Vec<Json>),
    Object(Vec<Member>),
}

/// Mathematical model of a [`Json`] value.
pub enum JsonModel {
    Null,
    Bool(bool),
    Number(JsonNumber),
    Text(Seq<char>),
    Array(Seq<JsonModel>),
    Object(Seq<(Seq<char>, JsonModel)>),
}

/// The model of a value: the same tree, with sequences for vectors and
/// strings.
pub open spec fn model_of(json: Json) -> JsonModel
    decreases json,
{
    match json {
        Json::Null => JsonModel::Null,
        Json::Bool(b) => JsonModel::Bool(b),
        Json::Number(n) => JsonModel::Number(n),
        Json::Text(s) => JsonModel::Text(s@),
        Json::Array(items) => JsonModel::Array(
            Seq::new(
                items.len() as nat,
                |i: int|
                    if 0 <= i < items.len() {
                        model_of(items[i])
                    } else {
                        JsonModel::Null
                    },
            ),
        ),
        Json::Object(members) => JsonModel::Object(
            Seq::new(
                members.len() as nat,
                |i: int|
                    if 0 <= i < members.len() {
                        (members[i].name@, model_of(members[i].value))
                    } else {
                        (Seq::empty(), JsonModel::Null)
                    },
            ),
        ),
    }
}

impl View for Json {
    type V = JsonModel;

    open spec fn view(&self) -> JsonModel {
        model_of(*self)
    }
}

/// The value stored under `key` in a list of object members: that of the
/// first member with this name.
pub open spec fn lookup(members: Seq<(Seq<char>, JsonModel)>, key: Seq<char>) -> Option<JsonModel>
    decreases members.len(),
{
    if members.len() == 0 {
        None
    } else if members[0].0 == key {
        Some(members[0].1)
    } else {
        lookup(members.drop_first(), key)
    }
}

/// Whether no name occurs twice among the members.
pub open spec fn names_are_distinct(members: Seq<(Seq<char>, JsonModel)>) -> bool {
    forall|i: int, j: int|
        0 <= i < j < members.len() ==> (#[trigger] members[i]).0 != (#[trigger] members[j]).0
}

impl JsonModel {
    /// Whether no object in the tree holds a name twice. Every parsed
    /// document is well-keyed; a value built by hand need not be.
    pub open spec fn well_keyed(self) -> bool
        decreases self,
    {
        match self {
            JsonModel::Array(items) => forall|i: int|
                0 <= i < items.len() ==> (#[trigger] items[i]).well_keyed(),
            JsonModel::Object(members) => names_are_distinct(members) && forall|i: int|
                0 <= i < members.len() ==> (#[trigger] members[i]).1.well_keyed(),
            _ => true,
        }
    }

    /// The value of field `key`, if this is an object that has one.
    pub open spec fn field(self, key: Seq<char>) -> Option<JsonModel> {
        match self {
            JsonModel::Object(members) => lookup(members, key),
            _ => None,
        }
    }
}

/// The models of a run of object members.
pub open spec fn members_model(members: Seq<Member>) -> Seq<(Seq<char>, JsonModel)> {
    Seq::new(members.len(), |i: int| (members[i].name@, members[i].value@))
}

/// The models of a run of values.
pub open spec fn items_model(items: Seq<Json>) -> Seq<JsonModel> {
    Seq::new(items.len(), |i: int| items[i]@)
}

/// The view of an object is the object of its members' views.
pub proof fn lemma_object_view(members: Vec<Member>)
    ensures
        Json::Object(members)@ == JsonModel::Object(members_model(members@)),
{
    assert(Json::Object(members)@->Object_0 =~= members_model(members@));
}

/// The view of an array is the array of its items' views.
pub proof fn lemma_array_view(items: Vec<Json>)
    ensures
        Json::Array(items)@ == JsonModel::Array(items_model(items@)),
{
    assert(Json::Array(items)@->Array_0 =~= items_model(items@));
}

/// Looks up a member by name: the first one that bears it.
pub fn find_member<'a>(members: &'a Vec<Member>, key: &str) -> (found: Option<&'a Json>)
    ensures
        match found {
            Some(value) => lookup(members_model(members@), key@) == Some(value@),
            None => lookup(members_model(members@), key@) is None,
        },
{
    let wanted = key.to_owned();
    let ghost all = members_model(members@);
    let mut i: usize = 0;
    assert(all.skip(0) == all);
    while i < members.len()
        invariant
            i <= members.len(),
            wanted@ == key@,
            all == members_model(members@),
            lookup(all, key@) == lookup(all.skip(i as int), key@),
        decreases members.len() - i,
    {
        let ghost rest = all.skip(i as int);
        assert(rest[0] == all[i as int]);
        assert(rest.drop_first() == all.skip(i + 1));
        if members[i].name == wanted {
            return Some(&members[i].value);
        }
        i += 1;
    }
    None
}

impl Clone for Json {
    /// Copies the whole tree.
    fn clone(&self) -> (copy: Json)
        ensures
            copy@ == self@,
        decreases self,
    {
        match self {
            Json::Null => Json::Null,
            Json::Bool(b) => Json::Bool(*b),
            Json::Number(n) => Json::Number(*n),
            Json::Text(text) => Json::Text(text.clone()),
            Json::Array(items) => {
                let mut copies: Vec<Json> = Vec::new();
                let mut i: usize = 0;
                while i < items.len()
                    invariant
                        i <= items.len(),
                        self == Json::Array(*items),
                        copies.len() == i,
                        forall|k: int| 0 <= k < i ==> #[trigger] copies[k]@ == items[k]@,
                    decreases items.len() - i,
                {
                    assert(self is Array && self->Array_0 == *items);
                    assert(decreases_to!(*self => self->Array_0));
                    assert(decreases_to!(*items => items[i as int]));
                    copies.push(items[i].clone());
                    i += 1;
                }
                proof {
                    lemma_array_view(*items);
                    lemma_array_view(copies);
                    assert(items_model(copies@) =~= items_model(items@));
                }
                Json::Array(copies)
            },
            Json::Object(members) => {
                let mut copies: Vec<Member> = Vec::new();
                let mut i: usize = 0;
                while i < members.len()
                    invariant
                        i <= members.len(),
                        self == Json::Object(*members),
                        copies.len() == i,
                        forall|k: int|
                            0 <= k < i ==> #[trigger] copies[k].name@ == members[k].name@
                                && copies[k].value@ == members[k].value@,
                    decreases members.len() - i,
                {
                    assert(self is Object && self->Object_0 == *members);
                    assert(decreases_to!(*self => self->Object_0));
                    assert(decreases_to!(*members => members[i as int]));
                    assert(decreases_to!(members[i as int] => members[i as int].value));
                    let copy = Member {
                        name: members[i].name.clone(),
                        value: members[i].value.clone(),
                    };
                    copies.push(copy);
                    i += 1;
                }
                proof {
                    lemma_object_view(*members);
                    lemma_object_view(copies);
                    assert(members_model(copies@) =~= members_model(members@));
                }
                Json::Object(copies)
            },
        }
    }
}

impl Clone for Member {
    /// Copies the name and the whole value.
    fn clone(&self) -> (copy: Member)
        ensures
            copy.name@ == self.name@,
            copy.value@ == self.value@,
    {
        Member { name: self.name.clone(), value: self.value.clone() }
    }
}

impl Json {
    /// Looks up a field of an object by name. Anything but an object has no
    /// fields.
    pub fn get(&self, key: &str) -> (found: Option<&Json>)
        ensures
            match found {
                Some(value) => self@.field(key@) == Some(value@),
                None => self@.field(key@) is None,
            },
    {
        match self {
            Json::Object(members) => {
                proof {
                    lemma_object_view(*members);
                }
                find_member(members, key)
            },
            _ => None,
        }
    }
}

/// `serde_json::Value`, the parser's own value type. A value of it is opaque
/// here: it is taken apart by [`shape_of`], one level at a time.
#[verifier::external_type_specification]
#[verifier::external_body]
pub struct ExValue(Value);

/// `serde_json::Error`, the parser's error type. Its content is not looked
/// at.
#[verifier::external_type_specification]
#[verifier::external_body]
pub struct ExError(serde_json::Error);

/// What `serde_json::from_slice` makes of a byte string: the document it
/// holds, or nothing where the bytes are not one JSON document.
pub uninterp spec fn document_of(bytes: Seq<u8>) -> Option<JsonModel>;

/// The tree that a `serde_json::Value` holds.
pub uninterp spec fn value_model(value: Value) -> JsonModel;

/// How many levels of arrays and objects a `serde_json::Value` holds, itself
/// included.
pub uninterp spec fn value_depth(value: Value) -> nat;

/// The top level of a parsed value: its kind, with what is nested in it
/// still as the parser made it.
enum Shape {
    Null,
    Bool(bool),
    Number(JsonNumber),
    Text(String),
    Array(Vec<Value>),
    Object(Vec<(String, Value)>),
}

/// The tree that a shape stands for.
spec fn shape_model(shape: Shape) -> JsonModel {
    match shape {
        Shape::Null => JsonModel::Null,
        Shape::Bool(b) => JsonModel::Bool(b),
        Shape::Number(n) => JsonModel::Number(n),
        Shape::Text(text) => JsonModel::Text(text@),
        Shape::Array(items) => JsonModel::Array(
            Seq::new(items.len() as nat, |i: int| value_model(items[i])),
        ),
        Shape::Object(members) => JsonModel::Object(
            Seq::new(members.len() as nat, |i: int| (members[i].0@, value_model(members[i].1))),
        ),
    }
}

/// Whether everything nested in a shape is less deep than `depth`.
spec fn nested_below(shape: Shape, depth: nat) -> bool {
    match shape {
        Shape::Array(items) => forall|i: int|
            0 <= i < items.len() ==> value_depth(#[trigger] items[i]) < depth,
        Shape::Object(members) => forall|i: int|
            0 <= i < members.len() ==> value_depth((#[trigger] members[i]).1) < depth,
        _ => true,
    }
}

/// Whether the members of a shape bear different names.
spec fn names_differ(shape: Shape) -> bool {
    match shape {
        Shape::Object(members) => forall|i: int, j: int|
            0 <= i < j < members.len() ==> (#[trigger] members[i]).0@ != (#[trigger] members[j]).0@,
        _ => true,
    }
}

/// Calls `serde_json::from_slice` at type `serde_json::Value`.
///
/// Not proved: that the outcome depends on the bytes alone, which is all
/// that the contract claims. `document_of` is the name of that outcome.
#[verifier::external_body]
fn value_from_slice(bytes: &[u8]) -> (parsed: Result<Value, serde_json::Error>)
    ensures
        match parsed {
            Ok(value) => document_of(bytes@) == Some(value_model(value)),
            Err(_) => document_of(bytes@) is None,
        },
{
    serde_json::from_slice::<Value>(bytes)
}

/// Takes the top level off a `serde_json::Value`, variant by variant. A
/// number is told apart by `Number::as_u64`, `Number::as_i64` and
/// `Number::as_f64`; the members of an object come in the iteration order
/// of `serde_json::Map`.
///
/// Not proved: that a value is its top level over the values nested in it,
/// that those are less deep than it, as in any finite tree, and that a
/// `serde_json::Map` hands out every key once.
#[verifier::external_body]
fn shape_of(value: Value) -> (shape: Shape)
    ensures
        shape_model(shape) == value_model(value),
        nested_below(shape, value_depth(value)),
        names_differ(shape),
{
    match value {
        Value::Null => Shape::Null,
        Value::Bool(b) => Shape::Bool(b),
        Value::Number(n) => Shape::Number(match (n.as_u64(), n.as_i64()) {
            (Some(u), _) => JsonNumber::Unsigned(u),
            (None, Some(i)) => JsonNumber::Negative(i),
            (None, None) => JsonNumber::Real(n.as_f64().unwrap_or_default().to_bits()),
        }),
        Value::String(text) => Shape::Text(text),
        Value::Array(items) => Shape::Array(items),
        Value::Object(members) => Shape::Object(members.into_iter().collect()),
    }
}

/// Copies a parsed value into a [`Json`], level by level.
fn json_from_value(value: Value) -> (json: Json)
    ensures
        json@ == value_model(value),
        json@.well_keyed(),
    decreases value_depth(value),
{
    let ghost depth = value_depth(value);
    match shape_of(value) {
        Shape::Null => Json::Null,
        Shape::Bool(b) => Json::Bool(b),
        Shape::Number(n) => Json::Number(n),
        Shape::Text(text) => Json::Text(text),
        Shape::Array(items) => {
            let ghost nested = items@;
            let mut copies: Vec<Json> = Vec::new();
            for item in it: items.into_iter()
                invariant
                    it.seq() == nested,
                    depth == value_depth(value),
                    forall|i: int|
                        0 <= i < nested.len() ==> value_depth(#[trigger] nested[i]) < depth,
                    copies.len() == it.index(),
                    forall|i: int|
                        0 <= i < it.index() ==> (#[trigger] copies[i])@ == value_model(nested[i])
                            && copies[i]@.well_keyed(),
            {
                copies.push(json_from_value(item));
            }
            proof {
                lemma_array_view(copies);
                assert(items_model(copies@) =~= Seq::new(
                    nested.len(),
                    |i: int| value_model(nested[i]),
                ));
            }
            Json::Array(copies)
        },
        Shape::Object(members) => {
            let ghost nested = members@;
            let mut copies: Vec<Member> = Vec::new();
            for member in it: members.into_iter()
                invariant
                    it.seq() == nested,
                    depth == value_depth(value),
                    forall|i: int|
                        0 <= i < nested.len() ==> value_depth((#[trigger] nested[i]).1) < depth,
                    copies.len() == it.index(),
                    forall|i: int|
                        0 <= i < it.index() ==> (#[trigger] copies[i]).name@ == nested[i].0@
                            && copies[i].value@ == value_model(nested[i].1)
                            && copies[i].value@.well_keyed(),
            {
                let (name, nested_value) = member;
                copies.push(Member { name, value: json_from_value(nested_value) });
            }
            proof {
                lemma_object_view(copies);
                assert(members_model(copies@) =~= Seq::new(
                    nested.len(),
                    |i: int| (nested[i].0@, value_model(nested[i].1)),
                ));
            }
            Json::Object(copies)
        },
    }
}

/// Parses one JSON document.
///
/// Succeeds exactly on the byte strings that `serde_json` accepts as a
/// document, and then returns that document. In it no object holds a name
/// twice: of a name that the bytes repeat, the parser keeps one value.
pub fn parse(bytes: &[u8]) -> (outcome: Result<Json, SchemaError>)
    ensures
        match outcome {
            Ok(json) => document_of(bytes@) == Some(json@) && json@.well_keyed(),
            Err(e) => e == SchemaError::Syntax && document_of(bytes@) is None,
        },
{
    match value_from_slice(bytes) {
        Ok(value) => Ok(json_from_value(value)),
        Err(_) => Err(SchemaError::Syntax),
    }
}

} // verus!
