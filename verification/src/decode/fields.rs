//! Readers for single fields of a JSON object.

use crate::decode::outcome_model;
use crate::error::SchemaError;
use crate::ipv4::{dotted, lemma_dotted_injective, Ipv4};
use crate::json::{items_model, lemma_array_view, Json, JsonModel, JsonNumber};
use crate::records::{check_hardware_id, is_hardware_id, texts_model};
use vstd::prelude::*;

verus! {

/// The value of a required field. A document that is no object has the wrong
/// type, whatever the field.
pub open spec fn required(doc: JsonModel, key: Seq<char>) -> Result<JsonModel, SchemaError> {
    match doc.field(key) {
        Some(value) => Ok(value),
        None => if doc is Object {
            Err(SchemaError::MissingField)
        } else {
            Err(SchemaError::WrongType)
        },
    }
}

/// A value read as text: it must be a JSON string.
pub open spec fn text_of(value: JsonModel) -> Result<Seq<char>, SchemaError> {
    match value {
        JsonModel::Text(text) => Ok(text),
        _ => Err(SchemaError::WrongType),
    }
}

/// A value read as a count: it must be a non-negative integer below 2^32.
pub open spec fn count_of(value: JsonModel) -> Result<u32, SchemaError> {
    match value {
        JsonModel::Number(JsonNumber::Unsigned(n)) => if n <= u32::MAX {
            Ok(n as u32)
        } else {
            Err(SchemaError::OutOfRange)
        },
        JsonModel::Number(JsonNumber::Negative(_)) => Err(SchemaError::OutOfRange),
        _ => Err(SchemaError::WrongType),
    }
}

/// A value read as a reading: any JSON number.
pub open spec fn reading_of(value: JsonModel) -> Result<JsonNumber, SchemaError> {
    match value {
        JsonModel::Number(n) => Ok(n),
        _ => Err(SchemaError::WrongType),
    }
}

/// A value read as an address: it must be a JSON string in dotted-quad
/// notation.
pub open spec fn address_of(value: JsonModel) -> Result<Ipv4, SchemaError> {
    match value {
        JsonModel::Text(text) => if exists|address: Ipv4| text == dotted(address) {
            Ok(choose|address: Ipv4| text == dotted(address))
        } else {
            Err(SchemaError::BadAddress)
        },
        _ => Err(SchemaError::WrongType),
    }
}

/// A value read as nothing: it must be JSON `null`.
pub open spec fn nothing_of(value: JsonModel) -> Result<(), SchemaError> {
    match value {
        JsonModel::Null => Ok(()),
        _ => Err(SchemaError::WrongType),
    }
}

/// A required text field.
pub open spec fn text_field(doc: JsonModel, key: Seq<char>) -> Result<Seq<char>, SchemaError> {
    match required(doc, key) {
        Ok(value) => text_of(value),
        Err(e) => Err(e),
    }
}

/// A required count field.
pub open spec fn count_field(doc: JsonModel, key: Seq<char>) -> Result<u32, SchemaError> {
    match required(doc, key) {
        Ok(value) => count_of(value),
        Err(e) => Err(e),
    }
}

/// A required reading field.
pub open spec fn reading_field(doc: JsonModel, key: Seq<char>) -> Result<JsonNumber, SchemaError> {
    match required(doc, key) {
        Ok(value) => reading_of(value),
        Err(e) => Err(e),
    }
}

/// A required address field.
pub open spec fn address_field(doc: JsonModel, key: Seq<char>) -> Result<Ipv4, SchemaError> {
    match required(doc, key) {
        Ok(value) => address_of(value),
        Err(e) => Err(e),
    }
}

/// A required field that holds `null`.
pub open spec fn nothing_field(doc: JsonModel, key: Seq<char>) -> Result<(), SchemaError> {
    match required(doc, key) {
        Ok(value) => nothing_of(value),
        Err(e) => Err(e),
    }
}

/// Finds a required field.
pub(crate) fn read_required<'a>(doc: &'a Json, key: &str) -> (outcome: Result<&'a Json, SchemaError>)
    ensures
        match outcome {
            Ok(value) => required(doc@, key@) == Ok::<JsonModel, SchemaError>(value@),
            Err(e) => required(doc@, key@) == Err::<JsonModel, SchemaError>(e),
        },
{
    match doc.get(key) {
        Some(value) => Ok(value),
        None => match doc {
            Json::Object(_) => Err(SchemaError::MissingField),
            _ => Err(SchemaError::WrongType),
        },
    }
}

/// Reads a value as text.
pub(crate) fn read_text(value: &Json) -> (outcome: Result<String, SchemaError>)
    ensures
        outcome_model(outcome) == text_of(value@),
{
    match value {
        Json::Text(text) => Ok(text.clone()),
        _ => Err(SchemaError::WrongType),
    }
}

/// Reads a value as a count.
pub(crate) fn read_count(value: &Json) -> (outcome: Result<u32, SchemaError>)
    ensures
        outcome == count_of(value@),
{
    match value {
        Json::Number(JsonNumber::Unsigned(n)) => if *n <= u32::MAX as u64 {
            Ok(*n as u32)
        } else {
            Err(SchemaError::OutOfRange)
        },
        Json::Number(JsonNumber::Negative(_)) => Err(SchemaError::OutOfRange),
        _ => Err(SchemaError::WrongType),
    }
}

/// Reads a value as a reading.
pub(crate) fn read_reading(value: &Json) -> (outcome: Result<JsonNumber, SchemaError>)
    ensures
        outcome == reading_of(value@),
{
    match value {
        Json::Number(n) => Ok(*n),
        _ => Err(SchemaError::WrongType),
    }
}

/// Reads a value as an address.
pub(crate) fn read_address(value: &Json) -> (outcome: Result<Ipv4, SchemaError>)
    ensures
        outcome == address_of(value@),
{
    match value {
        Json::Text(text) => match Ipv4::parse(text.as_str()) {
            Some(address) => {
                proof {
                    let chosen = choose|any: Ipv4| text@ == dotted(any);
                    lemma_dotted_injective(address, chosen);
                }
                Ok(address)
            },
            None => Err(SchemaError::BadAddress),
        },
        _ => Err(SchemaError::WrongType),
    }
}

/// Reads a value as nothing.
pub(crate) fn read_nothing(value: &Json) -> (outcome: Result<(), SchemaError>)
    ensures
        outcome == nothing_of(value@),
{
    match value {
        Json::Null => Ok(()),
        _ => Err(SchemaError::WrongType),
    }
}

/// Reads a required text field.
pub(crate) fn text_at(doc: &Json, key: &str) -> (outcome: Result<String, SchemaError>)
    ensures
        outcome_model(outcome) == text_field(doc@, key@),
{
    read_text(read_required(doc, key)?)
}

/// Reads a required count field.
pub(crate) fn count_at(doc: &Json, key: &str) -> (outcome: Result<u32, SchemaError>)
    ensures
        outcome == count_field(doc@, key@),
{
    read_count(read_required(doc, key)?)
}

/// Reads a required reading field.
pub(crate) fn reading_at(doc: &Json, key: &str) -> (outcome: Result<JsonNumber, SchemaError>)
    ensures
        outcome == reading_field(doc@, key@),
{
    read_reading(read_required(doc, key)?)
}

/// Reads a required address field.
pub(crate) fn address_at(doc: &Json, key: &str) -> (outcome: Result<Ipv4, SchemaError>)
    ensures
        outcome == address_field(doc@, key@),
{
    read_address(read_required(doc, key)?)
}

/// Reads a required field that holds `null`.
pub(crate) fn nothing_at(doc: &Json, key: &str) -> (outcome: Result<(), SchemaError>)
    ensures
        outcome == nothing_field(doc@, key@),
{
    read_nothing(read_required(doc, key)?)
}

/// A required hardware identifier field.
pub open spec fn hardware_id_field(doc: JsonModel, key: Seq<char>) -> Result<
    Seq<char>,
    SchemaError,
> {
    match text_field(doc, key) {
        Ok(text) => if is_hardware_id(text) {
            Ok(text)
        } else {
            Err(SchemaError::BadHardwareId)
        },
        Err(e) => Err(e),
    }
}

/// Reads a required hardware identifier field.
pub(crate) fn hardware_id_at(doc: &Json, key: &str) -> (outcome: Result<String, SchemaError>)
    ensures
        outcome_model(outcome) == hardware_id_field(doc@, key@),
{
    let text = text_at(doc, key)?;
    if check_hardware_id(text.as_str()) {
        Ok(text)
    } else {
        Err(SchemaError::BadHardwareId)
    }
}

/// The items of a list, each read by `read`: all of them where every one can
/// be read, else the error of the first that cannot.
pub open spec fn each<T>(
    items: Seq<JsonModel>,
    read: spec_fn(JsonModel) -> Result<T, SchemaError>,
) -> Result<Seq<T>, SchemaError>
    decreases items.len(),
{
    if items.len() == 0 {
        Ok(Seq::empty())
    } else {
        match each(items.drop_last(), read) {
            Ok(front) => match read(items.last()) {
                Ok(item) => Ok(front.push(item)),
                Err(e) => Err(e),
            },
            Err(e) => Err(e),
        }
    }
}

/// The items of a JSON array. Anything else has the wrong type.
pub open spec fn items_of(value: JsonModel) -> Result<Seq<JsonModel>, SchemaError> {
    match value {
        JsonModel::Array(items) => Ok(items),
        _ => Err(SchemaError::WrongType),
    }
}

/// A value read as a list of counts.
pub open spec fn counts_of(value: JsonModel) -> Result<Seq<u32>, SchemaError> {
    match items_of(value) {
        Ok(items) => each(items, |item: JsonModel| count_of(item)),
        Err(e) => Err(e),
    }
}

/// A value read as a list of texts.
pub open spec fn texts_of(value: JsonModel) -> Result<Seq<Seq<char>>, SchemaError> {
    match items_of(value) {
        Ok(items) => each(items, |item: JsonModel| text_of(item)),
        Err(e) => Err(e),
    }
}

/// A required field that holds a list of counts.
pub open spec fn counts_field(doc: JsonModel, key: Seq<char>) -> Result<Seq<u32>, SchemaError> {
    match required(doc, key) {
        Ok(value) => counts_of(value),
        Err(e) => Err(e),
    }
}

/// A required field that holds a list of texts.
pub open spec fn texts_field(doc: JsonModel, key: Seq<char>) -> Result<
    Seq<Seq<char>>,
    SchemaError,
> {
    match required(doc, key) {
        Ok(value) => texts_of(value),
        Err(e) => Err(e),
    }
}

/// Reads a value as a list.
pub(crate) fn read_items(value: &Json) -> (outcome: Result<&Vec<Json>, SchemaError>)
    ensures
        match outcome {
            Ok(items) => items_of(value@) == Ok::<Seq<JsonModel>, SchemaError>(items_model(items@)),
            Err(e) => items_of(value@) == Err::<Seq<JsonModel>, SchemaError>(e),
        },
{
    match value {
        Json::Array(items) => {
            proof {
                lemma_array_view(*items);
            }
            Ok(items)
        },
        _ => Err(SchemaError::WrongType),
    }
}

/// Reads a required field that holds a list of counts.
pub(crate) fn counts_at(doc: &Json, key: &str) -> (outcome: Result<Vec<u32>, SchemaError>)
    ensures
        outcome_model(outcome) == counts_field(doc@, key@),
{
    let items = read_items(read_required(doc, key)?)?;
    let ghost all = items_model(items@);
    let ghost read = |item: JsonModel| count_of(item);
    let mut counts: Vec<u32> = Vec::new();
    let mut i: usize = 0;
    while i < items.len()
        invariant
            i <= items.len(),
            all == items_model(items@),
            read == |item: JsonModel| count_of(item),
            counts_field(doc@, key@) == each(all, read),
            each(all.take(i as int), read) == Ok::<Seq<u32>, SchemaError>(counts@),
        decreases items.len() - i,
    {
        assert(all.take(i + 1).drop_last() == all.take(i as int));
        match read_count(&items[i]) {
            Ok(count) => counts.push(count),
            Err(e) => {
                proof {
                    lemma_each_fails(all, read, i as int);
                }
                return Err(e);
            },
        }
        i += 1;
    }
    assert(all.take(i as int) == all);
    Ok(counts)
}

/// Reads a required field that holds a list of texts.
pub(crate) fn texts_at(doc: &Json, key: &str) -> (outcome: Result<Vec<String>, SchemaError>)
    ensures
        match outcome {
            Ok(texts) => texts_field(doc@, key@) == Ok::<Seq<Seq<char>>, SchemaError>(
                texts_model(texts@),
            ),
            Err(e) => texts_field(doc@, key@) == Err::<Seq<Seq<char>>, SchemaError>(e),
        },
{
    let items = read_items(read_required(doc, key)?)?;
    let ghost all = items_model(items@);
    let ghost read = |item: JsonModel| text_of(item);
    let mut texts: Vec<String> = Vec::new();
    let mut i: usize = 0;
    assert(texts_model(texts@) == Seq::<Seq<char>>::empty());
    while i < items.len()
        invariant
            i <= items.len(),
            all == items_model(items@),
            read == |item: JsonModel| text_of(item),
            texts_field(doc@, key@) == each(all, read),
            each(all.take(i as int), read) == Ok::<Seq<Seq<char>>, SchemaError>(
                texts_model(texts@),
            ),
        decreases items.len() - i,
    {
        assert(all.take(i + 1).drop_last() == all.take(i as int));
        match read_text(&items[i]) {
            Ok(text) => {
                let ghost before = texts_model(texts@);
                texts.push(text);
                assert(texts_model(texts@) == before.push(text@));
            },
            Err(e) => {
                proof {
                    lemma_each_fails(all, read, i as int);
                }
                return Err(e);
            },
        }
        i += 1;
    }
    assert(all.take(i as int) == all);
    Ok(texts)
}

/// Where the items before `at` can all be read and the one at `at` cannot,
/// the list fails with the error of that one.
pub proof fn lemma_each_fails<T>(
    items: Seq<JsonModel>,
    read: spec_fn(JsonModel) -> Result<T, SchemaError>,
    at: int,
)
    requires
        0 <= at < items.len(),
        each(items.take(at), read) is Ok,
        read(items[at]) is Err,
    ensures
        each(items, read) == Err::<Seq<T>, SchemaError>(read(items[at])->Err_0),
    decreases items.len(),
{
    if at == items.len() - 1 {
        assert(items.drop_last() == items.take(at));
    } else {
        assert(items.drop_last().take(at) == items.take(at));
        lemma_each_fails(items.drop_last(), read, at);
    }
}

} // verus!
