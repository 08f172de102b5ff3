use crate::error::{outcome, Error, ErrorView};
use crate::json::{lemma_array_value, lemma_object_value, members_of, values_of, Json, JsonValue};
use vstd::prelude::*;

verus! {

/// The string under `key`, which must be there.
pub open spec fn required_str(j: JsonValue, key: Seq<char>) -> Result<Seq<char>, ErrorView> {
    match j.field(key) {
        None => Err(ErrorView::MissingField { field: key }),
        Some(JsonValue::Str(s)) => Ok(s),
        Some(_) => Err(ErrorView::InvalidType { field: key }),
    }
}

/// The string under `key`; nothing where the key is absent or holds `null`.
pub open spec fn optional_str(j: JsonValue, key: Seq<char>) -> Result<
    Option<Seq<char>>,
    ErrorView,
> {
    match j.field(key) {
        None => Ok(None),
        Some(JsonValue::Null) => Ok(None),
        Some(JsonValue::Str(s)) => Ok(Some(s)),
        Some(_) => Err(ErrorView::InvalidType { field: key }),
    }
}

/// The string under `key`; the empty string where the key is absent or
/// holds `null`. This is how a string is read that the service fills in: a
/// document that was written for the service is without it.
pub open spec fn defaulted_str(j: JsonValue, key: Seq<char>) -> Result<Seq<char>, ErrorView> {
    match optional_str(j, key) {
        Err(e) => Err(e),
        Ok(Some(s)) => Ok(s),
        Ok(None) => Ok(Seq::empty()),
    }
}

/// The flag under `key`; `false` where the key is absent.
pub open spec fn optional_bool(j: JsonValue, key: Seq<char>) -> Result<bool, ErrorView> {
    match j.field(key) {
        None => Ok(false),
        Some(JsonValue::Bool(b)) => Ok(b),
        Some(_) => Err(ErrorView::InvalidType { field: key }),
    }
}

/// The object under `key`, which must be there.
pub open spec fn required_object(j: JsonValue, key: Seq<char>) -> Result<JsonValue, ErrorView> {
    match j.field(key) {
        None => Err(ErrorView::MissingField { field: key }),
        Some(JsonValue::Object(members)) => Ok(JsonValue::Object(members)),
        Some(_) => Err(ErrorView::InvalidType { field: key }),
    }
}

/// The object under `key`; nothing where the key is absent or holds `null`.
pub open spec fn optional_object(j: JsonValue, key: Seq<char>) -> Result<
    Option<JsonValue>,
    ErrorView,
> {
    match j.field(key) {
        None => Ok(None),
        Some(JsonValue::Null) => Ok(None),
        Some(JsonValue::Object(members)) => Ok(Some(JsonValue::Object(members))),
        Some(_) => Err(ErrorView::InvalidType { field: key }),
    }
}

/// The items of the array under `key`, which must be there.
pub open spec fn required_array(j: JsonValue, key: Seq<char>) -> Result<
    Seq<JsonValue>,
    ErrorView,
> {
    match j.field(key) {
        None => Err(ErrorView::MissingField { field: key }),
        Some(JsonValue::Array(items)) => Ok(items),
        Some(_) => Err(ErrorView::InvalidType { field: key }),
    }
}

/// The items of the array under `key`; nothing where the key is absent or
/// holds `null`.
pub open spec fn optional_array(j: JsonValue, key: Seq<char>) -> Result<
    Option<Seq<JsonValue>>,
    ErrorView,
> {
    match j.field(key) {
        None => Ok(None),
        Some(JsonValue::Null) => Ok(None),
        Some(JsonValue::Array(items)) => Ok(Some(items)),
        Some(_) => Err(ErrorView::InvalidType { field: key }),
    }
}

/// The string under `key` where it is a string; nothing otherwise. This is
/// how a discriminator is read.
pub open spec fn tag(j: JsonValue, key: Seq<char>) -> Option<Seq<char>> {
    match j.field(key) {
        Some(JsonValue::Str(s)) => Some(s),
        _ => None,
    }
}

/// `members` with one more member behind them where `value` holds a string.
pub open spec fn with_optional_str(
    members: Seq<(Seq<char>, JsonValue)>,
    key: Seq<char>,
    value: Option<Seq<char>>,
) -> Seq<(Seq<char>, JsonValue)> {
    match value {
        Some(s) => members.push((key, JsonValue::Str(s))),
        None => members,
    }
}

/// Writes the member `key` behind the members that are there.
pub fn put(members: &mut Vec<(String, Json)>, key: &str, value: Json)
    ensures
        members_of(final(members)@) == members_of(old(members)@).push((key@, value@)),
{
    members.push((key.to_owned(), value));
    assert(members_of(members@) =~= members_of(old(members)@).push((key@, value@)));
}

/// Writes the string `value` under `key`.
pub fn put_str(members: &mut Vec<(String, Json)>, key: &str, value: &str)
    ensures
        members_of(final(members)@) == members_of(old(members)@).push(
            (key@, JsonValue::Str(value@)),
        ),
{
    put(members, key, Json::Str(value.to_owned()));
}

/// Writes the string under `key` where there is one, and nothing where
/// there is none.
pub fn put_optional_str(members: &mut Vec<(String, Json)>, key: &str, value: &Option<String>)
    ensures
        members_of(final(members)@) == with_optional_str(
            members_of(old(members)@),
            key@,
            value.deep_view(),
        ),
{
    match value {
        Some(s) => put_str(members, key, s.as_str()),
        None => {},
    }
}

/// An object made of `members`.
pub fn object(members: Vec<(String, Json)>) -> (r: Json)
    ensures
        r@ == JsonValue::Object(members_of(members@)),
{
    proof {
        lemma_object_value(members);
    }
    Json::Object(members)
}

/// An array made of `items`.
pub fn array(items: Vec<Json>) -> (r: Json)
    ensures
        r@ == JsonValue::Array(values_of(items@)),
{
    proof {
        lemma_array_value(items);
    }
    Json::Array(items)
}

/// Reads a discriminator.
pub fn read_tag(j: &Json, key: &str) -> (r: Option<String>)
    ensures
        r.deep_view() == tag(j@, key@),
{
    match j.get(key) {
        Some(Json::Str(s)) => Some(s.clone()),
        _ => None,
    }
}

/// Reads the string under `key`, which must be there.
pub fn read_required_str(j: &Json, key: &str) -> (r: Result<String, Error>)
    ensures
        outcome(r) == required_str(j@, key@),
{
    match j.get(key) {
        None => Err(Error::MissingField { field: key.to_owned() }),
        Some(Json::Str(s)) => Ok(s.clone()),
        Some(_) => Err(Error::InvalidType { field: key.to_owned() }),
    }
}

/// Reads the string under `key`, if there is one.
pub fn read_optional_str(j: &Json, key: &str) -> (r: Result<Option<String>, Error>)
    ensures
        outcome(r) == optional_str(j@, key@),
{
    match j.get(key) {
        None => Ok(None),
        Some(Json::Null) => Ok(None),
        Some(Json::Str(s)) => Ok(Some(s.clone())),
        Some(_) => Err(Error::InvalidType { field: key.to_owned() }),
    }
}

/// Reads the string under `key`; a string that is absent is empty.
pub fn read_defaulted_str(j: &Json, key: &str) -> (r: Result<String, Error>)
    ensures
        outcome(r) == defaulted_str(j@, key@),
{
    match read_optional_str(j, key)? {
        Some(s) => Ok(s),
        None => Ok(String::new()),
    }
}

/// Reads the flag under `key`; a flag that is absent is not set.
pub fn read_optional_bool(j: &Json, key: &str) -> (r: Result<bool, Error>)
    ensures
        outcome(r) == optional_bool(j@, key@),
{
    match j.get(key) {
        None => Ok(false),
        Some(Json::Bool(b)) => Ok(*b),
        Some(_) => Err(Error::InvalidType { field: key.to_owned() }),
    }
}

/// Reads the object under `key`, which must be there.
pub fn read_required_object<'a>(j: &'a Json, key: &str) -> (r: Result<&'a Json, Error>)
    ensures
        outcome(r) == required_object(j@, key@),
{
    match j.get(key) {
        None => Err(Error::MissingField { field: key.to_owned() }),
        Some(found) => match found {
            Json::Object(_) => Ok(found),
            _ => Err(Error::InvalidType { field: key.to_owned() }),
        },
    }
}

/// Reads the object under `key`, if there is one.
pub fn read_optional_object<'a>(j: &'a Json, key: &str) -> (r: Result<Option<&'a Json>, Error>)
    ensures
        outcome(r) == optional_object(j@, key@),
{
    match j.get(key) {
        None => Ok(None),
        Some(found) => match found {
            Json::Null => Ok(None),
            Json::Object(_) => Ok(Some(found)),
            _ => Err(Error::InvalidType { field: key.to_owned() }),
        },
    }
}

/// Reads the items of the array under `key`, which must be there.
pub fn read_required_array<'a>(j: &'a Json, key: &str) -> (r: Result<&'a Vec<Json>, Error>)
    ensures
        match r {
            Ok(items) => required_array(j@, key@) == Ok::<Seq<JsonValue>, ErrorView>(
                values_of(items@),
            ),
            Err(e) => required_array(j@, key@) == Err::<Seq<JsonValue>, ErrorView>(e@),
        },
{
    match j.get(key) {
        None => Err(Error::MissingField { field: key.to_owned() }),
        Some(Json::Array(items)) => {
            proof {
                lemma_array_value(*items);
            }
            Ok(items)
        },
        Some(_) => Err(Error::InvalidType { field: key.to_owned() }),
    }
}

/// Reads the items of the array under `key`, if there is one.
pub fn read_optional_array<'a>(j: &'a Json, key: &str) -> (r: Result<
    Option<&'a Vec<Json>>,
    Error,
>)
    ensures
        match r {
            Ok(Some(items)) => optional_array(j@, key@) == Ok::<
                Option<Seq<JsonValue>>,
                ErrorView,
            >(Some(values_of(items@))),
            Ok(None) => optional_array(j@, key@) == Ok::<Option<Seq<JsonValue>>, ErrorView>(
                None,
            ),
            Err(e) => optional_array(j@, key@) == Err::<Option<Seq<JsonValue>>, ErrorView>(e@),
        },
{
    match j.get(key) {
        None => Ok(None),
        Some(Json::Null) => Ok(None),
        Some(Json::Array(items)) => {
            proof {
                lemma_array_value(*items);
            }
            Ok(Some(items))
        },
        Some(_) => Err(Error::InvalidType { field: key.to_owned() }),
    }
}

} // verus!
