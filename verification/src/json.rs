//! Reading the replies of the remote services: JSON documents, parsed and
//! indexed by `serde_json`, and the three fields that the pipeline reads.

use vstd::prelude::*;
use vstd::string::*;
use crate::text::text_view;

verus! {

#[verifier::external_type_specification]
#[verifier::external_body]
pub struct ExValue(serde_json::Value);

#[verifier::external_type_specification]
#[verifier::external_body]
pub struct ExJsonError(serde_json::Error);

/// The document that `serde_json::from_slice` reads from `bytes`, or `None`
/// where it reports an error.
pub uninterp spec fn parsed_json(bytes: Seq<u8>) -> Option<serde_json::Value>;

/// What indexing `value` by the text `key` gives.
pub uninterp spec fn json_member(value: serde_json::Value, key: Seq<char>) -> serde_json::Value;

/// What indexing `value` by the number `index` gives.
pub uninterp spec fn json_element(value: serde_json::Value, index: int) -> serde_json::Value;

/// The text that `value` holds where it is a JSON string, else `None`.
pub uninterp spec fn json_string(value: serde_json::Value) -> Option<Seq<char>>;

/// Calls `serde_json::from_slice` for a `serde_json::Value`. The contract
/// gives the outcome a name and claims only that it is a function of the
/// bytes: `Ok` with the document where there is one, `Err` where not.
#[verifier::external_body]
fn parse(bytes: &[u8]) -> (r: Result<serde_json::Value, serde_json::Error>)
    ensures
        match r {
            Ok(value) => parsed_json(bytes@) == Some(value),
            Err(_) => parsed_json(bytes@) is None,
        },
{
    serde_json::from_slice::<serde_json::Value>(bytes)
}

/// Indexes a `serde_json::Value` by a string (`value[key]`), which yields
/// the member of that name of an object and JSON null in every other case.
/// The contract names the result.
#[verifier::external_body]
fn member<'a>(value: &'a serde_json::Value, key: &str) -> (r: &'a serde_json::Value)
    ensures
        *r == json_member(*value, key@),
{
    &value[key]
}

/// Indexes a `serde_json::Value` by a number (`value[index]`), which yields
/// the element at that place of an array and JSON null in every other case.
/// The contract names the result.
#[verifier::external_body]
fn element<'a>(value: &'a serde_json::Value, index: usize) -> (r: &'a serde_json::Value)
    ensures
        *r == json_element(*value, index as int),
{
    &value[index]
}

/// Calls `serde_json::Value::as_str`: the text of a JSON string, `None` for
/// any other value. The contract names the result.
#[verifier::external_body]
fn string_of<'a>(value: &'a serde_json::Value) -> (r: Option<&'a str>)
    ensures
        match r {
            Some(text) => json_string(*value) == Some(text@),
            None => json_string(*value) is None,
        },
{
    value.as_str()
}

/// The text at `choices[0].message.content` of the document in `body`.
pub open spec fn completion_content_text(body: Seq<u8>) -> Option<Seq<char>> {
    match parsed_json(body) {
        None => None,
        Some(document) => json_string(
            json_member(
                json_member(json_element(json_member(document, "choices"@), 0), "message"@),
                "content"@,
            ),
        ),
    }
}

/// The text at `data[0].url` of the document in `body`.
pub open spec fn first_image_url_text(body: Seq<u8>) -> Option<Seq<char>> {
    match parsed_json(body) {
        None => None,
        Some(document) => json_string(
            json_member(json_element(json_member(document, "data"@), 0), "url"@),
        ),
    }
}

/// Why no container id can be read from a reply.
#[derive(Clone, Copy, Debug, PartialEq, Eq, Structural)]
pub enum IdError {
    /// The body is no JSON document.
    NotJson,
    /// The document has no text under `id`.
    Missing,
}

/// The text at `id` of the document in `body`.
pub open spec fn container_id_text(body: Seq<u8>) -> Result<Seq<char>, IdError> {
    match parsed_json(body) {
        None => Err(IdError::NotJson),
        Some(document) => match json_string(json_member(document, "id"@)) {
            None => Err(IdError::Missing),
            Some(id) => Ok(id),
        },
    }
}

/// Reads the completion out of a reply of the text-completion service: the
/// string at `choices[0].message.content`. `None` where the body is no JSON
/// or holds no string there.
pub fn completion_content(body: &[u8]) -> (r: Option<String>)
    ensures
        text_view(r) == completion_content_text(body@),
{
    match parse(body) {
        Err(_) => None,
        Ok(document) => {
            let choices = member(&document, "choices");
            let first = element(choices, 0);
            let message = member(first, "message");
            let content = member(message, "content");
            match string_of(content) {
                Some(text) => Some(text.to_owned()),
                None => None,
            }
        },
    }
}

/// Reads the address of the picture out of a reply of the image service: the
/// string at `data[0].url`. `None` where the body is no JSON or holds no
/// string there.
pub fn first_image_url(body: &[u8]) -> (r: Option<String>)
    ensures
        text_view(r) == first_image_url_text(body@),
{
    match parse(body) {
        Err(_) => None,
        Ok(document) => {
            let data = member(&document, "data");
            let first = element(data, 0);
            let url = member(first, "url");
            match string_of(url) {
                Some(text) => Some(text.to_owned()),
                None => None,
            }
        },
    }
}

/// Reads the container id out of the reply to the first call of a
/// publication: the string at `id`.
pub fn container_id(body: &[u8]) -> (r: Result<String, IdError>)
    ensures
        match r {
            Ok(id) => container_id_text(body@) == Ok::<Seq<char>, IdError>(id@),
            Err(e) => container_id_text(body@) == Err::<Seq<char>, IdError>(e),
        },
{
    match parse(body) {
        Err(_) => Err(IdError::NotJson),
        Ok(document) => match string_of(member(&document, "id")) {
            Some(text) => Ok(text.to_owned()),
            None => Err(IdError::Missing),
        },
    }
}

} // verus!
