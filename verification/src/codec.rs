//! Reading and writing JSON text, which is left to `serde_json`.

use crate::failure::Failure;
use crate::json::{Json, JsonView};
use vstd::prelude::*;

verus! {

/// `serde_json::Value`, a JSON value as the parser builds it. Nothing is
/// known of one but what [`held`] names.
#[verifier::external_type_specification]
#[verifier::external_body]
pub struct ExValue(serde_json::Value);

/// `serde_json::Error`, the parser's error. Nothing is known of one but what
/// [`message_of`] names.
#[verifier::external_type_specification]
#[verifier::external_body]
pub struct ExError(serde_json::Error);

/// What `serde_json::from_str` makes of a text when asked for a
/// `serde_json::Value`: the document it reads, or the message of the error it
/// reports.
pub uninterp spec fn parsed(text: Seq<char>) -> Result<JsonView, Seq<char>>;

/// The document that a `serde_json::Value` holds.
pub uninterp spec fn held(value: serde_json::Value) -> JsonView;

/// The message that a `serde_json::Error` displays.
pub uninterp spec fn message_of(error: serde_json::Error) -> Seq<char>;

/// The string literal that `serde_json` writes for a text: the text between
/// double quotes, with the escapes that JSON asks for.
pub uninterp spec fn quoted(text: Seq<char>) -> Seq<char>;

/// Whether `serde_json` writes a character with an escape: the double quote,
/// the backslash, and whatever stands below the space.
pub open spec fn escaped(c: char) -> bool {
    c == '"' || c == '\\' || (c as u32) < 0x20
}

/// Whether a text holds no character that is written with an escape.
pub open spec fn plain(text: Seq<char>) -> bool {
    forall|i: int| 0 <= i < text.len() ==> !escaped(#[trigger] text[i])
}

/// A text between double quotes.
pub open spec fn in_quotes(text: Seq<char>) -> Seq<char> {
    seq!['"'] + text + seq!['"']
}

/// Calls `serde_json::from_str` for a `serde_json::Value`. Assumed: the
/// outcome depends on the text alone, and is the one that [`parsed`] names.
#[verifier::external_body]
fn read_value(text: &str) -> (outcome: Result<serde_json::Value, serde_json::Error>)
    ensures
        outcome matches Ok(value) ==> parsed(text@) is Ok && parsed(text@)->Ok_0 == held(value),
        outcome matches Err(error) ==> parsed(text@) is Err && parsed(text@)->Err_0 == message_of(
            error,
        ),
{
    serde_json::from_str::<serde_json::Value>(text)
}

/// Copies a `serde_json::Value` into a [`Json`], variant by variant; the
/// members of an object come in the order in which its map hands them out.
/// Assumed: the copy is the document that [`held`] names.
#[verifier::external_body]
fn tree_of(value: &serde_json::Value) -> (tree: Json)
    ensures
        tree@ == held(*value),
{
    match value {
        serde_json::Value::Null => Json::Null,
        serde_json::Value::Bool(b) => Json::Bool(*b),
        serde_json::Value::Number(_) => Json::Number,
        serde_json::Value::String(s) => Json::Text(s.clone()),
        serde_json::Value::Array(items) => Json::Array(items.iter().map(tree_of).collect()),
        serde_json::Value::Object(members) => Json::Object(
            members.iter().map(|(name, member)| (name.clone(), tree_of(member))).collect(),
        ),
    }
}

/// Calls `to_string` on a `serde_json::Error`, which writes what the error
/// displays. Assumed: that text is the one that [`message_of`] names.
#[verifier::external_body]
fn describe(error: &serde_json::Error) -> (message: String)
    ensures
        message@ == message_of(*error),
{
    error.to_string()
}

/// Calls `to_string` on the `serde_json::Value` that holds a text as a JSON
/// string. Assumed: the result depends on the text alone, and is the literal
/// that [`quoted`] names; a plain text is written as it is, between double
/// quotes.
#[verifier::external_body]
pub(crate) fn quote(text: &str) -> (literal: String)
    ensures
        literal@ == quoted(text@),
        plain(text@) ==> literal@ == in_quotes(text@),
{
    serde_json::Value::String(text.to_owned()).to_string()
}

/// Reads a JSON text into a document.
///
/// Succeeds exactly on the texts that `serde_json` accepts as one JSON value;
/// on any other text the failure carries the parser's message.
pub fn parse(text: &str) -> (outcome: Result<Json, Failure>)
    ensures
        match parsed(text@) {
            Ok(tree) => outcome matches Ok(document) && document@ == tree,
            Err(message) => outcome matches Err(failure) && failure@ == message,
        },
{
    match read_value(text) {
        Ok(value) => Ok(tree_of(&value)),
        Err(error) => Err(Failure { message: describe(&error) }),
    }
}

} // verus!
