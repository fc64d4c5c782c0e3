//! Reading the generated text out of the service's answer.

use crate::codec::{parse, parsed};
use crate::failure::{outcome_view, Failure};
use crate::json::{Json, JsonView};
use vstd::prelude::*;

verus! {

/// What stands for the generated text where the answer holds none.
pub const NO_TEXT: &'static str = "No text found in the response.";

/// The member that lists the candidates of an answer.
pub const CANDIDATES: &'static str = "candidates";

/// The member that holds the content of a candidate.
pub const CONTENT: &'static str = "content";

/// The member that lists the parts of a content.
pub const PARTS: &'static str = "parts";

/// The member that holds the text of a part.
pub const TEXT: &'static str = "text";

/// The member `key` of what was found, if anything was.
pub open spec fn member_of(found: Option<JsonView>, key: Seq<char>) -> Option<JsonView> {
    match found {
        Some(value) => value.member(key),
        None => None,
    }
}

/// The first element of what was found, if anything was.
pub open spec fn first_of(found: Option<JsonView>) -> Option<JsonView> {
    match found {
        Some(value) => value.element(0),
        None => None,
    }
}

/// The characters of what was found, if anything was.
pub open spec fn text_of(found: Option<JsonView>) -> Option<Seq<char>> {
    match found {
        Some(value) => value.text(),
        None => None,
    }
}

/// The text of the first part of the content of the first candidate, where
/// the document has all of these and the text is a string.
pub open spec fn candidate_text(document: JsonView) -> Option<Seq<char>> {
    let candidate = first_of(document.member(CANDIDATES@));
    let parts = member_of(member_of(candidate, CONTENT@), PARTS@);
    text_of(member_of(first_of(parts), TEXT@))
}

/// What an answer is taken to say: its candidate text, or [`NO_TEXT`] where
/// it has none.
pub open spec fn reply_for(document: JsonView) -> Seq<char> {
    match candidate_text(document) {
        Some(text) => text,
        None => NO_TEXT@,
    }
}

/// What the body of an answer is taken to say, where it is a JSON text; the
/// parser's message where it is none.
pub open spec fn reply_to(body: Seq<char>) -> Result<Seq<char>, Seq<char>> {
    match parsed(body) {
        Ok(document) => Ok(reply_for(document)),
        Err(message) => Err(message),
    }
}

/// Finds the candidate text of an answer.
pub fn find_text(document: &Json) -> (found: Option<&str>)
    ensures
        found matches Some(text) ==> candidate_text(document@) == Some(text@),
        found is None ==> candidate_text(document@) is None,
{
    let candidates = match document.member(CANDIDATES) {
        Some(value) => value,
        None => return None,
    };
    let candidate = match candidates.element(0) {
        Some(value) => value,
        None => return None,
    };
    let content = match candidate.member(CONTENT) {
        Some(value) => value,
        None => return None,
    };
    let parts = match content.member(PARTS) {
        Some(value) => value,
        None => return None,
    };
    let part = match parts.element(0) {
        Some(value) => value,
        None => return None,
    };
    match part.member(TEXT) {
        Some(value) => value.text(),
        None => None,
    }
}

/// Gives what an answer is taken to say. An answer without a candidate text
/// is no failure: it says [`NO_TEXT`].
pub fn reply_text(document: &Json) -> (reply: String)
    ensures
        reply@ == reply_for(document@),
{
    match find_text(document) {
        Some(text) => text.to_owned(),
        None => NO_TEXT.to_owned(),
    }
}

/// Reads the body of an answer and gives what it says.
///
/// Fails exactly where the body is no JSON text, with the parser's message.
pub fn read_reply(body: &str) -> (outcome: Result<String, Failure>)
    ensures
        outcome_view(outcome) == reply_to(body@),
{
    match parse(body) {
        Ok(document) => Ok(reply_text(&document)),
        Err(failure) => Err(failure),
    }
}

} // verus!
