//! The one request that carries a prompt to the service.

use crate::codec::{in_quotes, plain, quote, quoted};
use vstd::prelude::*;
use vstd::string::StringExecFns;

verus! {

/// The address of the service, up to and without the caller's key.
pub const ENDPOINT: &'static str =
    "https://generativelanguage.googleapis.com/v1beta/models/gemini-pro:generateContent?key=";

/// What stands in a request body before the prompt.
pub const BODY_OPENING: &'static str = "{\"contents\":[{\"parts\":[{\"text\":";

/// What stands in a request body after the prompt.
pub const BODY_CLOSING: &'static str = "}]}]}";

/// The name of the one header that a request carries.
pub const CONTENT_TYPE: &'static str = "Content-Type";

/// The value of the one header that a request carries.
pub const JSON_MEDIA_TYPE: &'static str = "application/json";

/// A header line: a name and its value.
#[derive(Debug, PartialEq, Eq)]
pub struct Header {
    pub name: String,
    pub value: String,
}

/// An HTTP request that is to be sent with the method `POST`.
#[derive(Debug, PartialEq, Eq)]
pub struct PostRequest {
    pub url: String,
    pub headers: Vec<Header>,
    pub body: String,
}

/// The mathematical value of a [`Header`].
pub struct HeaderView {
    pub name: Seq<char>,
    pub value: Seq<char>,
}

impl View for Header {
    type V = HeaderView;

    open spec fn view(&self) -> HeaderView {
        HeaderView { name: self.name@, value: self.value@ }
    }
}

/// The mathematical value of a [`PostRequest`].
pub struct PostRequestView {
    pub url: Seq<char>,
    pub headers: Seq<HeaderView>,
    pub body: Seq<char>,
}

impl View for PostRequest {
    type V = PostRequestView;

    open spec fn view(&self) -> PostRequestView {
        PostRequestView {
            url: self.url@,
            headers: self.headers@.map_values(|header: Header| header@),
            body: self.body@,
        }
    }
}

/// The address that a request with this key goes to: the key follows the
/// endpoint as it is given, character for character.
pub open spec fn url_for(api_key: Seq<char>) -> Seq<char> {
    ENDPOINT@ + api_key
}

/// The body around a prompt that is already written as a JSON string: an
/// object whose only content is one part with the prompt as its text.
pub open spec fn body_around(literal: Seq<char>) -> Seq<char> {
    BODY_OPENING@ + literal + BODY_CLOSING@
}

/// The body that carries this prompt.
pub open spec fn body_for(prompt: Seq<char>) -> Seq<char> {
    body_around(quoted(prompt))
}

/// The request that asks for an answer to `prompt` on behalf of the holder
/// of `api_key`: it goes to the key's address, says that its body is JSON,
/// and carries the prompt.
pub open spec fn request_for(api_key: Seq<char>, prompt: Seq<char>) -> PostRequestView {
    PostRequestView {
        url: url_for(api_key),
        headers: seq![HeaderView { name: CONTENT_TYPE@, value: JSON_MEDIA_TYPE@ }],
        body: body_for(prompt),
    }
}

/// Builds the address for a key.
pub fn request_url(api_key: &str) -> (url: String)
    ensures
        url@ == url_for(api_key@),
{
    String::from_str(ENDPOINT).concat(api_key)
}

/// Puts a prompt that is already written as a JSON string into a body.
pub fn frame_body(literal: &str) -> (body: String)
    ensures
        body@ == body_around(literal@),
{
    String::from_str(BODY_OPENING).concat(literal).concat(BODY_CLOSING)
}

/// Builds the body for a prompt. A plain prompt stands in its body as it is,
/// between double quotes.
pub fn request_body(prompt: &str) -> (body: String)
    ensures
        body@ == body_for(prompt@),
        plain(prompt@) ==> body@ == body_around(in_quotes(prompt@)),
{
    let literal = quote(prompt);
    frame_body(literal.as_str())
}

/// Describes the request that asks the service to answer `prompt` on behalf
/// of the holder of `api_key`.
pub fn build_request(api_key: &str, prompt: &str) -> (request: PostRequest)
    ensures
        request@ == request_for(api_key@, prompt@),
        plain(prompt@) ==> request@.body == body_around(in_quotes(prompt@)),
{
    let mut headers: Vec<Header> = Vec::new();
    headers.push(
        Header { name: String::from_str(CONTENT_TYPE), value: String::from_str(JSON_MEDIA_TYPE) },
    );
    let request = PostRequest { url: request_url(api_key), headers, body: request_body(prompt) };
    assert(request@.headers == request_for(api_key@, prompt@).headers);
    request
}

} // verus!
