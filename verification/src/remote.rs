//! The control protocol between nodes: one datagram with a command and its
//! payload, answered by one datagram with a JSON value or an error.

use crate::error::{Error, ErrorKind};
use crate::json::{json_field, json_field_of, JsonField, JsonFieldView};
use crate::text::char_len;
use vstd::prelude::*;

verus! {

/// The datagram that asks a peer to carry out `command` on `payload`.
pub open spec fn request_text(command: Seq<char>, payload: Seq<char>) -> Seq<char> {
    command + " "@ + payload
}

/// What a peer's reply means, given what it holds under the key `error`.
///
/// A reply of at most two characters stands for `null`. Any longer reply
/// must be a JSON document. It is an error exactly when it is an object
/// with the key `error`: with the peer's message when a string stands under
/// that key. Every other document is a result, whatever strings it holds,
/// and is handed on as it is.
pub open spec fn meaning_of(body: Seq<char>, field: JsonFieldView) -> Result<
    Option<Seq<char>>,
    (ErrorKind, Seq<char>),
> {
    if body.len() <= 2 {
        Ok(None)
    } else {
        match field {
            JsonFieldView::Invalid => Err((ErrorKind::Remote, "JSON error"@)),
            JsonFieldView::Missing => Ok(Some(body)),
            JsonFieldView::Text(message) => Err((ErrorKind::Remote, "Remote: "@ + message)),
            _ => Err((ErrorKind::Remote, "Remote sent invalid error"@)),
        }
    }
}

/// What a peer's reply means.
pub open spec fn meaning(body: Seq<char>) -> Result<Option<Seq<char>>, (ErrorKind, Seq<char>)> {
    meaning_of(body, json_field_of(body, "error"@))
}

/// The document of a reply, as contracts see it.
pub open spec fn document_of(o: Option<String>) -> Option<Seq<char>> {
    match o {
        Some(s) => Some(s@),
        None => None,
    }
}

/// The datagram that asks a peer to carry out `command` on `payload`: the
/// command, one space, and the payload.
pub fn request(command: &str, payload: &str) -> (r: String)
    ensures
        r@ == request_text(command@, payload@),
{
    let mut out = String::from_str(command);
    out.append(" ");
    out.append(payload);
    out
}

/// What a peer's reply means, given what it holds under the key `error`.
pub fn classify(body: &str, field: JsonField) -> (r: Result<Option<String>, Error>)
    ensures
        match r {
            Ok(document) => meaning_of(body@, field@) == Ok::<
                Option<Seq<char>>,
                (ErrorKind, Seq<char>),
            >(document_of(document)),
            Err(e) => meaning_of(body@, field@) == Err::<Option<Seq<char>>, (ErrorKind, Seq<char>)>(
                (e.kind, e.message@),
            ),
        },
{
    if char_len(body) <= 2 {
        return Ok(None);
    }
    match field {
        JsonField::Invalid => Err(Error::new(ErrorKind::Remote, "JSON error")),
        JsonField::Missing => Ok(Some(String::from_str(body))),
        JsonField::Text(message) => Err(
            Error::with_detail(ErrorKind::Remote, "Remote: ", message.as_str()),
        ),
        _ => Err(Error::new(ErrorKind::Remote, "Remote sent invalid error")),
    }
}

/// What a peer's reply means: `None` for a reply of at most two
/// characters; the error that the reply reports, when it is a JSON object
/// with the key `error`; the reply itself, when it is any other JSON
/// document; and an error when it is no JSON document.
pub fn interpret(body: &str) -> (r: Result<Option<String>, Error>)
    ensures
        match r {
            Ok(document) => meaning(body@) == Ok::<Option<Seq<char>>, (ErrorKind, Seq<char>)>(
                document_of(document),
            ),
            Err(e) => meaning(body@) == Err::<Option<Seq<char>>, (ErrorKind, Seq<char>)>(
                (e.kind, e.message@),
            ),
        },
{
    let field = json_field(body, "error");
    classify(body, field)
}

} // verus!
