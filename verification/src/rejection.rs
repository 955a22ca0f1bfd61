//! Rejected requests.
//!
//! When a request's body or query cannot be read, the web framework says why
//! in a sentence of its own. Clients get a shorter message: it names the
//! field that was missing or ill-typed and says where, and keeps the status
//! that the framework chose.

use crate::response::{
    ErrorResponse, STATUS_BAD_REQUEST, STATUS_UNPROCESSABLE_ENTITY, STATUS_UNSUPPORTED_MEDIA_TYPE,
};
use crate::text::{
    chars_of, contains, contains_text, find_piece, piece, string_of, text_of, trim_bounds, trimmed,
};
use vstd::prelude::*;

verus! {

/// A rejection as the framework reports it: its status and its own words.
#[derive(Clone, Debug, PartialEq, Eq)]
pub struct CustomError {
    pub status: u16,
    pub message: String,
}

/// The name between the first pair of backticks of a message such as
/// ``missing field `email` at line 1 column 20``.
pub open spec fn quoted_field(message: Seq<char>) -> Option<Seq<char>> {
    match piece(message, '`', 1) {
        Some(name) => Some(trimmed(name)),
        None => None,
    }
}

/// The field name of a message such as
/// `Failed to deserialize the JSON body into the target type: email: invalid type: integer 1, expected a string`:
/// what stands between the first colon and the second.
pub open spec fn typed_field(message: Seq<char>) -> Option<Seq<char>> {
    match piece(message, ':', 1) {
        Some(name) => Some(trimmed(name)),
        None => None,
    }
}

/// The type that such a message found: the first word after the third colon.
pub open spec fn found_type(message: Seq<char>) -> Option<Seq<char>> {
    match piece(message, ':', 3) {
        Some(found) => match piece(trimmed(found), ' ', 0) {
            Some(word) => Some(trimmed(word)),
            None => None,
        },
        None => None,
    }
}

/// The message for a missing field, which `place` says where was expected.
pub open spec fn missing_field_text(message: Seq<char>, place: Seq<char>) -> Option<Seq<char>> {
    match quoted_field(message) {
        Some(name) => Some("Missing required field "@ + name + place),
        None => None,
    }
}

/// The message for a field of the wrong type.
pub open spec fn invalid_type_text(message: Seq<char>) -> Option<Seq<char>> {
    match (typed_field(message), found_type(message)) {
        (Some(name), Some(found)) => Some(
            "Invalid data type "@ + found + " for field "@ + name + "."@,
        ),
        _ => None,
    }
}

/// The client-facing message for a rejection, or `None` where the
/// framework's message says "missing field" or "invalid type" without the
/// parts that such a message is made of.
pub open spec fn rejection_text(status: u16, message: Seq<char>) -> Option<Seq<char>> {
    if status == STATUS_BAD_REQUEST {
        if contains_text(message, "missing field"@) {
            missing_field_text(message, " in query."@)
        } else {
            Some("Invalid request."@)
        }
    } else if status == STATUS_UNSUPPORTED_MEDIA_TYPE {
        Some("Expected non-empty request body."@)
    } else if status == STATUS_UNPROCESSABLE_ENTITY {
        if contains_text(message, "invalid type"@) {
            invalid_type_text(message)
        } else if contains_text(message, "missing field"@) {
            missing_field_text(message, " in request body."@)
        } else {
            Some("Unable to process request body."@)
        }
    } else {
        Some(message)
    }
}

/// Piece `k` of `chars` cut at `sep`, trimmed.
fn trimmed_piece(chars: &Vec<char>, sep: char, k: usize) -> (res: Option<String>)
    ensures
        match res {
            Some(text) => piece(chars@, sep, k as nat) matches Some(p) && text@ == trimmed(p),
            None => piece(chars@, sep, k as nat) is None,
        },
{
    match find_piece(chars, sep, k) {
        None => None,
        Some((from, to)) => {
            let (a, b) = trim_bounds(chars, from, to);
            Some(string_of(chars, a, b))
        },
    }
}

fn missing_field_message(chars: &Vec<char>, place: &str) -> (res: Option<String>)
    ensures
        text_of(res) == missing_field_text(chars@, place@),
{
    match trimmed_piece(chars, '`', 1) {
        None => None,
        Some(name) => {
            let mut out = "Missing required field ".to_owned();
            out.append(name.as_str());
            out.append(place);
            Some(out)
        },
    }
}

fn invalid_type_message(chars: &Vec<char>) -> (res: Option<String>)
    ensures
        text_of(res) == invalid_type_text(chars@),
{
    let name = match trimmed_piece(chars, ':', 1) {
        None => { return None; },
        Some(name) => name,
    };
    let found = match trimmed_piece(chars, ':', 3) {
        None => { return None; },
        Some(found) => found,
    };
    let found_chars = chars_of(found.as_str());
    match trimmed_piece(&found_chars, ' ', 0) {
        None => None,
        Some(word) => {
            let mut out = "Invalid data type ".to_owned();
            out.append(word.as_str());
            out.append(" for field ");
            out.append(name.as_str());
            out.append(".");
            Some(out)
        },
    }
}

impl CustomError {
    /// The message that the client is to see, or `None` where the
    /// framework's message lacks the parts that its wording promises.
    pub fn error_message(&self) -> (res: Option<String>)
        ensures
            text_of(res) == rejection_text(self.status, self.message@),
    {
        let chars = chars_of(self.message.as_str());
        if self.status == STATUS_BAD_REQUEST {
            let missing = chars_of("missing field");
            if contains(&chars, &missing) {
                missing_field_message(&chars, " in query.")
            } else {
                Some("Invalid request.".to_owned())
            }
        } else if self.status == STATUS_UNSUPPORTED_MEDIA_TYPE {
            Some("Expected non-empty request body.".to_owned())
        } else if self.status == STATUS_UNPROCESSABLE_ENTITY {
            let invalid = chars_of("invalid type");
            let missing = chars_of("missing field");
            if contains(&chars, &invalid) {
                invalid_type_message(&chars)
            } else if contains(&chars, &missing) {
                missing_field_message(&chars, " in request body.")
            } else {
                Some("Unable to process request body.".to_owned())
            }
        } else {
            Some(self.message.clone())
        }
    }

    /// Status and body of the response to this rejection. The status is the
    /// framework's; the body carries the client-facing message.
    pub fn into_response(self) -> (reply: (u16, ErrorResponse))
        requires
            rejection_text(self.status, self.message@) is Some,
        ensures
            reply.0 == self.status,
            !reply.1.success,
            rejection_text(self.status, self.message@) == Some(reply.1.error@),
    {
        let status = self.status;
        match self.error_message() {
            Some(error) => (status, ErrorResponse { success: false, error }),
            None => (status, ErrorResponse { success: false, error: self.message }),
        }
    }
}

} // verus!
