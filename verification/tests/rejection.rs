use chat_rs::rejection::CustomError;
use chat_rs::response::ErrorResponse;
use chat_rs::text::{chars_of, contains, find_piece, is_white, string_of, trim_bounds};

fn rejection(status: u16, message: &str) -> CustomError {
    CustomError { status, message: message.to_string() }
}

#[test]
fn missing_query_field_is_named() {
    let error = rejection(400, "Failed to deserialize query string: missing field `token`");
    assert_eq!(error.error_message(), Some("Missing required field token in query.".to_string()));
}

#[test]
fn other_bad_requests_are_invalid_requests() {
    assert_eq!(
        rejection(400, "Failed to parse the request body as JSON").error_message(),
        Some("Invalid request.".to_string())
    );
    assert_eq!(rejection(400, "").error_message(), Some("Invalid request.".to_string()));
}

#[test]
fn unsupported_media_type_asks_for_a_body() {
    assert_eq!(
        rejection(415, "Expected request with `Content-Type: application/json`").error_message(),
        Some("Expected non-empty request body.".to_string())
    );
}

#[test]
fn ill_typed_body_field_is_named_with_the_type_found() {
    let error = rejection(
        422,
        "Failed to deserialize the JSON body into the target type: email: invalid type: integer `1`, expected a string at line 1 column 11",
    );
    assert_eq!(
        error.error_message(),
        Some("Invalid data type integer for field email.".to_string())
    );
}

#[test]
fn missing_body_field_is_named() {
    let error = rejection(
        422,
        "Failed to deserialize the JSON body into the target type: missing field `password` at line 1 column 20",
    );
    assert_eq!(
        error.error_message(),
        Some("Missing required field password in request body.".to_string())
    );
}

#[test]
fn other_unprocessable_bodies_cannot_be_processed() {
    assert_eq!(
        rejection(422, "Failed to deserialize the JSON body into the target type").error_message(),
        Some("Unable to process request body.".to_string())
    );
}

#[test]
fn other_statuses_keep_the_message() {
    assert_eq!(
        rejection(500, "missing field `x`: invalid type").error_message(),
        Some("missing field `x`: invalid type".to_string())
    );
    assert_eq!(rejection(413, "too large").error_message(), Some("too large".to_string()));
}

#[test]
fn invalid_type_is_looked_for_before_missing_field() {
    let error = rejection(422, "a: missing field `f`: invalid type: map, expected");
    assert_eq!(error.error_message(), Some("Invalid data type map, for field missing field `f`.".to_string()));
}

#[test]
fn field_names_are_trimmed() {
    let error = rejection(400, "missing field ` \t token\u{a0} ` here");
    assert_eq!(error.error_message(), Some("Missing required field token in query.".to_string()));
    let error = rejection(422, "x:\u{2003}name\n: invalid type:\t  float  1.5");
    assert_eq!(error.error_message(), Some("Invalid data type float for field name.".to_string()));
}

#[test]
fn message_without_the_promised_parts_has_no_reading() {
    assert_eq!(rejection(400, "missing field token").error_message(), None);
    assert_eq!(rejection(422, "missing field token").error_message(), None);
    assert_eq!(rejection(422, "invalid type").error_message(), None);
    assert_eq!(rejection(422, "a: b: invalid type").error_message(), None);
    assert_eq!(
        rejection(422, "a: b: invalid type:").error_message(),
        Some("Invalid data type  for field b.".to_string())
    );
}

#[test]
fn unterminated_backtick_still_names_the_field() {
    assert_eq!(
        rejection(400, "missing field `token").error_message(),
        Some("Missing required field token in query.".to_string())
    );
}

#[test]
fn response_keeps_the_status_and_carries_the_message() {
    let reply = rejection(400, "Failed to deserialize query string: missing field `token`")
        .into_response();
    assert_eq!(
        reply,
        (
            400,
            ErrorResponse {
                success: false,
                error: "Missing required field token in query.".to_string()
            }
        )
    );
    let reply = rejection(404, "nothing here").into_response();
    assert_eq!(reply, (404, ErrorResponse { success: false, error: "nothing here".to_string() }));
}

#[test]
fn white_space_is_what_std_says_it_is() {
    for code in 0u32..=0x10ffff {
        if let Some(c) = char::from_u32(code) {
            assert_eq!(is_white(c), c.is_whitespace(), "U+{:04X}", code);
        }
    }
}

#[test]
fn search_finds_what_std_finds() {
    let texts = ["", "a", "ab", "aab", "abab", "missing field", "xmissing fiel", "invalid typeinvalid type"];
    let patterns = ["", "a", "b", "ab", "ba", "missing field", "invalid type", "abc"];
    for text in texts {
        for pattern in patterns {
            assert_eq!(
                contains(&chars_of(text), &chars_of(pattern)),
                text.contains(pattern),
                "{:?} in {:?}",
                pattern,
                text
            );
        }
    }
}

#[test]
fn pieces_are_what_std_split_yields() {
    let texts = ["", ":", "a", "a:b", ":a", "a:", "a::b", "::", "a:b:c:d:e", "\u{e9}:\u{4e16}:x"];
    for text in texts {
        let chars = chars_of(text);
        let expected: Vec<&str> = text.split(':').collect();
        for k in 0..expected.len() + 2 {
            let found = find_piece(&chars, ':', k).map(|(from, to)| string_of(&chars, from, to));
            assert_eq!(found.as_deref(), expected.get(k).copied(), "piece {} of {:?}", k, text);
        }
    }
}

#[test]
fn trimming_is_what_std_trim_yields() {
    let texts = ["", " ", "a", " a", "a ", " a b ", "\t\n a\u{a0}\u{3000}", "\u{2003}\u{e9} \u{4e16}\r\n", "   "];
    for text in texts {
        let chars = chars_of(text);
        let (from, to) = trim_bounds(&chars, 0, chars.len());
        assert_eq!(string_of(&chars, from, to), text.trim(), "{:?}", text);
    }
    let chars = chars_of("ab  cd  ef");
    let (from, to) = trim_bounds(&chars, 2, 8);
    assert_eq!((from, to), (4, 6));
}

#[test]
fn characters_round_trip_through_vectors() {
    let text = "h\u{e9}llo \u{4e16}\u{754c} \u{1f600}";
    let chars = chars_of(text);
    assert_eq!(chars, text.chars().collect::<Vec<char>>());
    assert_eq!(string_of(&chars, 0, chars.len()), text);
    assert_eq!(string_of(&chars, 1, 3), "\u{e9}l");
    assert_eq!(string_of(&chars, 2, 2), "");
}
