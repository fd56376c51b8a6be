use jadwiga::parser::{sig, sig_headers, HeaderParseError, ParserState};

#[test]
fn sig_parses_three_fields() {
    let fields = sig("keyId=\"a\",headers=\"b c\",signature=\"ZA==\"").unwrap();
    assert_eq!(fields.len(), 3);
    assert_eq!(fields[0].0, "keyId");
    assert_eq!(fields[0].1, "a");
    assert_eq!(fields[1].0, "headers");
    assert_eq!(fields[1].1, "b c");
    assert_eq!(fields[2].0, "signature");
    assert_eq!(fields[2].1, "ZA==");
}

#[test]
fn sig_rejects_missing_trailing_quote() {
    let r = sig("keyId=\"a\",headers=\"b c");
    assert_eq!(
        r.unwrap_err(),
        HeaderParseError::UnexpectedEndOfInput(ParserState::Value)
    );
}

#[test]
fn sig_rejects_comma_inside_a_value() {
    // No escape sequences exist, so a comma inside a quoted value is a
    // parse error, not data.
    let r = sig("keyId=\"a,b\"");
    assert_eq!(
        r.unwrap_err(),
        HeaderParseError::UnexpectedCharacter(ParserState::Value, ',')
    );
}

#[test]
fn sig_rejects_embedded_quote() {
    let r = sig("keyId=\"val\"ue\"");
    assert_eq!(
        r.unwrap_err(),
        HeaderParseError::UnexpectedCharacter(ParserState::PostValue, 'u')
    );
}

#[test]
fn sig_rejects_empty_input() {
    let r = sig("");
    assert_eq!(
        r.unwrap_err(),
        HeaderParseError::UnexpectedEndOfInput(ParserState::Key)
    );
}

#[test]
fn sig_rejects_character_before_opening_quote() {
    let r = sig("keyId=x\"a\"");
    assert_eq!(
        r.unwrap_err(),
        HeaderParseError::UnexpectedCharacter(ParserState::PreValue, 'x')
    );
}

#[test]
fn sig_keeps_repeated_keys() {
    let fields = sig("a=\"1\",a=\"2\"").unwrap();
    assert_eq!(fields.len(), 2);
    assert_eq!(fields[0].1, "1");
    assert_eq!(fields[1].1, "2");
}

#[test]
fn sig_headers_tolerates_repeated_whitespace() {
    let headers = sig_headers("a   b  c").unwrap();
    assert_eq!(headers, vec!["a".to_string(), "b".to_string(), "c".to_string()]);
}

#[test]
fn sig_headers_empty_input_yields_empty_list() {
    let headers = sig_headers("").unwrap();
    assert!(headers.is_empty());
}

#[test]
fn sig_headers_keeps_order_and_case() {
    let headers = sig_headers("(request-target) Host Date").unwrap();
    assert_eq!(
        headers,
        vec![
            "(request-target)".to_string(),
            "Host".to_string(),
            "Date".to_string()
        ]
    );
}
