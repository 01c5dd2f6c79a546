use tracerbench_serve::regexes::RegexReplace;
use tracerbench_serve::request_parts::RequestPart;
use tracerbench_serve::state::State;

#[test]
fn test_state_drop_path() {
    let mut state = State::new("GET", "www.example.com", "/path/to/something?foo=bar");

    state.clear_value();

    state.move_value_to_part(RequestPart::Path).unwrap();

    assert_eq!(state.key(), "GET www.example.com /?foo=bar");
}

#[test]
fn test_state_drop_query() {
    let mut state = State::new("GET", "www.example.com", "/path/to/something?foo=bar");

    state.clear_value();

    state.move_value_to_part(RequestPart::Query).unwrap();

    assert_eq!(state.key(), "GET www.example.com /path/to/something");
}

#[test]
fn test_state_drop_query_and_replace() {
    let mut state = State::new("GET", "www.example.com", "/path/to/something?foo=bar");

    state.clear_value();

    state.move_value_to_part(RequestPart::Query).unwrap();

    state.move_string_to_value("another=query");

    state.move_value_to_part(RequestPart::Query).unwrap();

    state.move_string_to_value("/another/path");

    state.test_value_equals("/another/path");

    state.move_value_to_part(RequestPart::Path).unwrap();

    assert_eq!(state.key(), "GET www.example.com /another/path?another=query");
}

#[test]
fn test_state_part_to_other_part_faults() {
    let mut state = State::new("GET", "www.example.com", "/p");

    state.move_part_to_value(RequestPart::Method);
    // writing a part back into itself is a no-op
    state.move_value_to_part(RequestPart::Method).unwrap();

    state.move_part_to_value(RequestPart::Method);
    // moving one part into a different part is an archive fault
    assert!(state.move_value_to_part(RequestPart::Path).is_err());
}

#[test]
fn test_identity_rewrite_keeps_part_reference() {
    // the rewrite matches but leaves the text unchanged, so the register
    // still refers to the part and may not be moved elsewhere
    let identity = RegexReplace::new("GET", "GET").unwrap();
    let mut state = State::new("GET", "www.example.com", "/p");
    state.move_part_to_value(RequestPart::Method);
    state.value_regex_replace(&identity);
    assert!(state.move_value_to_part(RequestPart::Authority).is_err());

    // a rewrite that changes the text makes the register an owned string,
    // which may be written anywhere
    let changing = RegexReplace::new("GET", "HEAD").unwrap();
    let mut state = State::new("GET", "www.example.com", "/p");
    state.move_part_to_value(RequestPart::Method);
    state.value_regex_replace(&changing);
    assert!(state.move_value_to_part(RequestPart::Authority).is_ok());
    assert_eq!(state.key(), "GET HEAD /p");
}

#[test]
fn test_state_tests_on_absent_value() {
    let mut state = State::new("GET", "www.example.com", "/p");
    state.clear_value();
    state.test_value_equals("GET");
    // an absent value fails every test; the jump must be taken
    let mut jumped = State::new("GET", "www.example.com", "/p");
    jumped.clear_value();
    jumped.test_value_includes("anything");
    assert_eq!(state.key(), "GET www.example.com /p");
}
