use clarity_types::utils::{capitalize, to_js_key, to_pascal_case, to_underscored};

#[test]
fn capitalize_uppercases_first_character() {
    assert_eq!(capitalize("hello"), "Hello");
    assert_eq!(capitalize("a"), "A");
    assert_eq!(capitalize("Already"), "Already");
    assert_eq!(capitalize(""), "");
}

#[test]
fn pascal_case_joins_hyphenated_segments() {
    assert_eq!(to_pascal_case("get-balance"), "GetBalance");
    assert_eq!(to_pascal_case("single"), "Single");
    assert_eq!(to_pascal_case("a-b-c"), "ABC");
    assert_eq!(to_pascal_case("double--dash"), "DoubleDash");
    assert_eq!(to_pascal_case("trailing-"), "Trailing");
    assert_eq!(to_pascal_case(""), "");
}

#[test]
fn js_key_quotes_only_hyphenated_names() {
    assert_eq!(to_js_key("plain"), "plain");
    assert_eq!(to_js_key("with-dash"), "\"with-dash\"");
    assert_eq!(to_js_key(""), "");
}

#[test]
fn underscored_replaces_every_hyphen() {
    assert_eq!(to_underscored("token-id"), "token_id");
    assert_eq!(to_underscored("a-b-c"), "a_b_c");
    assert_eq!(to_underscored("none"), "none");
}
