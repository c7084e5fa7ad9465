use happy_tweet::validate::{validate_output_path, validate_term_search};

#[test]
fn term_plain_is_accepted() {
    assert_eq!(validate_term_search("rust"), Ok(()));
    assert_eq!(validate_term_search("from:rustlang #verus"), Ok(()));
}

#[test]
fn term_with_inner_space_is_accepted() {
    assert_eq!(validate_term_search("happy new year"), Ok(()));
}

#[test]
fn term_empty_is_rejected() {
    assert_eq!(validate_term_search(""), Err(String::from("The term cannot be empty")));
}

#[test]
fn term_with_leading_space_is_rejected() {
    assert_eq!(
        validate_term_search(" rust"),
        Err(String::from("search term name cannot have leading and trailing space"))
    );
}

#[test]
fn term_with_trailing_space_is_rejected() {
    assert_eq!(
        validate_term_search("rust\n"),
        Err(String::from("search term name cannot have leading and trailing space"))
    );
}

#[test]
fn term_of_white_space_alone_is_rejected_as_padded() {
    assert_eq!(
        validate_term_search("   "),
        Err(String::from("search term name cannot have leading and trailing space"))
    );
}

#[test]
fn term_with_wide_white_space_is_rejected() {
    // U+3000, the ideographic space, takes three bytes.
    assert_eq!(
        validate_term_search("\u{3000}rust"),
        Err(String::from("search term name cannot have leading and trailing space"))
    );
    assert_eq!(
        validate_term_search("rust\u{a0}"),
        Err(String::from("search term name cannot have leading and trailing space"))
    );
}

#[test]
fn term_of_wide_characters_is_accepted() {
    assert_eq!(validate_term_search("日本語"), Ok(()));
    assert_eq!(validate_term_search("é"), Ok(()));
}

#[test]
fn output_plain_is_accepted() {
    assert_eq!(validate_output_path("/dev/stdout"), Ok(()));
    assert_eq!(validate_output_path("out dir/tweets.json"), Ok(()));
}

#[test]
fn output_empty_is_accepted() {
    assert_eq!(validate_output_path(""), Ok(()));
}

#[test]
fn output_with_leading_space_is_rejected() {
    assert_eq!(
        validate_output_path("\ttweets.json"),
        Err(String::from("output cannot have leading and trailing space"))
    );
}

#[test]
fn output_with_trailing_space_is_rejected() {
    assert_eq!(
        validate_output_path("tweets.json "),
        Err(String::from("output cannot have leading and trailing space"))
    );
}

#[test]
fn output_of_white_space_alone_is_rejected() {
    assert_eq!(
        validate_output_path(" "),
        Err(String::from("output cannot have leading and trailing space"))
    );
}
