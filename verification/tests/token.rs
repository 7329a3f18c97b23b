use axum_jwt_oidc::token::token_of_header;

#[test]
fn strips_bearer_prefix() {
    assert_eq!(token_of_header("Bearer abc.def.ghi"), "abc.def.ghi");
}

#[test]
fn raw_value_without_scheme_is_the_token() {
    // Tolerant parsing: a header without the bearer scheme is passed
    // through as a literal token and left to fail validation downstream.
    assert_eq!(token_of_header("abc.def.ghi"), "abc.def.ghi");
}

#[test]
fn prefix_check_is_case_sensitive() {
    assert_eq!(token_of_header("bearer abc"), "bearer abc");
}

#[test]
fn bearer_without_space_is_not_the_scheme() {
    assert_eq!(token_of_header("Bearer"), "Bearer");
}

#[test]
fn bearer_with_empty_token() {
    assert_eq!(token_of_header("Bearer "), "");
}

#[test]
fn empty_header_value() {
    assert_eq!(token_of_header(""), "");
}

#[test]
fn only_first_prefix_is_stripped() {
    assert_eq!(token_of_header("Bearer Bearer tok"), "Bearer tok");
}
