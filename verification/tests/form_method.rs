use method_override::filter::form_method_applies;
use method_override::filter::is_form_content_type;
use method_override::inspect::parse_method_in_first_field;
use method_override::method::Method;

fn form_content() -> Option<&'static [u8]> {
    Some(b"application/x-www-form-urlencoded")
}

#[test]
fn it_matches_with_post_method_form_content_and_matching_put_method_in_first_field() {
    assert!(form_method_applies(
        &Method::Put,
        &Method::Post,
        form_content(),
        b"_method=PUT&first_name=john",
    ));
}

#[test]
fn it_matches_with_post_method_form_content_and_matching_delete_method_in_first_field() {
    assert!(form_method_applies(
        &Method::Delete,
        &Method::Post,
        form_content(),
        b"_method=DELETE&first_name=john",
    ));
}

#[test]
fn it_matches_with_the_minimum_form_body_length() {
    assert!(form_method_applies(&Method::Put, &Method::Post, form_content(), b"_method=PUT"));
}

#[test]
fn it_matches_with_a_form_body_length_between_the_minimum_and_maximum() {
    assert!(form_method_applies(&Method::Head, &Method::Post, form_content(), b"_method=HEAD"));
}

#[test]
fn it_matches_with_the_maximum_form_body_length() {
    assert!(form_method_applies(&Method::Delete, &Method::Post, form_content(), b"_method=DELETE"));
}

#[test]
fn it_rejects_with_post_method_form_content_and_matching_method_not_in_first_field() {
    assert!(!form_method_applies(
        &Method::Put,
        &Method::Post,
        form_content(),
        b"first_name=john&_method=PUT",
    ));
}

#[test]
fn it_rejects_with_post_method_form_content_and_different_method_in_first_field() {
    assert!(!form_method_applies(
        &Method::Put,
        &Method::Post,
        form_content(),
        b"_method=DELETE&first_name=john",
    ));
}

#[test]
fn it_rejects_with_post_method_form_content_and_no_content_type_header() {
    assert!(!form_method_applies(&Method::Put, &Method::Post, None, b"_method=PUT&first_name=john"));
}

#[test]
fn it_rejects_with_post_method_and_no_content() {
    assert!(!form_method_applies(&Method::Put, &Method::Post, None, b""));
}

#[test]
fn inspector_finds_put_in_first_field() {
    let m = parse_method_in_first_field(b"_method=PUT&first_name=john").unwrap();
    assert_eq!(m.token_bytes(), b"PUT".to_vec());
    assert!(matches!(m, Method::Put));
}

#[test]
fn inspector_rejects_bodies_shorter_than_the_minimum() {
    assert!(parse_method_in_first_field(b"").is_none());
    assert!(parse_method_in_first_field(b"_method=PU").is_none());
    assert!(parse_method_in_first_field(b"_method=").is_none());
}

#[test]
fn inspector_reads_boundary_lengths_in_full() {
    let shortest = parse_method_in_first_field(b"_method=PUT").unwrap();
    assert!(matches!(shortest, Method::Put));
    let longest = parse_method_in_first_field(b"_method=DELETE").unwrap();
    assert!(matches!(longest, Method::Delete));
}

#[test]
fn inspector_truncates_values_past_the_longest_expected_body() {
    // `_method=OPTIONS` is one byte past the bound, so only `OPTION` is
    // seen: an extension method that matches no standard target.
    let m = parse_method_in_first_field(b"_method=OPTIONS").unwrap();
    assert_eq!(m.token_bytes(), b"OPTION".to_vec());
    assert!(!m.token_eq(&Method::Options));
}

#[test]
fn inspector_rejects_method_not_in_first_field() {
    assert!(parse_method_in_first_field(b"first_name=john&_method=PUT").is_none());
    assert!(parse_method_in_first_field(b"x=1&_method=PUT").is_none());
}

#[test]
fn inspector_rejects_empty_method_value() {
    assert!(parse_method_in_first_field(b"_method=&x=y").is_none());
}

#[test]
fn inspector_rejects_invalid_utf8_in_the_inspected_prefix() {
    assert!(parse_method_in_first_field(b"_method=PUT&\xff\xff").is_none());
    assert!(parse_method_in_first_field(b"\xc3\x28_method=PUT").is_none());
}

#[test]
fn inspector_accepts_a_field_cut_short_by_an_ampersand_alone() {
    // `=` and `&` are both delimiters, so `_method&PUT` still names PUT.
    let m = parse_method_in_first_field(b"_method&PUT").unwrap();
    assert!(matches!(m, Method::Put));
}

#[test]
fn inspector_is_a_pure_function_of_the_bytes() {
    let first_copy = b"_method=HEAD&x=y".to_vec();
    let second_copy = b"_method=HEAD&x=y".to_vec();
    let a = parse_method_in_first_field(&first_copy);
    let b = parse_method_in_first_field(&second_copy);
    match (a, b) {
        (Some(x), Some(y)) => assert!(x.token_eq(&y)),
        (None, None) => {}
        _ => panic!("the two inspections disagreed"),
    }
}

#[test]
fn parse_recognises_every_standard_method() {
    assert!(matches!(Method::parse(b"GET").unwrap(), Method::Get));
    assert!(matches!(Method::parse(b"POST").unwrap(), Method::Post));
    assert!(matches!(Method::parse(b"PUT").unwrap(), Method::Put));
    assert!(matches!(Method::parse(b"PATCH").unwrap(), Method::Patch));
    assert!(matches!(Method::parse(b"DELETE").unwrap(), Method::Delete));
    assert!(matches!(Method::parse(b"HEAD").unwrap(), Method::Head));
    assert!(matches!(Method::parse(b"OPTIONS").unwrap(), Method::Options));
    assert!(matches!(Method::parse(b"CONNECT").unwrap(), Method::Connect));
    assert!(matches!(Method::parse(b"TRACE").unwrap(), Method::Trace));
}

#[test]
fn parse_accepts_extension_tokens_and_rejects_invalid_ones() {
    let ext = Method::parse(b"PURGE").unwrap();
    assert!(matches!(ext, Method::Extension(_)));
    assert_eq!(ext.token_bytes(), b"PURGE".to_vec());
    assert!(Method::parse(b"").is_none());
    assert!(Method::parse(b"GE T").is_none());
    assert!(Method::parse(b"P%T").is_none());
    // lowercase spellings are extension tokens, not the standard verbs
    let lower = Method::parse(b"put").unwrap();
    assert!(!lower.token_eq(&Method::Put));
}

#[test]
fn content_type_comparison_ignores_ascii_case() {
    assert!(is_form_content_type(b"application/x-www-form-urlencoded"));
    assert!(is_form_content_type(b"Application/X-WWW-Form-URLEncoded"));
    assert!(!is_form_content_type(b"text/plain"));
    assert!(!is_form_content_type(b"application/x-www-form-urlencoded; charset=utf-8"));
}

#[test]
fn predicate_rejects_requests_that_are_not_post() {
    assert!(!form_method_applies(&Method::Put, &Method::Get, form_content(), b"_method=PUT"));
    assert!(!form_method_applies(&Method::Put, &Method::Put, form_content(), b"_method=PUT"));
}

#[test]
fn predicate_rejects_mismatched_content_type_without_needing_the_body() {
    assert!(!form_method_applies(&Method::Put, &Method::Post, Some(b"text/plain"), b"_method=PUT"));
}

#[test]
fn predicate_rejects_a_parsed_method_that_differs_from_the_target() {
    // the inspector itself succeeds on this body ...
    let parsed = parse_method_in_first_field(b"_method=DELETE").unwrap();
    assert!(matches!(parsed, Method::Delete));
    // ... yet the composed predicate targeting PUT fails
    assert!(!form_method_applies(&Method::Put, &Method::Post, form_content(), b"_method=DELETE"));
}
