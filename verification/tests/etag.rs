use etag_middleware::engine::{decide, CallerValidators, Decision, Method, Response, ResponseBody};
use etag_middleware::hex::size_prefix;
use etag_middleware::token::make_validator;
use etag_middleware::Etag;

const ABC_TOKEN: &str = "W/\"3-UDkviZRfr3iFYTpztlqwBg==\"";
const ABCD_TOKEN: &str = "W/\"4-PTWx0eye5xvCkPo9OGBrjQ==\"";

fn ok_response(body: &[u8]) -> Response {
    Response {
        status: 200,
        validator: None,
        body: ResponseBody::Buffered(body.to_vec()),
    }
}

fn tokens(ts: &[&str]) -> CallerValidators {
    CallerValidators::Tokens(ts.iter().map(|t| String::from(*t)).collect())
}

#[test]
fn test_generates_etag() {
    let srv = Etag.new_transform(());
    let res = srv.respond(&Method::Get, &CallerValidators::Absent, ok_response(b"abc"));
    assert_eq!(res.status, 200);
    assert_eq!(res.validator, Some(String::from(ABC_TOKEN)));
    assert_eq!(res.body, ResponseBody::Buffered(b"abc".to_vec()));
}

#[test]
fn test_any_data_matches_wildcard_etag() {
    let srv = Etag.new_transform(());
    let res = srv.respond(&Method::Get, &CallerValidators::Wildcard, ok_response(b"abcd"));
    assert_eq!(res.status, 304);
}

#[test]
fn test_generates_etag_on_changes() {
    let srv = Etag.new_transform(());
    let caller = tokens(&["W/\"3-UDkviZRfr3iFYTpztlqwBg==\""]);
    let res = srv.respond(&Method::Get, &caller, ok_response(b"abcd"));
    assert_eq!(res.validator, Some(String::from(ABCD_TOKEN)));
    assert_eq!(res.status, 200);
}

#[test]
fn test_body_gets_preserved() {
    let srv = Etag.new_transform(());
    let caller = tokens(&["W/\"UDkviZRfr3iFYTpztlqwBg==\""]);
    let res = srv.respond(&Method::Get, &caller, ok_response(b"abcd"));
    assert_eq!(res.status, 200);
    assert_eq!(res.body, ResponseBody::Buffered(b"abcd".to_vec()));
}

#[test]
fn does_not_add_etag_header_to_post_request() {
    let srv = Etag.new_transform(());
    let res = srv.respond(&Method::Post, &CallerValidators::Absent, ok_response(b"abcd"));
    assert_eq!(res.validator, None);
    assert_eq!(res.status, 200);
    assert_eq!(res.body, ResponseBody::Buffered(b"abcd".to_vec()));
}

#[test]
fn matching_token_short_circuits() {
    let srv = Etag.new_transform(());
    let issued = make_validator(&b"abcd".to_vec());
    assert_eq!(issued.as_str(), ABCD_TOKEN);
    let caller = CallerValidators::Tokens(vec![issued]);
    let res = srv.respond(&Method::Get, &caller, ok_response(b"abcd"));
    assert_eq!(res.status, 304);
    assert_eq!(res.validator, None);
    assert_eq!(res.body, ResponseBody::Missing);
}

#[test]
fn resubmitted_token_stays_unchanged() {
    let srv = Etag.new_transform(());
    let first = srv.respond(&Method::Get, &CallerValidators::Absent, ok_response(b"abc"));
    let issued = first.validator.expect("a fresh validator is attached");
    let caller = CallerValidators::Tokens(vec![issued]);
    let second = srv.respond(&Method::Get, &caller, ok_response(b"abc"));
    assert_eq!(second.status, 304);
    assert_eq!(second.body, ResponseBody::Missing);
    assert_eq!(second.validator, None);
}

#[test]
fn wildcard_matches_empty_body() {
    let srv = Etag.new_transform(());
    let res = srv.respond(&Method::Get, &CallerValidators::Wildcard, ok_response(b""));
    assert_eq!(res.status, 304);
    assert_eq!(res.body, ResponseBody::Missing);
    assert_eq!(res.validator, None);
}

#[test]
fn same_bytes_same_token() {
    let token1 = make_validator(&b"some body".to_vec());
    let token2 = make_validator(&b"some body".to_vec());
    assert_eq!(token1, token2);
}

#[test]
fn differing_bodies_differing_tokens() {
    let short = make_validator(&b"abc".to_vec());
    let long = make_validator(&b"abcd".to_vec());
    let same_len = make_validator(&b"abce".to_vec());
    assert_ne!(short, long);
    assert_ne!(long, same_len);
    assert_ne!(short, same_len);
}

#[test]
fn streamed_body_passes_through() {
    let srv = Etag.new_transform(());
    let streamed = Response {
        status: 200,
        validator: None,
        body: ResponseBody::Streamed,
    };
    let res = srv.respond(&Method::Get, &CallerValidators::Wildcard, streamed.clone());
    assert_eq!(res, streamed);
}

#[test]
fn missing_body_passes_through() {
    let srv = Etag.new_transform(());
    let empty = Response {
        status: 204,
        validator: None,
        body: ResponseBody::Missing,
    };
    let res = srv.respond(&Method::Get, &CallerValidators::Absent, empty.clone());
    assert_eq!(res, empty);
}

#[test]
fn non_get_methods_pass_through_verbatim() {
    let srv = Etag.new_transform(());
    let original = Response {
        status: 201,
        validator: Some(String::from("W/\"kept\"")),
        body: ResponseBody::Buffered(b"payload".to_vec()),
    };
    for method in [Method::Head, Method::Put, Method::Delete, Method::Patch, Method::Other] {
        let res = srv.respond(&method, &CallerValidators::Wildcard, original.clone());
        assert_eq!(res, original);
    }
}

#[test]
fn decide_reports_the_match_outcome() {
    let body = b"abcd".to_vec();
    assert_eq!(decide(&CallerValidators::Absent, &body), Decision::Modified);
    assert_eq!(decide(&CallerValidators::Wildcard, &body), Decision::Unchanged);
    assert_eq!(decide(&tokens(&[ABCD_TOKEN]), &body), Decision::Unchanged);
    assert_eq!(decide(&tokens(&[ABC_TOKEN]), &body), Decision::Modified);
    assert_eq!(decide(&tokens(&[]), &body), Decision::Modified);
    assert_eq!(
        decide(&tokens(&[ABC_TOKEN, ABCD_TOKEN]), &body),
        Decision::Unchanged
    );
}

#[test]
fn size_prefix_is_lowercase_hex() {
    assert_eq!(size_prefix(0).as_str(), "0");
    assert_eq!(size_prefix(3).as_str(), "3");
    assert_eq!(size_prefix(255).as_str(), "ff");
    assert_eq!(size_prefix(15086).as_str(), "3aee");
}

#[test]
fn empty_body_gets_a_regular_token() {
    let token = make_validator(&Vec::new());
    assert!(token.starts_with("W/\"0-"));
    assert!(token.ends_with("==\""));
    assert_eq!(token.len(), 30);
}
