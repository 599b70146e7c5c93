use http::header::{HeaderName, CONTENT_ENCODING, CONTENT_LENGTH, CONTENT_TYPE};
use http::{HeaderMap, HeaderValue};
use tower_livereload::headers::{content_type_starts_with, is_encoded, read_declared_length};

fn headers(pairs: &[(&str, &[u8])]) -> HeaderMap {
    let mut map = HeaderMap::new();
    for (name, value) in pairs {
        map.append(
            HeaderName::from_bytes(name.as_bytes()).unwrap(),
            HeaderValue::from_bytes(value).unwrap(),
        );
    }
    map
}

#[test]
fn names_are_the_ones_of_the_http_crate() {
    assert_eq!(tower_livereload::headers::CONTENT_ENCODING, CONTENT_ENCODING.as_str());
    assert_eq!(tower_livereload::headers::CONTENT_LENGTH, CONTENT_LENGTH.as_str());
    assert_eq!(tower_livereload::headers::CONTENT_TYPE, CONTENT_TYPE.as_str());
}

#[test]
fn is_encoded_looks_for_the_header_only() {
    assert!(!is_encoded(&headers(&[])));
    assert!(!is_encoded(&headers(&[("content-type", b"text/html")])));
    assert!(is_encoded(&headers(&[("content-encoding", b"gzip")])));
    assert!(is_encoded(&headers(&[("Content-Encoding", b"identity")])));
    assert!(is_encoded(&headers(&[("content-encoding", b"")])));
}

#[test]
fn declared_length_reads_the_first_value() {
    assert_eq!(read_declared_length(&headers(&[])), None);
    assert_eq!(read_declared_length(&headers(&[("content-length", b"9")])), Some(9));
    assert_eq!(read_declared_length(&headers(&[("Content-Length", b"+12")])), Some(12));
    assert_eq!(
        read_declared_length(&headers(&[("content-length", b"9"), ("content-length", b"10")])),
        Some(9)
    );
    assert_eq!(
        read_declared_length(&headers(&[("content-length", b"x"), ("content-length", b"10")])),
        None
    );
}

#[test]
fn declared_length_refuses_what_is_no_length() {
    assert_eq!(read_declared_length(&headers(&[("content-length", b"")])), None);
    assert_eq!(read_declared_length(&headers(&[("content-length", b" 9")])), None);
    assert_eq!(read_declared_length(&headers(&[("content-length", b"9\xff")])), None);
    assert_eq!(read_declared_length(&headers(&[("content-length", b"-1")])), None);
    assert_eq!(
        read_declared_length(&headers(&[("content-length", b"99999999999999999999999999")])),
        None
    );
}

#[test]
fn content_type_is_compared_by_prefix() {
    let html = headers(&[("content-type", b"text/html; charset=utf-8")]);
    assert!(content_type_starts_with(&html, "text/html"));
    assert!(content_type_starts_with(&html, "text/"));
    assert!(content_type_starts_with(&html, ""));
    assert!(!content_type_starts_with(&html, "text/plain"));
    assert!(!content_type_starts_with(&html, "TEXT/HTML"));
    assert!(!content_type_starts_with(&headers(&[]), "text/html"));
    assert!(!content_type_starts_with(&headers(&[]), ""));
}

#[test]
fn content_type_that_is_no_text_never_matches() {
    let opaque = headers(&[("content-type", b"text/html\xff")]);
    assert!(!content_type_starts_with(&opaque, "text/html"));
    assert!(!content_type_starts_with(&opaque, ""));
}

#[test]
fn content_type_takes_the_first_value() {
    let two = headers(&[("content-type", b"text/plain"), ("content-type", b"text/html")]);
    assert!(content_type_starts_with(&two, "text/plain"));
    assert!(!content_type_starts_with(&two, "text/html"));
}
