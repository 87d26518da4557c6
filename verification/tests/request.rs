use mpk_rs::request::{Param, RequestDescriptor};
use mpk_rs::text::{join, same_text};

fn param(key: &str, value: &str) -> Param {
    Param { key: key.to_string(), value: value.to_string() }
}

#[test]
fn an_address_is_the_host_a_slash_and_the_path() {
    assert_eq!(RequestDescriptor::address("https://h:1", "a/b"), "https://h:1/a/b");
    assert_eq!(RequestDescriptor::address("", ""), "/");
}

#[test]
fn a_request_to_one_host_has_one_url() {
    let r = RequestDescriptor::single("https://h".to_string(), "p".to_string(), Vec::new());
    assert_eq!(r.hosts, vec!["https://h".to_string()]);
    assert_eq!(r.path, "p");
    assert!(r.params.is_empty());
    assert_eq!(r.urls(), vec![Some("https://h/p".to_string())]);
}

#[test]
fn parameters_keep_their_order_and_their_repeats() {
    let r = RequestDescriptor::single(
        "https://h:8088".to_string(),
        "mobile".to_string(),
        vec![param("b", "2"), param("a", "1"), param("b", "3 4"), param("c", "ż&=")],
    );
    assert_eq!(
        r.urls(),
        vec![Some("https://h:8088/mobile?b=2&a=1&b=3+4&c=%C5%BC%26%3D".to_string())]
    );
}

#[test]
fn every_host_gets_its_own_url() {
    let r = RequestDescriptor {
        hosts: vec!["http://a".to_string(), "http://b:81".to_string()],
        path: "x".to_string(),
        params: vec![param("k", "v")],
    };
    assert_eq!(
        r.urls(),
        vec![Some("http://a/x?k=v".to_string()), Some("http://b:81/x?k=v".to_string())]
    );
    let none = RequestDescriptor { hosts: Vec::new(), path: "x".to_string(), params: Vec::new() };
    assert!(none.urls().is_empty());
}

#[test]
fn an_address_that_is_no_url_has_none() {
    let r = RequestDescriptor {
        hosts: vec!["no scheme".to_string(), "http://ok".to_string()],
        path: "x".to_string(),
        params: vec![param("k", "v")],
    };
    assert_eq!(r.urls(), vec![None, Some("http://ok/x?k=v".to_string())]);
}

#[test]
fn texts_are_compared_by_their_characters() {
    assert!(same_text("", ""));
    assert!(same_text("stackTrace", "stackTrace"));
    assert!(!same_text("stackTrace", "stacktrace"));
    assert!(!same_text("a", "ab"));
    assert!(!same_text("ab", "a"));
    assert!(same_text("\u{17c}\u{1f600}", "\u{17c}\u{1f600}"));
    assert!(!same_text("\u{17c}", "\u{17b}"));
}

#[test]
fn texts_are_joined() {
    assert_eq!(join(&Vec::new(), ","), "");
    assert_eq!(join(&vec!["a".to_string()], ","), "a");
    assert_eq!(join(&vec!["a".to_string(), "".to_string(), "c".to_string()], ", "), "a, , c");
}
