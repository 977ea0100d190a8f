use ephemeral_proxy::proxy::headers::{filter_headers, is_ignored_header, names_match, Header};

fn header(name: &str, value: &[u8]) -> Header {
    Header { name: name.to_string(), value: value.to_vec() }
}

fn deny_list() -> Vec<String> {
    vec!["content-length".to_string(), "content-encoding".to_string()]
}

#[test]
fn equal_names_match() {
    assert!(names_match("content-length", "content-length"));
    assert!(names_match("", ""));
}

#[test]
fn names_match_without_regard_to_case() {
    assert!(names_match("Content-Length", "content-length"));
    assert!(names_match("content-length", "CONTENT-LENGTH"));
    assert!(names_match("cOnTeNt-EnCoDiNg", "CoNtEnT-eNcOdInG"));
}

#[test]
fn names_of_different_length_do_not_match() {
    assert!(!names_match("content-length", "content-lengt"));
    assert!(!names_match("content-length", "content-length "));
    assert!(!names_match("", "a"));
    assert!(!names_match("a", ""));
}

#[test]
fn different_names_do_not_match() {
    assert!(!names_match("content-length", "content-lengtg"));
    assert!(!names_match("xontent-length", "content-length"));
}

#[test]
fn only_letters_are_folded() {
    assert!(!names_match("@", "`"));
    assert!(!names_match("[", "{"));
    assert!(!names_match("-", "\r"));
    assert!(names_match("A", "a"));
    assert!(names_match("Z", "z"));
}

#[test]
fn letters_outside_ascii_are_not_folded() {
    assert!(!names_match("É", "é"));
    assert!(!names_match("K", "\u{212a}"));
    assert!(names_match("é", "é"));
}

#[test]
fn deny_list_is_searched_whole() {
    let ignored = deny_list();
    assert!(is_ignored_header("content-length", &ignored));
    assert!(is_ignored_header("Content-Encoding", &ignored));
    assert!(!is_ignored_header("content-type", &ignored));
    assert!(!is_ignored_header("", &ignored));
}

#[test]
fn empty_deny_list_holds_nothing_back() {
    assert!(!is_ignored_header("content-length", &Vec::new()));
    let headers = vec![header("content-length", b"3"), header("content-encoding", b"gzip")];
    assert_eq!(filter_headers(headers.clone(), &Vec::new()), headers);
}

#[test]
fn deny_list_entries_match_without_regard_to_case() {
    let ignored = vec!["Set-Cookie".to_string()];
    assert!(is_ignored_header("set-cookie", &ignored));
    assert!(is_ignored_header("SET-COOKIE", &ignored));
}

#[test]
fn held_back_headers_are_dropped_and_order_is_kept() {
    let headers = vec![
        header("content-type", b"text/plain"),
        header("content-length", b"2"),
        header("x-one", b"1"),
        header("Content-Encoding", b"gzip"),
        header("x-two", b"2"),
    ];
    assert_eq!(
        filter_headers(headers, &deny_list()),
        vec![header("content-type", b"text/plain"), header("x-one", b"1"), header("x-two", b"2")]
    );
}

#[test]
fn repeated_headers_are_all_kept() {
    let headers = vec![
        header("set-cookie", b"a=1"),
        header("set-cookie", b"b=2"),
        header("content-length", b"0"),
        header("content-length", b"0"),
    ];
    assert_eq!(
        filter_headers(headers, &deny_list()),
        vec![header("set-cookie", b"a=1"), header("set-cookie", b"b=2")]
    );
}

#[test]
fn values_are_passed_on_untouched() {
    let headers = vec![header("x-raw", b"\xff\x00 content-length")];
    assert_eq!(filter_headers(headers.clone(), &deny_list()), headers);
}

#[test]
fn no_headers_in_no_headers_out() {
    assert_eq!(filter_headers(Vec::new(), &deny_list()), Vec::new());
}

#[test]
fn all_headers_held_back() {
    let headers = vec![header("content-length", b"1"), header("CONTENT-ENCODING", b"br")];
    assert_eq!(filter_headers(headers, &deny_list()), Vec::new());
}
