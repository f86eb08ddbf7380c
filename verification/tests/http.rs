use nino::http::{
    bytes_of, find_header, login_redirect, response_307_redirect, response_404,
    send_request_to_stream, send_response_to_stream, Header, ResponseDraft,
};

fn header(name: &str, value: &str) -> Header {
    Header { name: name.to_owned(), value: value.to_owned() }
}

fn names(r: &ResponseDraft) -> Vec<(String, String)> {
    r.headers.iter().map(|h| (h.name.clone(), h.value.clone())).collect()
}

#[test]
fn head_of_an_empty_ok() {
    let r = ResponseDraft::new(200);
    assert_eq!(r.head().unwrap(), "HTTP/1.1 200 OK\r\ncontent-length: 0\r\n\r\n");
}

#[test]
fn head_names_the_reason_of_the_status() {
    assert!(ResponseDraft::new(404).head().unwrap().starts_with("HTTP/1.1 404 Not Found\r\n"));
    assert!(ResponseDraft::new(201).head().unwrap().starts_with("HTTP/1.1 201 Created\r\n"));
    assert!(ResponseDraft::new(307)
        .head()
        .unwrap()
        .starts_with("HTTP/1.1 307 Temporary Redirect\r\n"));
}

#[test]
fn unknown_status_has_no_head() {
    assert!(ResponseDraft::new(299).head().is_none());
    assert!(ResponseDraft::new(0).head().is_none());
    assert!(!ResponseDraft::new(600).has_known_status());
    assert!(ResponseDraft::new(418).has_known_status());
    assert!(send_response_to_stream(&ResponseDraft::new(299)).is_none());
}

#[test]
fn set_header_replaces_without_regard_to_case() {
    let mut r = ResponseDraft::new(200);
    assert!(r.set_header("Content-Type", "text/plain"));
    assert!(r.set_header("X-A", "1"));
    assert!(r.set_header("content-type", "text/html"));
    assert_eq!(
        names(&r),
        vec![
            ("x-a".to_owned(), "1".to_owned()),
            ("content-type".to_owned(), "text/html".to_owned())
        ]
    );
}

#[test]
fn set_header_turns_down_what_is_not_ascii() {
    let mut r = ResponseDraft::new(200);
    assert!(!r.set_header("x-\u{e9}", "1"));
    assert!(!r.set_header("x", "\u{e9}"));
    assert!(r.headers.is_empty());
}

#[test]
fn response_bytes_are_head_and_body() {
    let mut r = ResponseDraft::new(200);
    r.set_header("content-type", "text/plain");
    r.set_body(b"hi".to_vec());
    let bytes = send_response_to_stream(&r).unwrap();
    assert_eq!(
        bytes,
        b"HTTP/1.1 200 OK\r\ncontent-type: text/plain\r\ncontent-length: 2\r\n\r\nhi".to_vec()
    );
}

#[test]
fn given_content_length_is_kept() {
    let mut r = ResponseDraft::new(200);
    r.set_header("Content-Length", "5");
    r.set_body(b"hi".to_vec());
    assert_eq!(r.head().unwrap(), "HTTP/1.1 200 OK\r\ncontent-length: 5\r\n\r\n");
}

#[test]
fn not_found_names_the_address() {
    let r = response_404("http://h/x");
    assert_eq!(r.status, 404);
    assert_eq!(r.body, b"url not found: http://h/x ".to_vec());
    assert_eq!(
        names(&r),
        vec![("content-type".to_owned(), "text/plain;charset=utf-8".to_owned())]
    );
}

#[test]
fn redirect_is_temporary() {
    let r = response_307_redirect("/login");
    assert_eq!(r.status, 307);
    assert_eq!(names(&r), vec![("location".to_owned(), "/login".to_owned())]);
    assert!(r.body.is_empty());
    assert_eq!(
        r.head().unwrap(),
        "HTTP/1.1 307 Temporary Redirect\r\nlocation: /login\r\ncontent-length: 0\r\n\r\n"
    );
}

#[test]
fn passed_on_head_keeps_the_headers() {
    let headers = vec![header("a", "1"), header("b", "2")];
    assert_eq!(
        send_request_to_stream("200 OK", Some("OK"), &headers).unwrap(),
        "HTTP/1.1 200 OK OK\r\na: 1\r\nb: 2\r\n\r\n"
    );
    assert_eq!(
        send_request_to_stream("204", Some("No Content"), &vec![]).unwrap(),
        "HTTP/1.1 204 No Content\r\n\r\n"
    );
    assert_eq!(
        send_request_to_stream("799 <unknown status code>", None, &headers).unwrap_err(),
        "cannot resolve status to canonical reason:799 <unknown status code>"
    );
}

#[test]
fn login_redirect_keeps_the_rest_of_the_address() {
    let r = login_redirect("http://localhost:8080/secret?x=1#top", "/login").unwrap();
    assert_eq!(r.status, 307);
    assert_eq!(
        names(&r),
        vec![("location".to_owned(), "http://localhost:8080/login?x=1#top".to_owned())]
    );
    assert!(r.body.is_empty());
    let r = login_redirect("http://h/a/b", "sign in").unwrap();
    assert_eq!(r.headers[0].value, "http://h/sign%20in");
    assert!(login_redirect("/secret", "/login").is_none());
    assert!(login_redirect("", "/login").is_none());
}

#[test]
fn header_names_are_kept_in_lowercase() {
    let mut r = ResponseDraft::new(200);
    assert!(r.set_header("X-Mixed-CASE", "Value Stays"));
    assert!(r.set_header("", ""));
    assert_eq!(
        names(&r),
        vec![
            ("x-mixed-case".to_owned(), "Value Stays".to_owned()),
            (String::new(), String::new())
        ]
    );
}

#[test]
fn header_search_and_bytes() {
    let headers = vec![header("a", "1")];
    assert!(find_header(&headers, &vec!['a']));
    assert!(!find_header(&headers, &vec!['A']));
    assert_eq!(bytes_of("h\u{e9}"), vec![b'h', 0xc3, 0xa9]);
}

#[test]
fn status_is_set() {
    let mut r = ResponseDraft::new(200);
    r.set_status(201);
    assert_eq!(r.status, 201);
}
