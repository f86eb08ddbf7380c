use nino::crypto::jwt_from_map;
use nino::dispatch::{
    check_authorization, check_cookie, credentials, jwt_to_user, Decoded, Dispatch, RequestInfo,
    RequestManager, RequestRow, ResponseInfo, ResponseManager, ResponseRow, Served, WebManager,
};
use nino::constants::SETTINGS_NINO_LOGIN_PATH_DEFAULT;
use nino::http::{login_redirect, send_response_to_stream};
use nino::settings::setting_str;
use nino::tasks::{JSContext, JSTask, RequestUrl};

fn route(path: &str, name: &str, redirect: bool, authorize: bool) -> RequestRow {
    let execute = name == "echo";
    RequestRow {
        path: path.to_owned(),
        info: RequestInfo {
            name: name.to_owned(),
            mime: if execute { "application/json" } else { "text/plain" }.to_owned(),
            redirect,
            authorize,
            execute,
            dynamic: false,
        },
    }
}

fn response(name: &str, mime: &str, execute: bool) -> ResponseRow {
    ResponseRow {
        name: name.to_owned(),
        info: ResponseInfo { mime: mime.to_owned(), execute, transpile: false },
    }
}

fn tables() -> (RequestManager, ResponseManager) {
    let mut requests = RequestManager::new();
    requests.reload_requests(vec![
        route("a", "a", false, false),
        route("echo", "echo", false, false),
        route("secret", "a", false, true),
        route("admin", "echo", false, true),
        route("old", "/new", true, false),
        route("dangling", "nothing", false, false),
    ]);
    let mut responses = ResponseManager::new(2);
    responses.reload_responses(vec![
        response("a", "text/x-stored", false),
        response("echo", "text/javascript", true),
    ]);
    (requests, responses)
}

fn dispatch(is_get: bool, path: &str, cookies: &[&str], auths: &[&str]) -> Dispatch {
    let (requests, responses) = tables();
    let cookies: Vec<String> = cookies.iter().map(|s| s.to_string()).collect();
    let auths: Vec<String> = auths.iter().map(|s| s.to_string()).collect();
    WebManager::dispatch_request(
        is_get,
        path.to_owned(),
        &requests,
        &responses,
        &cookies,
        &auths,
    )
}

fn token(user: &str) -> String {
    jwt_from_map("nino", vec![("user".to_owned(), user.to_owned())]).unwrap()
}

#[test]
fn static_get_is_served_as_it_is() {
    match dispatch(true, "/a", &[], &[]) {
        Dispatch::Static { request_info, response_info } => {
            assert_eq!(request_info.name, "a");
            assert_eq!(request_info.mime, "text/plain");
            assert!(!response_info.transpile);
            let r = ResponseManager::serve_static(&request_info, b"hi".to_vec());
            assert_eq!(r.status, 200);
            assert_eq!(r.body, b"hi".to_vec());
            let bytes = send_response_to_stream(&r).unwrap();
            assert_eq!(
                bytes,
                b"HTTP/1.1 200 OK\r\ncontent-type: text/plain\r\ncontent-length: 2\r\n\r\nhi"
                    .to_vec()
            );
        }
        other => panic!("unexpected: {:?}", other),
    }
}

#[test]
fn executable_post_runs_its_script() {
    let d = dispatch(false, "/echo", &[], &[]);
    let (request_info, user) = match d {
        Dispatch::Execute { request_info, user, .. } => (request_info, user),
        other => panic!("unexpected: {:?}", other),
    };
    assert_eq!(user, "");
    let url = RequestUrl {
        text: "http://localhost/echo".to_owned(),
        host: Some("localhost".to_owned()),
        path: "/echo".to_owned(),
        query: None,
        pairs: vec![],
    };
    let task = ResponseManager::serve_dynamic(
        "POST".to_owned(),
        "echo".to_owned(),
        url,
        &request_info,
        5,
        user,
        "{}".to_owned(),
    );
    let mut c = JSContext::new();
    assert_eq!(c.begin_task(Some(task)), "echo");
    c.set_response_status(201).unwrap();
    let mut released = c.take_servlet_task().unwrap();
    released.response.set_body(b"{\"x\":1}".to_vec());
    assert_eq!(released.connection, 5);
    let bytes = send_response_to_stream(&released.response).unwrap();
    assert_eq!(
        bytes,
        b"HTTP/1.1 201 Created\r\ncontent-type: application/json\r\ncontent-length: 7\r\n\r\n{\"x\":1}"
            .to_vec()
    );
}

#[test]
fn secret_without_cookie_goes_to_login() {
    assert!(matches!(dispatch(true, "/secret", &[], &[]), Dispatch::Login));
    assert!(matches!(
        dispatch(true, "/secret", &["nino=garbage"], &["Bearer garbage"]),
        Dispatch::Login
    ));
    let login_path = setting_str(None, SETTINGS_NINO_LOGIN_PATH_DEFAULT);
    let r = login_redirect("http://localhost/secret", &login_path).unwrap();
    assert_eq!(r.status, 307);
    assert_eq!(r.headers[0].name, "location");
    assert_eq!(r.headers[0].value, "http://localhost/login");
}

#[test]
fn secret_with_token_is_served() {
    let cookie = format!("theme=dark; nino={}", token("ann"));
    assert!(matches!(dispatch(true, "/secret", &[&cookie], &[]), Dispatch::Static { .. }));
    let bearer = format!("Bearer {}", token("bob"));
    match dispatch(false, "/admin", &[], &[&bearer]) {
        Dispatch::Execute { user, .. } => assert_eq!(user, "bob"),
        other => panic!("unexpected: {:?}", other),
    }
    match dispatch(false, "/admin", &[&cookie], &[&bearer]) {
        Dispatch::Execute { user, .. } => assert_eq!(user, "ann"),
        other => panic!("unexpected: {:?}", other),
    }
}

#[test]
fn open_route_names_no_user() {
    let cookie = format!("nino={}", token("ann"));
    match dispatch(false, "/echo", &[&cookie], &[]) {
        Dispatch::Execute { user, .. } => assert_eq!(user, ""),
        other => panic!("unexpected: {:?}", other),
    }
}

#[test]
fn route_decides_whether_a_script_runs() {
    let mut requests = RequestManager::new();
    let mut plain = route("p", "script", false, false);
    plain.info.execute = false;
    let mut run = route("r", "page", false, false);
    run.info.execute = true;
    requests.reload_requests(vec![plain, run]);
    let mut responses = ResponseManager::new(1);
    responses.reload_responses(vec![response("script", "a/b", true), response("page", "a/b", false)]);
    let none: Vec<String> = Vec::new();
    let d = WebManager::dispatch_request(true, "/p".to_owned(), &requests, &responses, &none, &none);
    assert!(matches!(d, Dispatch::Static { .. }));
    let d = WebManager::dispatch_request(true, "/r".to_owned(), &requests, &responses, &none, &none);
    assert!(matches!(d, Dispatch::Execute { .. }));
}

#[test]
fn other_outcomes() {
    assert!(matches!(dispatch(true, "/missing", &[], &[]), Dispatch::NotFound));
    assert!(matches!(dispatch(true, "/dangling", &[], &[]), Dispatch::NotFound));
    assert!(matches!(dispatch(true, "/old", &[], &[]), Dispatch::Redirect(to) if to == "/new"));
    assert!(matches!(dispatch(false, "/a", &[], &[]), Dispatch::StaticNeedsGet));
}

#[test]
fn path_is_normalized_before_it_is_looked_up() {
    assert!(matches!(dispatch(true, "//A/", &[], &[]), Dispatch::Static { .. }));
    assert!(matches!(dispatch(true, "/./a", &[], &[]), Dispatch::Static { .. }));
    assert!(matches!(dispatch(true, "/a/b", &[], &[]), Dispatch::NotFound));
}

#[test]
fn later_row_counts() {
    let mut requests = RequestManager::new();
    assert!(requests.get_request(&"a".to_owned()).is_none());
    requests.reload_requests(vec![route("a", "one", false, false), route("a", "two", true, true)]);
    let info = requests.get_request(&"a".to_owned()).unwrap();
    assert_eq!((info.name.as_str(), info.redirect, info.authorize), ("two", true, true));
    assert_eq!((info.mime.as_str(), info.execute, info.dynamic), ("text/plain", false, false));
    requests.reload_requests(vec![route("b", "x", false, false)]);
    assert!(requests.get_request(&"a".to_owned()).is_none());
    assert!(requests.get_request(&"b".to_owned()).is_some());
    let mut responses = ResponseManager::new(1);
    responses.reload_responses(vec![response("r", "a/b", false), response("r", "c/d", true)]);
    let info = responses.get_response("r").unwrap();
    assert_eq!((info.mime.as_str(), info.execute, info.transpile), ("c/d", true, false));
    assert!(responses.get_response("R").is_none());
}

#[test]
fn invalidation_reloads_the_routes() {
    assert!(RequestManager::invalidator("request:/a"));
    assert!(!RequestManager::invalidator("response:a"));
    let mut requests = RequestManager::new();
    requests.reload_requests(vec![route("a", "a", false, false)]);
    assert!(!requests.get_request(&"a".to_owned()).unwrap().redirect);
    requests.reload_requests(vec![route("a", "/moved", true, false)]);
    let info = requests.get_request(&"a".to_owned()).unwrap();
    assert!(info.redirect);
    assert_eq!(info.name, "/moved");
}

#[test]
fn responses_pass_every_notification_on() {
    let responses = ResponseManager::new(3);
    let r = responses.invalidator("response:a");
    assert!(r.reload);
    assert_eq!(r.tasks.len(), 3);
    assert!(r.tasks.iter().all(|t| matches!(t, JSTask::Message(m) if m == "response:a")));
    let r = responses.invalidator("unknown");
    assert!(!r.reload);
    assert_eq!(r.tasks.len(), 3);
}

#[test]
fn queries_of_the_tables() {
    assert_eq!(
        RequestManager::reload_query(),
        "SELECT request_path, response_name, request_mime_type, redirect_flag, authorize_flag, execute_flag, dynamic_flag FROM nino_request"
    );
    assert_eq!(
        ResponseManager::reload_query(),
        "SELECT response_name, response_mime_type, execute_flag, transpile_flag FROM nino_response"
    );
    assert_eq!(
        ResponseManager::get_response_bytes(),
        "SELECT response_content FROM nino_response WHERE response_name = $1"
    );
    assert_eq!(
        ResponseManager::get_response_javascript(),
        "SELECT (CASE WHEN transpile_flag THEN javascript ELSE response_content END) FROM nino_response WHERE response_name = $1"
    );
    assert_eq!(
        RequestManager::point_query(),
        "SELECT response_name, request_mime_type, redirect_flag, authorize_flag, execute_flag, dynamic_flag FROM nino_request WHERE request_path = $1"
    );
    assert_eq!(
        ResponseManager::point_query(),
        "SELECT response_mime_type, execute_flag, transpile_flag FROM nino_response WHERE response_name = $1"
    );
    assert_eq!(ResponseManager::content_of("a", Some(vec![1])), Ok(vec![1]));
    assert_eq!(
        ResponseManager::content_of("a", None),
        Err("response 'a' does not exist in database".to_owned())
    );
}

#[test]
fn tokens_of_the_headers() {
    let cookies = vec![
        "a=b; nino=one ;nino=two".to_owned(),
        " nino=three".to_owned(),
        "xnino=four; NINO=five; nino =six".to_owned(),
        "nino=".to_owned(),
    ];
    let auths = vec![
        "Bearer  seven ".to_owned(),
        "bearer eight".to_owned(),
        "Basic nine".to_owned(),
        "Bearer ".to_owned(),
    ];
    assert_eq!(
        credentials(&cookies, &auths),
        vec![
            "one".to_owned(),
            "two".to_owned(),
            "three".to_owned(),
            String::new(),
            "seven".to_owned(),
            String::new()
        ]
    );
    assert!(credentials(&vec![], &vec![]).is_empty());
}

#[test]
fn token_names_the_user() {
    let mut user = "before".to_owned();
    assert!(!jwt_to_user("garbage", &mut user));
    assert_eq!(user, "before");
    assert!(jwt_to_user(&token("ann"), &mut user));
    assert_eq!(user, "ann");
    let anonymous = jwt_from_map("nino", vec![("role".to_owned(), "x".to_owned())]).unwrap();
    assert!(jwt_to_user(&anonymous, &mut user));
    assert_eq!(user, "ann");
    let foreign = jwt_from_map("other", vec![("user".to_owned(), "eve".to_owned())]).unwrap();
    assert!(!jwt_to_user(&foreign, &mut user));
    assert_eq!(user, "ann");
}

#[test]
fn first_valid_token_settles_it() {
    let mut user = String::new();
    let cookies = vec![format!("nino=bad; nino={}; nino={}", token("ann"), token("bob"))];
    assert!(check_authorization(&cookies, &vec![], &mut user));
    assert_eq!(user, "ann");
    let mut user = "x".to_owned();
    assert!(!check_authorization(&vec!["nino=bad".to_owned()], &vec![], &mut user));
    assert_eq!(user, "x");
    assert!(!check_cookie(&vec!["nino=bad".to_owned()], &mut user));
    assert!(check_cookie(&cookies, &mut user));
    assert_eq!(user, "ann");
}

#[test]
fn connection_without_request_is_closed() {
    assert_eq!(WebManager::serve_request(Decoded::Request), Served::Dispatch);
    assert_eq!(WebManager::serve_request(Decoded::TimedOut), Served::Close);
    assert_eq!(WebManager::serve_request(Decoded::Malformed), Served::Close);
    assert_eq!(WebManager::serve_request(Decoded::Closed), Served::Close);
}

#[test]
fn web_settings() {
    let w = WebManager::new(8080, 30000);
    assert_eq!((w.port, w.request_timeout_ms), (8080, 30000));
    let w = WebManager::new(65536 + 80, -1);
    assert_eq!((w.port, w.request_timeout_ms), (80, u32::MAX));
}

#[test]
fn content_types_are_read_as_media_types() {
    let info = ResponseInfo::from_row("Text/HTML; Charset=UTF-8", true, false).unwrap();
    assert_eq!(info.mime, "text/html;charset=UTF-8");
    assert!(info.execute && !info.transpile);
    let info = ResponseInfo::from_row("application/json", false, true).unwrap();
    assert_eq!(info.mime, "application/json");
    assert!(ResponseInfo::from_row("no media type", false, false).is_none());
    assert!(ResponseInfo::from_row("", false, false).is_none());
    let route =
        RequestInfo::from_row("a".to_owned(), "text/plain; a=b", false, true, false, true).unwrap();
    assert_eq!(route.name, "a");
    assert_eq!(route.mime, "text/plain;a=b");
    assert_eq!(
        (route.redirect, route.authorize, route.execute, route.dynamic),
        (false, true, false, true)
    );
    assert!(RequestInfo::from_row("a".to_owned(), "/", false, false, false, false).is_none());
}
