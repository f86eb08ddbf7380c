use nino::http::ResponseDraft;
use nino::request::{group_pairs, post_pairs};
use nino::tasks::{message_tasks, DBLogger, JSContext, JSTask, RequestUrl, ServletTask, TaskError};

fn servlet(connection: u64) -> ServletTask {
    ServletTask {
        method: "POST".to_owned(),
        request_path: "echo".to_owned(),
        js_module: "echo".to_owned(),
        url: RequestUrl {
            text: "http://localhost/echo?a=1&b=2&a=3".to_owned(),
            host: Some("localhost".to_owned()),
            path: "/echo".to_owned(),
            query: Some("a=1&b=2&a=3".to_owned()),
            pairs: vec![
                ("a".to_owned(), "1".to_owned()),
                ("b".to_owned(), "2".to_owned()),
                ("a".to_owned(), "3".to_owned()),
            ],
        },
        user: "ann".to_owned(),
        body: "x=1&y=a%20b&x=2".to_owned(),
        response: ResponseDraft::new(200),
        connection,
    }
}

#[test]
fn begin_task_names_the_module() {
    let mut c = JSContext::new();
    assert_eq!(c.begin_task(Some(JSTask::Servlet(servlet(1)))), "echo");
    assert!(matches!(c.task, Some(JSTask::Servlet(_))));
    assert_eq!(c.begin_task(Some(JSTask::Message("m".to_owned()))), "");
    assert!(matches!(c.task, Some(JSTask::Message(_))));
    assert_eq!(c.begin_task(None), "");
    assert!(c.task.is_none());
}

#[test]
fn end_task_releases_the_connection_once() {
    let mut c = JSContext::new();
    c.begin_task(Some(JSTask::Servlet(servlet(7))));
    let released = c.end_task().unwrap();
    assert_eq!(released.connection, 7);
    assert!(c.end_task().is_none());
    assert!(matches!(c.take_servlet_task(), Err(TaskError::AlreadyClosed)));
}

#[test]
fn take_releases_the_connection_once() {
    let mut c = JSContext::new();
    c.begin_task(Some(JSTask::Servlet(servlet(8))));
    assert_eq!(c.take_servlet_task().unwrap().connection, 8);
    assert!(matches!(c.take_servlet_task(), Err(TaskError::AlreadyClosed)));
    assert!(c.end_task().is_none());
}

#[test]
fn message_task_releases_nothing() {
    let mut c = JSContext::new();
    c.begin_task(Some(JSTask::Message("m".to_owned())));
    assert!(c.end_task().is_none());
    assert!(c.task.is_none());
    c.begin_task(Some(JSTask::Message("m".to_owned())));
    assert!(matches!(c.take_servlet_task(), Err(TaskError::NotARequest)));
    assert!(c.task.is_none());
}

#[test]
fn request_body_and_message() {
    let mut c = JSContext::new();
    assert!(matches!(c.get_request_body(), Err(TaskError::NoCurrentTask)));
    assert_eq!(c.get_invalidation_message(), "");
    c.begin_task(Some(JSTask::Servlet(servlet(1))));
    assert_eq!(c.get_request_body().unwrap(), "x=1&y=a%20b&x=2");
    assert_eq!(c.get_invalidation_message(), "");
    c.begin_task(Some(JSTask::Message("request:/a".to_owned())));
    assert!(matches!(c.get_request_body(), Err(TaskError::NotARequest)));
    assert_eq!(c.get_invalidation_message(), "request:/a");
}

#[test]
fn status_and_headers_go_to_the_pending_response() {
    let mut c = JSContext::new();
    assert!(matches!(c.set_response_status(201), Err(TaskError::NoCurrentTask)));
    assert!(matches!(c.set_response_header("a", "b"), Err(TaskError::NoCurrentTask)));
    c.begin_task(Some(JSTask::Message("m".to_owned())));
    assert!(matches!(c.set_response_status(201), Err(TaskError::NotARequest)));
    assert!(matches!(c.set_response_header("a", "b"), Err(TaskError::NotARequest)));
    c.begin_task(Some(JSTask::Servlet(servlet(3))));
    assert!(c.set_response_status(201).is_ok());
    assert!(matches!(c.set_response_status(299), Err(TaskError::InvalidStatus)));
    assert!(c.set_response_header("X-One", "1").is_ok());
    assert!(matches!(c.set_response_header("x", "\u{e9}"), Err(TaskError::InvalidHeader)));
    let released = c.end_task().unwrap();
    assert_eq!(released.connection, 3);
    assert_eq!(released.response.status, 201);
    assert_eq!(released.response.headers.len(), 1);
    assert_eq!(released.response.headers[0].name, "x-one");
    assert_eq!(released.response.headers[0].value, "1");
}

#[test]
fn broadcasts_go_out_on_commit_alone() {
    let mut c = JSContext::new();
    c.broadcast_message("one".to_owned());
    c.broadcast_message("two".to_owned());
    assert_eq!(c.a_broadcast_message(true), vec!["one".to_owned(), "two".to_owned()]);
    assert!(c.a_broadcast_message(true).is_empty());
    c.broadcast_message("three".to_owned());
    assert!(c.a_broadcast_message(false).is_empty());
    assert!(c.broadcast_messages.is_empty());
    assert!(c.a_broadcast_message(true).is_empty());
}

#[test]
fn log_rows() {
    let mut c = JSContext::new();
    assert!(matches!(c.log_info("t".to_owned()), Err(TaskError::AlreadyClosed)));
    c.begin_task(Some(JSTask::Servlet(servlet(1))));
    let log = c.log_info("text".to_owned()).unwrap();
    assert_eq!(
        (log.method.as_str(), log.request.as_str(), log.response.as_str(), log.message.as_str()),
        ("POST", "echo", "echo", "text")
    );
    c.begin_task(Some(JSTask::Message("request:/a".to_owned())));
    let log = c.log_info("text".to_owned()).unwrap();
    assert_eq!(
        (log.method.as_str(), log.request.as_str(), log.response.as_str(), log.message.as_str()),
        ("MESSAGE", "request:/a", "", "text")
    );
    assert_eq!(
        DBLogger::statement(),
        "INSERT INTO nino_log (method, request, response, log_message) VALUES ($1, $2, $3, $4)"
    );
}

#[test]
fn error_texts() {
    assert_eq!(TaskError::NoCurrentTask.message(), "no current task");
    assert_eq!(TaskError::NotARequest.message(), "task is not a request");
    assert_eq!(TaskError::AlreadyClosed.message(), "task already closed");
    assert_eq!(TaskError::InvalidStatus.message(), "invalid status code");
    assert_eq!(TaskError::InvalidHeader.message(), "invalid header");
}

#[test]
fn one_message_task_for_each_isolate() {
    let tasks = message_tasks("request:/a", 3);
    assert_eq!(tasks.len(), 3);
    assert!(tasks.iter().all(|t| matches!(t, JSTask::Message(m) if m == "request:/a")));
    assert!(message_tasks("x", 0).is_empty());
}

#[test]
fn request_as_the_script_sees_it() {
    let mut c = JSContext::new();
    assert!(matches!(c.get_request(), Err(TaskError::NoCurrentTask)));
    c.begin_task(Some(JSTask::Message("m".to_owned())));
    assert!(matches!(c.get_request(), Err(TaskError::NotARequest)));
    c.begin_task(Some(JSTask::Servlet(servlet(1))));
    let r = c.get_request().unwrap();
    assert_eq!(r.original_url, "http://localhost/echo?a=1&b=2&a=3");
    assert_eq!(r.method, "POST");
    assert_eq!(r.host, "localhost");
    assert_eq!(r.path, "/echo");
    assert_eq!(r.query, "a=1&b=2&a=3");
    assert_eq!(r.user, "ann");
    assert_eq!(r.parameters.len(), 2);
    assert_eq!(r.parameters[0].name, "a");
    assert_eq!(r.parameters[0].values, vec!["1".to_owned(), "3".to_owned()]);
    assert_eq!(r.parameters[1].name, "b");
    assert_eq!(r.parameters[1].values, vec!["2".to_owned()]);
    assert_eq!(r.post_parameters.len(), 2);
    assert_eq!(r.post_parameters[0].name, "x");
    assert_eq!(r.post_parameters[0].values, vec!["1".to_owned(), "2".to_owned()]);
    assert_eq!(r.post_parameters[1].name, "y");
    assert_eq!(r.post_parameters[1].values, vec!["a b".to_owned()]);
}

#[test]
fn body_with_white_space_is_no_form() {
    assert!(post_pairs("a=1 b=2").is_empty());
    assert!(post_pairs("{\"x\": 1}").is_empty());
    assert!(post_pairs("a=1\tb").is_empty());
    assert!(post_pairs("a=1\nb=2").is_empty());
    assert!(post_pairs("a=1\u{a0}").is_empty());
    assert!(post_pairs("").is_empty());
    assert_eq!(post_pairs("a=1"), vec![("a".to_owned(), "1".to_owned())]);
    assert_eq!(post_pairs("a=%41+b"), vec![("a".to_owned(), "A b".to_owned())]);
    assert_eq!(
        post_pairs("{\"x\":1}"),
        vec![("{\"x\":1}".to_owned(), String::new())]
    );
}

#[test]
fn pairs_are_grouped_by_name() {
    assert!(group_pairs(&vec![]).is_empty());
    let pairs = vec![
        ("b".to_owned(), "1".to_owned()),
        ("a".to_owned(), "2".to_owned()),
        ("b".to_owned(), "3".to_owned()),
        ("b".to_owned(), "1".to_owned()),
    ];
    let g = group_pairs(&pairs);
    assert_eq!(g.len(), 2);
    assert_eq!(g[0].name, "b");
    assert_eq!(g[0].values, vec!["1".to_owned(), "3".to_owned(), "1".to_owned()]);
    assert_eq!(g[1].name, "a");
    assert_eq!(g[1].values, vec!["2".to_owned()]);
}
