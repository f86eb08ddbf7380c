use nino::query::{
    QueryData, QueryResult, TransactionRequest, TransactionResponse, TransactionSessionRequest,
    TransactionSessionResponse,
};
use nino::session::{
    are_alias_rows, error_response, query_reply, upsert_reply, SessionError, SessionStep,
    SupportedDatabases, TransactionsThread,
};

fn row(alias: &str, kind: &str, cs: &str) -> Vec<String> {
    vec![alias.to_owned(), kind.to_owned(), cs.to_owned()]
}

fn session_with(rows: Vec<Vec<String>>) -> TransactionsThread {
    let mut s = TransactionsThread::new("db://main".to_owned());
    assert!(are_alias_rows(&rows));
    s.reload_db_aliases(&rows);
    s
}

#[test]
fn fresh_session_has_main_open() {
    let s = TransactionsThread::new("db://main".to_owned());
    assert!(s.is_open("_main"));
    assert!(!s.is_open("x"));
    assert_eq!(s.main_connection_string(), "db://main");
}

#[test]
fn reload_query_reads_the_alias_table_on_main() {
    let q = TransactionsThread::reload_query();
    assert_eq!(q.db_alias, "_main");
    assert_eq!(
        q.query,
        "SELECT db_alias, db_type, db_connection_string FROM nino_database"
    );
    assert!(q.params.is_empty());
}

#[test]
fn unknown_alias_is_not_found() {
    let mut s = TransactionsThread::new("db://main".to_owned());
    match s.db_create_alias("x".to_owned()) {
        Err(SessionError::AliasNotFound(a)) => assert_eq!(a, "x"),
        other => panic!("unexpected: {:?}", other),
    }
    assert_eq!(
        SessionError::AliasNotFound("x".to_owned()).message(),
        "db alias not found : x"
    );
}

#[test]
fn unsupported_kind_is_turned_down() {
    let mut s = session_with(vec![row("ora", "oracle", "db://ora")]);
    match s.db_create_alias("ora".to_owned()) {
        Err(SessionError::UnsupportedDatabase(t)) => assert_eq!(t, "oracle"),
        other => panic!("unexpected: {:?}", other),
    }
    assert!(!s.is_open("ora"));
    assert_eq!(
        SessionError::UnsupportedDatabase("oracle".to_owned()).message(),
        "unsupported database type oracle"
    );
}

#[test]
fn alias_asked_twice_gets_two_names() {
    let mut s = session_with(vec![row("x", "postgres", "db://x")]);
    let first = s.db_create_alias("x".to_owned()).unwrap();
    assert_eq!(first.name, "x");
    assert_eq!(first.connect.as_deref(), Some("db://x"));
    let second = s.db_create_alias("x".to_owned()).unwrap();
    assert_eq!(second.name, "x_1");
    assert_eq!(second.connect.as_deref(), Some("db://x"));
    let third = s.db_create_alias("x".to_owned()).unwrap();
    assert_eq!(third.name, "x_2");
    assert!(s.is_open("x") && s.is_open("x_1") && s.is_open("x_2"));
}

#[test]
fn main_asked_twice_gets_two_names() {
    let mut s = TransactionsThread::new("db://main".to_owned());
    let first = s.db_create_alias("_main".to_owned()).unwrap();
    assert_eq!(first.name, "_main");
    assert!(first.connect.is_none());
    let second = s.db_create_alias("_main".to_owned()).unwrap();
    assert_eq!(second.name, "_main_1");
    assert_eq!(second.connect.as_deref(), Some("db://main"));
}

#[test]
fn made_up_name_can_meet_a_real_alias() {
    let mut s = session_with(vec![
        row("x", "postgres", "db://x"),
        row("x_2", "postgres", "db://x2"),
    ]);
    assert_eq!(s.db_create_alias("x".to_owned()).unwrap().name, "x");
    assert_eq!(s.db_create_alias("x_2".to_owned()).unwrap().name, "x_2");
    assert_eq!(s.db_create_alias("x".to_owned()).unwrap().name, "x_2");
    assert_eq!(s.db_create_alias("x".to_owned()).unwrap().name, "x_2");
}

#[test]
fn close_after_reload_leaves_main_alone() {
    let mut s = session_with(vec![row("x", "postgres", "db://x")]);
    s.db_create_alias("x".to_owned()).unwrap();
    s.db_create_alias("_main".to_owned()).unwrap();
    let plan = s.close_transactions(true);
    assert!(plan.commit);
    assert_eq!(plan.finish, vec!["_main".to_owned(), "x".to_owned()]);
    assert_eq!(plan.dropped, vec!["_main".to_owned(), "x".to_owned()]);
    assert_eq!(plan.reopen_main.as_deref(), Some("db://main"));
    assert!(s.is_open("_main"));
    assert!(!s.is_open("x"));
    assert_eq!(s.db_create_alias("x".to_owned()).unwrap().name, "x");
}

#[test]
fn close_without_reload_keeps_main_worker() {
    let mut s = TransactionsThread::new("db://main".to_owned());
    s.db_create_alias("_main".to_owned()).unwrap();
    s.db_create_alias("_main".to_owned()).unwrap();
    assert!(s.is_open("_main_1"));
    let plan = s.close_transactions(false);
    assert!(!plan.commit);
    assert_eq!(plan.finish, vec!["_main".to_owned(), "_main_1".to_owned()]);
    assert_eq!(plan.dropped, vec!["_main_1".to_owned()]);
    assert!(plan.reopen_main.is_none());
    assert!(s.is_open("_main"));
    assert!(!s.is_open("_main_1"));
    assert_eq!(s.db_create_alias("_main".to_owned()).unwrap().name, "_main");
}

#[test]
fn reload_keeps_main_and_takes_the_later_row() {
    let mut s = session_with(vec![
        row("_main", "oracle", "db://other"),
        row("x", "oracle", "db://old"),
        row("x", "postgres", "db://new"),
    ]);
    let main = s.db_create_alias("_main".to_owned()).unwrap();
    assert!(main.connect.is_none());
    let x = s.db_create_alias("x".to_owned()).unwrap();
    assert_eq!(x.connect.as_deref(), Some("db://new"));
}

#[test]
fn short_rows_are_no_alias_rows() {
    assert!(are_alias_rows(&vec![]));
    assert!(are_alias_rows(&vec![row("a", "b", "c")]));
    assert!(!are_alias_rows(&vec![vec!["a".to_owned(), "b".to_owned()]]));
}

#[test]
fn kind_tags() {
    assert!(matches!(
        SupportedDatabases::from_tag("postgres".to_owned()),
        SupportedDatabases::Postgres
    ));
    assert_eq!(SupportedDatabases::Postgres.tag(), "postgres");
    let other = SupportedDatabases::from_tag("Postgres".to_owned());
    assert!(matches!(other, SupportedDatabases::Unsupported(_)));
    assert_eq!(other.tag(), "Postgres");
}

#[test]
fn step_reload_then_rows() {
    let mut s = TransactionsThread::new("db://main".to_owned());
    match s.session_step(TransactionSessionRequest::ReloadDBAliases) {
        SessionStep::Reload(q) => assert_eq!(q.db_alias, "_main"),
        other => panic!("unexpected: {:?}", other),
    }
    let rows = QueryResult {
        rows: vec![row("x", "postgres", "db://x")],
        row_names: vec![],
        row_types: vec![],
    };
    let reply = s.finish_reload(TransactionResponse::QueryResult(rows));
    assert!(matches!(reply, TransactionSessionResponse::Done));
    assert_eq!(s.db_create_alias("x".to_owned()).unwrap().name, "x");
    let reply = s.finish_reload(TransactionResponse::Error("down".to_owned()));
    assert!(matches!(reply, TransactionSessionResponse::Done));
    assert!(s.is_open("x"));
}

#[test]
fn step_create_transaction() {
    let mut s = session_with(vec![row("x", "postgres", "db://x")]);
    match s.session_step(TransactionSessionRequest::CreateTransaction("x".to_owned())) {
        SessionStep::Open { name, connection_string, reply } => {
            assert_eq!(name, "x");
            assert_eq!(connection_string, "db://x");
            assert!(matches!(reply, TransactionSessionResponse::Transaction(n) if n == "x"));
        }
        other => panic!("unexpected: {:?}", other),
    }
    match s.session_step(TransactionSessionRequest::CreateTransaction("_main".to_owned())) {
        SessionStep::Reply(TransactionSessionResponse::Transaction(n)) => assert_eq!(n, "_main"),
        other => panic!("unexpected: {:?}", other),
    }
    match s.session_step(TransactionSessionRequest::CreateTransaction("y".to_owned())) {
        SessionStep::Reply(TransactionSessionResponse::Error(e)) => {
            assert_eq!(e, "ERROR db alias not found : y")
        }
        other => panic!("unexpected: {:?}", other),
    }
}

#[test]
fn step_query_goes_to_the_open_worker() {
    let mut s = TransactionsThread::new("db://main".to_owned());
    let q = QueryData { db_alias: "_main".to_owned(), query: "SELECT 1".to_owned(), params: vec![] };
    match s.session_step(TransactionSessionRequest::Query(q)) {
        SessionStep::Forward { name, request } => {
            assert_eq!(name, "_main");
            assert!(matches!(request, TransactionRequest::Query(d) if d.query == "SELECT 1"));
        }
        other => panic!("unexpected: {:?}", other),
    }
    let q = QueryData { db_alias: "x".to_owned(), query: "UPDATE t".to_owned(), params: vec![] };
    match s.session_step(TransactionSessionRequest::Upsert(q)) {
        SessionStep::Reply(TransactionSessionResponse::Error(e)) => {
            assert_eq!(e, "ERROR alias x is missing")
        }
        other => panic!("unexpected: {:?}", other),
    }
    let q = QueryData { db_alias: "_main".to_owned(), query: "UPDATE t".to_owned(), params: vec![] };
    match s.session_step(TransactionSessionRequest::Upsert(q)) {
        SessionStep::Forward { name, request } => {
            assert_eq!(name, "_main");
            assert!(matches!(request, TransactionRequest::Upsert(_)));
        }
        other => panic!("unexpected: {:?}", other),
    }
}

#[test]
fn step_close_all() {
    let mut s = TransactionsThread::new("db://main".to_owned());
    match s.session_step(TransactionSessionRequest::CloseAll(false)) {
        SessionStep::Close(plan) => {
            assert!(!plan.commit);
            assert_eq!(plan.finish, vec!["_main".to_owned()]);
            assert!(plan.dropped.is_empty());
        }
        other => panic!("unexpected: {:?}", other),
    }
}

#[test]
fn replies_of_the_session() {
    let rows = QueryResult { rows: vec![vec!["1".to_owned()]], row_names: vec![], row_types: vec![] };
    assert!(matches!(
        query_reply(TransactionResponse::QueryResult(rows.clone())),
        TransactionSessionResponse::QueryResult(r) if r.rows == vec![vec!["1".to_owned()]]
    ));
    assert!(matches!(
        query_reply(TransactionResponse::Error("boom".to_owned())),
        TransactionSessionResponse::Error(e) if e == "ERROR boom"
    ));
    assert!(matches!(
        query_reply(TransactionResponse::UpsertResult(1)),
        TransactionSessionResponse::Error(e) if e == "ERROR unexpected response"
    ));
    assert!(matches!(
        upsert_reply(TransactionResponse::UpsertResult(7)),
        TransactionSessionResponse::UpsertResult(7)
    ));
    assert!(matches!(
        upsert_reply(TransactionResponse::QueryResult(rows)),
        TransactionSessionResponse::Error(e) if e == "ERROR unexpected response"
    ));
    assert!(matches!(
        upsert_reply(TransactionResponse::Done),
        TransactionSessionResponse::Error(_)
    ));
    assert!(matches!(
        error_response("x"),
        TransactionSessionResponse::Error(e) if e == "ERROR x"
    ));
    assert_eq!(SessionError::AliasMissing("a".to_owned()).message(), "alias a is missing");
}
