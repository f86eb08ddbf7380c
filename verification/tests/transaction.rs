use nino::query::{QueryData, TransactionRequest, TransactionResponse};
use nino::transaction::{
    after_send, driver_call, row_texts, rows_to_result, transaction_reply, Cell, Column,
    DriverCall, DriverOutcome, RowData, WorkerNext,
};

fn data(alias: &str) -> QueryData {
    QueryData { db_alias: alias.to_owned(), query: "SELECT 1".to_owned(), params: vec![] }
}

fn column(name: &str, sql_type: &str) -> Column {
    Column { name: name.to_owned(), sql_type: sql_type.to_owned() }
}

#[test]
fn each_request_has_its_driver_call() {
    assert_eq!(driver_call(&TransactionRequest::Commit), DriverCall::Commit);
    assert_eq!(driver_call(&TransactionRequest::Rollback), DriverCall::Rollback);
    assert_eq!(driver_call(&TransactionRequest::Query(data("a"))), DriverCall::Query);
    assert_eq!(driver_call(&TransactionRequest::Upsert(data("a"))), DriverCall::Execute);
}

#[test]
fn cells_become_text() {
    let cells = vec![
        Cell::Text("plain".to_owned()),
        Cell::Raw(vec![b'h', b'i']),
        Cell::Raw(vec![b'a', 0xff, b'b']),
        Cell::Raw(vec![]),
    ];
    assert_eq!(
        row_texts(&cells),
        vec!["plain".to_owned(), "hi".to_owned(), "a\u{fffd}b".to_owned(), String::new()]
    );
}

#[test]
fn result_takes_columns_from_the_first_row() {
    let rows = vec![
        RowData {
            columns: vec![column("id", "int4"), column("name", "text")],
            cells: vec![Cell::Text("1".to_owned()), Cell::Text("a".to_owned())],
        },
        RowData {
            columns: vec![column("other", "bool")],
            cells: vec![Cell::Text("2".to_owned()), Cell::Raw(vec![0xc3, 0xa9])],
        },
    ];
    let r = rows_to_result(&rows);
    assert_eq!(r.row_names, vec!["id".to_owned(), "name".to_owned()]);
    assert_eq!(r.row_types, vec!["int4".to_owned(), "text".to_owned()]);
    assert_eq!(
        r.rows,
        vec![
            vec!["1".to_owned(), "a".to_owned()],
            vec!["2".to_owned(), "\u{e9}".to_owned()]
        ]
    );
}

#[test]
fn result_of_no_rows_is_empty() {
    let r = rows_to_result(&vec![]);
    assert!(r.rows.is_empty() && r.row_names.is_empty() && r.row_types.is_empty());
}

#[test]
fn columns_come_from_the_first_row_that_has_some() {
    let rows = vec![
        RowData { columns: vec![], cells: vec![] },
        RowData { columns: vec![column("c", "text")], cells: vec![Cell::Text("v".to_owned())] },
    ];
    let r = rows_to_result(&rows);
    assert_eq!(r.row_names, vec!["c".to_owned()]);
    assert_eq!(r.rows, vec![Vec::<String>::new(), vec!["v".to_owned()]]);
}

#[test]
fn commit_and_rollback_end_the_transaction() {
    let r = transaction_reply(TransactionRequest::Commit, DriverOutcome::Done);
    assert!(matches!(r.response, TransactionResponse::Done));
    assert!(r.ends_transaction);
    let r = transaction_reply(TransactionRequest::Rollback, DriverOutcome::Failed("gone".to_owned()));
    assert!(matches!(r.response, TransactionResponse::Error(e) if e == "ERROR gone"));
    assert!(r.ends_transaction);
    let r = transaction_reply(TransactionRequest::Commit, DriverOutcome::Affected(1));
    assert!(matches!(r.response, TransactionResponse::Error(e) if e == "ERROR unexpected outcome"));
    assert!(r.ends_transaction);
}

#[test]
fn query_and_upsert_keep_the_transaction() {
    let rows = vec![RowData {
        columns: vec![column("n", "int8")],
        cells: vec![Cell::Text("5".to_owned())],
    }];
    let r = transaction_reply(TransactionRequest::Query(data("x")), DriverOutcome::Rows(rows));
    assert!(matches!(
        r.response,
        TransactionResponse::QueryResult(q) if q.rows == vec![vec!["5".to_owned()]]
    ));
    assert!(!r.ends_transaction);
    let r = transaction_reply(TransactionRequest::Upsert(data("x")), DriverOutcome::Affected(3));
    assert!(matches!(r.response, TransactionResponse::UpsertResult(3)));
    assert!(!r.ends_transaction);
    let r = transaction_reply(
        TransactionRequest::Query(data("x")),
        DriverOutcome::Failed("syntax".to_owned()),
    );
    assert!(matches!(r.response, TransactionResponse::Error(e) if e == "ERROR db alias x : syntax"));
    let r = transaction_reply(
        TransactionRequest::Upsert(data("y")),
        DriverOutcome::Failed("dup".to_owned()),
    );
    assert!(matches!(r.response, TransactionResponse::Error(e) if e == "ERROR db alias y : dup"));
    let r = transaction_reply(TransactionRequest::Upsert(data("y")), DriverOutcome::Done);
    assert!(matches!(r.response, TransactionResponse::Error(e) if e == "ERROR unexpected outcome"));
    assert!(!r.ends_transaction);
}

#[test]
fn what_follows_a_send() {
    assert_eq!(after_send(true, true), WorkerNext::Begin);
    assert_eq!(after_send(true, false), WorkerNext::Stop);
    assert_eq!(after_send(false, true), WorkerNext::Receive);
    assert_eq!(after_send(false, false), WorkerNext::Stop);
}
