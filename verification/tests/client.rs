use nino::client::{
    affected_of, done_of, rows_of, transaction_of, SessionFailure, TransactionManager,
};
use nino::ops::{
    fetch_timed_out, fetch_timeout, nino_get_database_invalidation_prefix,
    nino_get_module_invalidation_prefix, nino_get_system_id, nino_reload_database_aliases,
    nino_tx_end, nino_tx_execute_query, nino_tx_execute_upsert, nino_tx_get_connection_name,
};
use nino::query::{
    QueryParam, QueryResult, TransactionSessionRequest, TransactionSessionResponse,
};
use nino::session::{SessionStep, TransactionsThread};
use nino::settings::CachedValue;

fn rows() -> QueryResult {
    QueryResult { rows: vec![vec!["1".to_owned()]], row_names: vec![], row_types: vec![] }
}

#[test]
fn responses_are_read_for_what_was_asked() {
    assert!(done_of(Some(TransactionSessionResponse::Done)).is_ok());
    assert!(matches!(done_of(None), Err(SessionFailure::ReceiveClosed)));
    assert!(matches!(
        done_of(Some(TransactionSessionResponse::Error("e".to_owned()))),
        Err(SessionFailure::Refused(m)) if m == "e"
    ));
    assert!(matches!(
        done_of(Some(TransactionSessionResponse::UpsertResult(1))),
        Err(SessionFailure::Unexpected)
    ));
    assert_eq!(
        transaction_of(Some(TransactionSessionResponse::Transaction("x_1".to_owned()))).unwrap(),
        "x_1"
    );
    assert!(matches!(
        transaction_of(Some(TransactionSessionResponse::Done)),
        Err(SessionFailure::Unexpected)
    ));
    assert!(matches!(transaction_of(None), Err(SessionFailure::ReceiveClosed)));
    assert_eq!(
        rows_of(Some(TransactionSessionResponse::QueryResult(rows()))).unwrap().rows,
        vec![vec!["1".to_owned()]]
    );
    assert!(matches!(
        rows_of(Some(TransactionSessionResponse::Error("e".to_owned()))),
        Err(SessionFailure::Refused(_))
    ));
    assert!(matches!(
        rows_of(Some(TransactionSessionResponse::UpsertResult(1))),
        Err(SessionFailure::Unexpected)
    ));
    assert_eq!(affected_of(Some(TransactionSessionResponse::UpsertResult(9))).unwrap(), 9);
    assert!(matches!(
        affected_of(Some(TransactionSessionResponse::QueryResult(rows()))),
        Err(SessionFailure::Unexpected)
    ));
    assert!(matches!(affected_of(None), Err(SessionFailure::ReceiveClosed)));
}

#[test]
fn failure_texts() {
    assert_eq!(SessionFailure::SendClosed.message(), "sending into a closed channel");
    assert_eq!(
        SessionFailure::ReceiveClosed.message(),
        "receiving from an empty and closed channel"
    );
    assert_eq!(SessionFailure::Refused("no".to_owned()).message(), "no");
    assert_eq!(SessionFailure::Unexpected.message(), "unexpected response");
}

fn answer(
    state: &mut TransactionsThread,
    request: TransactionSessionRequest,
) -> TransactionSessionResponse {
    match state.session_step(request) {
        SessionStep::Reply(r) => r,
        SessionStep::Open { reply, .. } => reply,
        SessionStep::Close(_) => TransactionSessionResponse::Done,
        SessionStep::Reload(_) => TransactionSessionResponse::Done,
        SessionStep::Forward { .. } => TransactionSessionResponse::UpsertResult(1),
    }
}

#[test]
fn session_talks_to_its_worker_over_the_channels() {
    let (mut session, worker) = TransactionManager::get_transaction_session("db://main".to_owned());
    let mut state = worker.state;
    let request_out = worker.request_out;
    let response_in = worker.response_in;

    let expected = TransactionSessionRequest::CreateTransaction("_main".to_owned());
    response_in.send_blocking(answer(&mut state, expected)).unwrap();
    assert_eq!(session.create_transaction("_main".to_owned()).unwrap(), "_main");
    assert!(matches!(
        request_out.recv_blocking().unwrap(),
        TransactionSessionRequest::CreateTransaction(a) if a == "_main"
    ));

    let expected = TransactionSessionRequest::CreateTransaction("_main".to_owned());
    response_in.send_blocking(answer(&mut state, expected)).unwrap();
    assert_eq!(nino_tx_get_connection_name(&mut session, "_main".to_owned()).unwrap(), "_main_1");
    request_out.recv_blocking().unwrap();

    let expected = TransactionSessionRequest::CreateTransaction("nowhere".to_owned());
    response_in.send_blocking(answer(&mut state, expected)).unwrap();
    assert_eq!(
        nino_tx_get_connection_name(&mut session, "nowhere".to_owned()).unwrap_err(),
        "ERROR db alias not found : nowhere"
    );
    request_out.recv_blocking().unwrap();

    response_in.send_blocking(TransactionSessionResponse::Done).unwrap();
    assert!(session.reload_database_aliases().is_ok());
    assert!(matches!(
        request_out.recv_blocking().unwrap(),
        TransactionSessionRequest::ReloadDBAliases
    ));
    response_in.send_blocking(TransactionSessionResponse::Done).unwrap();
    assert!(nino_reload_database_aliases(&mut session).is_ok());
    request_out.recv_blocking().unwrap();

    response_in.send_blocking(TransactionSessionResponse::UpsertResult(1)).unwrap();
    assert_eq!(session.upsert("_main".to_owned(), "UPDATE t".to_owned(), vec![]).unwrap(), 1);
    assert!(matches!(
        request_out.recv_blocking().unwrap(),
        TransactionSessionRequest::Upsert(q) if q.db_alias == "_main" && q.query == "UPDATE t"
    ));

    response_in.send_blocking(TransactionSessionResponse::UpsertResult(1)).unwrap();
    assert!(matches!(
        session.query("_main".to_owned(), "SELECT 1".to_owned(), vec![QueryParam::Null]),
        Err(SessionFailure::Unexpected)
    ));
    assert!(matches!(
        request_out.recv_blocking().unwrap(),
        TransactionSessionRequest::Query(q) if q.params.len() == 1
    ));

    let expected = TransactionSessionRequest::Query(nino::query::QueryData {
        db_alias: "gone".to_owned(),
        query: "SELECT 1".to_owned(),
        params: vec![],
    });
    response_in.send_blocking(answer(&mut state, expected)).unwrap();
    assert!(matches!(
        session.query("gone".to_owned(), "SELECT 1".to_owned(), vec![]),
        Err(SessionFailure::Refused(m)) if m == "ERROR alias gone is missing"
    ));
    request_out.recv_blocking().unwrap();

    response_in.send_blocking(TransactionSessionResponse::UpsertResult(1)).unwrap();
    assert_eq!(
        nino_tx_execute_upsert(
            &mut session,
            "_main".to_owned(),
            vec!["UPDATE t SET a = $1".to_owned(), "5".to_owned()],
            vec![0, 2],
            &vec![None, None],
        ),
        Ok(1)
    );
    assert!(matches!(
        request_out.recv_blocking().unwrap(),
        TransactionSessionRequest::Upsert(q)
            if q.query == "UPDATE t SET a = $1" && matches!(q.params[0], QueryParam::Number(5))
    ));

    assert_eq!(
        nino_tx_execute_upsert(&mut session, "_main".to_owned(), vec![], vec![], &vec![]),
        Err("query must contain atleast the query".to_owned())
    );
    assert_eq!(
        nino_tx_execute_query(
            &mut session,
            "_main".to_owned(),
            vec!["q".to_owned(), "x".to_owned()],
            vec![0, 2],
            &vec![],
        )
        .unwrap_err(),
        "parameter 1 `x` is not number: invalid float literal"
    );
    assert!(request_out.try_recv().is_err());

    response_in.send_blocking(TransactionSessionResponse::QueryResult(rows())).unwrap();
    assert_eq!(
        nino_tx_execute_query(
            &mut session,
            "_main".to_owned(),
            vec!["q".to_owned()],
            vec![0],
            &vec![],
        )
        .unwrap()
        .rows,
        vec![vec!["1".to_owned()]]
    );
    request_out.recv_blocking().unwrap();

    let expected = TransactionSessionRequest::CloseAll(true);
    response_in.send_blocking(answer(&mut state, expected)).unwrap();
    assert!(session.close_all(true).is_ok());
    assert!(matches!(
        request_out.recv_blocking().unwrap(),
        TransactionSessionRequest::CloseAll(true)
    ));
    let expected = TransactionSessionRequest::CloseAll(false);
    response_in.send_blocking(answer(&mut state, expected)).unwrap();
    assert!(nino_tx_end(&mut session, false).is_ok());
    assert!(matches!(
        request_out.recv_blocking().unwrap(),
        TransactionSessionRequest::CloseAll(false)
    ));

    drop(response_in);
    assert!(matches!(
        session.create_transaction("_main".to_owned()),
        Err(SessionFailure::ReceiveClosed)
    ));
}

#[test]
fn session_without_worker_fails() {
    let (mut session, worker) = TransactionManager::get_transaction_session("db://main".to_owned());
    drop(worker);
    assert!(matches!(session.close_all(true), Err(SessionFailure::SendClosed)));
    assert_eq!(
        nino_tx_end(&mut session, true).unwrap_err(),
        "sending into a closed channel"
    );
}

#[test]
fn small_operations() {
    assert_eq!(nino_get_module_invalidation_prefix(), "response:");
    assert_eq!(nino_get_database_invalidation_prefix(), "database:");
    assert_eq!(nino_get_system_id(None), "");
    assert_eq!(nino_get_system_id(Some(&CachedValue::of_text("D01".to_owned()))), "D01");
    assert_eq!(fetch_timeout(0), 0);
    assert_eq!(fetch_timeout(1500), 1500);
    assert_eq!(fetch_timeout(-1), u64::MAX);
    assert_eq!(fetch_timeout(i64::MIN), 1u64 << 63);
    assert_eq!(fetch_timed_out(), "Connection Timeout");
}
