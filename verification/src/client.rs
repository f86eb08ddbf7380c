//! The isolate's side of a transaction session.
//!
//! An isolate talks to its session worker over a pair of channels: it
//! sends a request, waits for the response, and reads the response for
//! what it asked.

use vstd::prelude::*;
use async_channel::{Receiver, Sender};
use crate::query::{
    QueryData,
    QueryDataView,
    QueryParam,
    QueryResult,
    QueryResultView,
    SessionRequestView,
    SessionResponseView,
    TransactionSessionRequest,
    TransactionSessionResponse,
};
use crate::session::{SessionView, TransactionsThread};

verus! {

/// The sending end of a channel.
#[verifier::external_type_specification]
#[verifier::external_body]
#[verifier::reject_recursive_types(T)]
pub struct ExSender<T>(Sender<T>);

/// The receiving end of a channel.
#[verifier::external_type_specification]
#[verifier::external_body]
#[verifier::reject_recursive_types(T)]
pub struct ExReceiver<T>(Receiver<T>);

/// Why a call into the session gave nothing.
#[derive(Clone, Debug)]
pub enum SessionFailure {
    /// The worker is gone: the request could not be sent.
    SendClosed,
    /// The worker is gone: no response came.
    ReceiveClosed,
    /// The worker turned the request down with this text.
    Refused(String),
    /// The response is of a kind that does not answer the request.
    Unexpected,
}

/// A [`SessionFailure`] as a mathematical value.
pub enum SessionFailureView {
    SendClosed,
    ReceiveClosed,
    Refused(Seq<char>),
    Unexpected,
}

impl View for SessionFailure {
    type V = SessionFailureView;

    open spec fn view(&self) -> SessionFailureView {
        match self {
            SessionFailure::SendClosed => SessionFailureView::SendClosed,
            SessionFailure::ReceiveClosed => SessionFailureView::ReceiveClosed,
            SessionFailure::Refused(msg) => SessionFailureView::Refused(msg@),
            SessionFailure::Unexpected => SessionFailureView::Unexpected,
        }
    }
}

/// The text of a failure.
pub open spec fn failure_message(f: SessionFailureView) -> Seq<char> {
    match f {
        SessionFailureView::SendClosed => "sending into a closed channel"@,
        SessionFailureView::ReceiveClosed => "receiving from an empty and closed channel"@,
        SessionFailureView::Refused(msg) => msg,
        SessionFailureView::Unexpected => "unexpected response"@,
    }
}

impl SessionFailure {
    /// The text of the failure.
    pub fn message(&self) -> (out: String)
        ensures
            out@ == failure_message(self@),
    {
        match self {
            SessionFailure::SendClosed => "sending into a closed channel".to_owned(),
            SessionFailure::ReceiveClosed => "receiving from an empty and closed channel".to_owned(),
            SessionFailure::Refused(msg) => msg.clone(),
            SessionFailure::Unexpected => "unexpected response".to_owned(),
        }
    }
}

/// What a response says to a request that asks for something to be done.
pub open spec fn done_view(response: Option<SessionResponseView>) -> Result<
    (),
    SessionFailureView,
> {
    match response {
        None => Err(SessionFailureView::ReceiveClosed),
        Some(SessionResponseView::Done) => Ok(()),
        Some(SessionResponseView::Error(msg)) => Err(SessionFailureView::Refused(msg)),
        Some(_) => Err(SessionFailureView::Unexpected),
    }
}

/// What a response says to a request for a transaction.
pub open spec fn transaction_view(response: Option<SessionResponseView>) -> Result<
    Seq<char>,
    SessionFailureView,
> {
    match response {
        None => Err(SessionFailureView::ReceiveClosed),
        Some(SessionResponseView::Transaction(name)) => Ok(name),
        Some(SessionResponseView::Error(msg)) => Err(SessionFailureView::Refused(msg)),
        Some(_) => Err(SessionFailureView::Unexpected),
    }
}

/// What a response says to a query.
pub open spec fn rows_view(response: Option<SessionResponseView>) -> Result<
    QueryResultView,
    SessionFailureView,
> {
    match response {
        None => Err(SessionFailureView::ReceiveClosed),
        Some(SessionResponseView::QueryResult(rows)) => Ok(rows),
        Some(SessionResponseView::Error(msg)) => Err(SessionFailureView::Refused(msg)),
        Some(_) => Err(SessionFailureView::Unexpected),
    }
}

/// What a response says to a statement.
pub open spec fn affected_view(response: Option<SessionResponseView>) -> Result<
    u64,
    SessionFailureView,
> {
    match response {
        None => Err(SessionFailureView::ReceiveClosed),
        Some(SessionResponseView::UpsertResult(n)) => Ok(n),
        Some(SessionResponseView::Error(msg)) => Err(SessionFailureView::Refused(msg)),
        Some(_) => Err(SessionFailureView::Unexpected),
    }
}

/// The view of a response that may be missing.
pub open spec fn response_view(response: Option<TransactionSessionResponse>) -> Option<
    SessionResponseView,
> {
    match response {
        Some(r) => Some(r@),
        None => None,
    }
}

/// Reads a response to a request that asks for something to be done: it
/// is done, or it was turned down, or the response does not fit.
pub fn done_of(response: Option<TransactionSessionResponse>) -> (r: Result<(), SessionFailure>)
    ensures
        match r {
            Ok(_) => done_view(response_view(response)) is Ok,
            Err(f) => done_view(response_view(response)) == Err::<(), SessionFailureView>(f@),
        },
{
    match response {
        None => Err(SessionFailure::ReceiveClosed),
        Some(TransactionSessionResponse::Done) => Ok(()),
        Some(TransactionSessionResponse::Error(msg)) => Err(SessionFailure::Refused(msg)),
        Some(_) => Err(SessionFailure::Unexpected),
    }
}

/// Reads a response to a request for a transaction: the name under which
/// the transaction is addressed, or why there is none.
pub fn transaction_of(response: Option<TransactionSessionResponse>) -> (r: Result<
    String,
    SessionFailure,
>)
    ensures
        match r {
            Ok(name) => transaction_view(response_view(response)) == Ok::<
                Seq<char>,
                SessionFailureView,
            >(name@),
            Err(f) => transaction_view(response_view(response)) == Err::<
                Seq<char>,
                SessionFailureView,
            >(f@),
        },
{
    match response {
        None => Err(SessionFailure::ReceiveClosed),
        Some(TransactionSessionResponse::Transaction(name)) => Ok(name),
        Some(TransactionSessionResponse::Error(msg)) => Err(SessionFailure::Refused(msg)),
        Some(_) => Err(SessionFailure::Unexpected),
    }
}

/// Reads a response to a query: the rows, or why there are none.
pub fn rows_of(response: Option<TransactionSessionResponse>) -> (r: Result<
    QueryResult,
    SessionFailure,
>)
    ensures
        match r {
            Ok(rows) => rows_view(response_view(response)) == Ok::<
                QueryResultView,
                SessionFailureView,
            >(rows@),
            Err(f) => rows_view(response_view(response)) == Err::<
                QueryResultView,
                SessionFailureView,
            >(f@),
        },
{
    match response {
        None => Err(SessionFailure::ReceiveClosed),
        Some(TransactionSessionResponse::QueryResult(rows)) => Ok(rows),
        Some(TransactionSessionResponse::Error(msg)) => Err(SessionFailure::Refused(msg)),
        Some(_) => Err(SessionFailure::Unexpected),
    }
}

/// Reads a response to a statement: the number of rows it touched, or why
/// there is none.
pub fn affected_of(response: Option<TransactionSessionResponse>) -> (r: Result<
    u64,
    SessionFailure,
>)
    ensures
        match r {
            Ok(n) => affected_view(response_view(response)) == Ok::<u64, SessionFailureView>(n),
            Err(f) => affected_view(response_view(response)) == Err::<u64, SessionFailureView>(
                f@,
            ),
        },
{
    match response {
        None => Err(SessionFailure::ReceiveClosed),
        Some(TransactionSessionResponse::UpsertResult(n)) => Ok(n),
        Some(TransactionSessionResponse::Error(msg)) => Err(SessionFailure::Refused(msg)),
        Some(_) => Err(SessionFailure::Unexpected),
    }
}

/// `async_channel::unbounded`: the two ends of a new channel without
/// bound.
#[verifier::external_body]
fn unbounded<T>() -> (ends: (Sender<T>, Receiver<T>)) {
    async_channel::unbounded()
}

/// `Sender::send_blocking`: puts the request into the channel, and says
/// whether the channel took it; a closed channel takes nothing.
#[verifier::external_body]
fn send_request(tx: &Sender<TransactionSessionRequest>, request: TransactionSessionRequest) -> (sent:
    bool) {
    tx.send_blocking(request).is_ok()
}

/// `Receiver::recv_blocking`: waits for the next response; nothing comes
/// from a channel that is empty and closed.
#[verifier::external_body]
fn receive_response(rx: &Receiver<TransactionSessionResponse>) -> (response: Option<
    TransactionSessionResponse,
>) {
    rx.recv_blocking().ok()
}

/// How the worker answered a request.
pub enum Answer {
    /// The worker is gone: the request could not be sent.
    NotSent,
    /// The request was sent and no response came.
    Silent,
    /// The worker answered with this response.
    Response(SessionResponseView),
}

/// One exchange with the worker: what was asked, and how it was answered.
pub struct Exchange {
    pub request: SessionRequestView,
    pub answer: Answer,
}

/// The response that an answer holds, if it holds one.
pub open spec fn answer_response(answer: Answer) -> Option<SessionResponseView> {
    match answer {
        Answer::Response(response) => Some(response),
        _ => None,
    }
}

/// What an answer says to a request that asks for something to be done.
pub open spec fn done_answer(answer: Answer) -> Result<(), SessionFailureView> {
    match answer {
        Answer::NotSent => Err(SessionFailureView::SendClosed),
        _ => done_view(answer_response(answer)),
    }
}

/// What an answer says to a request for a transaction.
pub open spec fn transaction_answer(answer: Answer) -> Result<Seq<char>, SessionFailureView> {
    match answer {
        Answer::NotSent => Err(SessionFailureView::SendClosed),
        _ => transaction_view(answer_response(answer)),
    }
}

/// What an answer says to a query.
pub open spec fn rows_answer(answer: Answer) -> Result<QueryResultView, SessionFailureView> {
    match answer {
        Answer::NotSent => Err(SessionFailureView::SendClosed),
        _ => rows_view(answer_response(answer)),
    }
}

/// What an answer says to a statement.
pub open spec fn affected_answer(answer: Answer) -> Result<u64, SessionFailureView> {
    match answer {
        Answer::NotSent => Err(SessionFailureView::SendClosed),
        _ => affected_view(answer_response(answer)),
    }
}

/// `after` is `before` and one more exchange, in which `request` was asked.
pub open spec fn one_more(
    before: Seq<Exchange>,
    after: Seq<Exchange>,
    request: SessionRequestView,
) -> bool {
    &&& after.len() == before.len() + 1
    &&& after.drop_last() == before
    &&& after.last().request == request
}

/// How a call into the worker was answered, from what the call gave.
pub open spec fn answer_of(
    r: Result<Option<TransactionSessionResponse>, SessionFailure>,
) -> Answer {
    match r {
        Err(_) => Answer::NotSent,
        Ok(None) => Answer::Silent,
        Ok(Some(response)) => Answer::Response(response@),
    }
}

/// An isolate's handle to its session worker. It keeps account of the
/// exchanges that went over it.
pub struct TransactionSession {
    request_in: Sender<TransactionSessionRequest>,
    response_out: Receiver<TransactionSessionResponse>,
    exchanges: Ghost<Seq<Exchange>>,
}

/// What a session worker is started with: its state, the end of the
/// channel that its requests come from, and the end that its responses go
/// into.
pub struct SessionWorker {
    pub state: TransactionsThread,
    pub request_out: Receiver<TransactionSessionRequest>,
    pub response_in: Sender<TransactionSessionResponse>,
}

/// The maker of transaction sessions.
pub struct TransactionManager {}

impl TransactionManager {
    /// A new session on the main database with this connection string:
    /// the isolate's handle, over which nothing was exchanged yet, and
    /// what the worker at the other end of the channels is started with.
    pub fn get_transaction_session(connection_string: String) -> (r: (
        TransactionSession,
        SessionWorker,
    ))
        ensures
            r.0.exchanges().len() == 0,
            r.1.state.inv(),
            r.1.state@ == SessionView::fresh(connection_string@),
    {
        let (request_in, request_out) = unbounded::<TransactionSessionRequest>();
        let (response_in, response_out) = unbounded::<TransactionSessionResponse>();
        let state = TransactionsThread::new(connection_string);
        (
            TransactionSession { request_in, response_out, exchanges: Ghost(Seq::empty()) },
            SessionWorker { state, request_out, response_in },
        )
    }
}

impl TransactionSession {
    /// The exchanges that went over the handle, in order.
    pub closed spec fn exchanges(&self) -> Seq<Exchange> {
        self.exchanges@
    }

    /// One exchange with the worker: `request` is put into the channel of
    /// requests, and, where the channel took it, the next response is
    /// awaited. The exchange is added to the account.
    fn call(&mut self, request: TransactionSessionRequest) -> (r: Result<
        Option<TransactionSessionResponse>,
        SessionFailure,
    >)
        ensures
            r matches Err(f) ==> f@ == SessionFailureView::SendClosed,
            final(self).exchanges() == old(self).exchanges().push(
                (Exchange { request: request@, answer: answer_of(r) }),
            ),
    {
        let ghost asked = request@;
        if !send_request(&self.request_in, request) {
            self.exchanges = Ghost(
                self.exchanges@.push(Exchange { request: asked, answer: Answer::NotSent }),
            );
            return Err(SessionFailure::SendClosed);
        }
        let response = receive_response(&self.response_out);
        let ghost answer = answer_of(Ok(response));
        self.exchanges = Ghost(self.exchanges@.push(Exchange { request: asked, answer }));
        Ok(response)
    }

    /// Asks the worker to read the directory of aliases again: one
    /// exchange, and the result is what its answer says to such a request.
    pub fn reload_database_aliases(&mut self) -> (r: Result<(), SessionFailure>)
        ensures
            one_more(
                old(self).exchanges(),
                final(self).exchanges(),
                SessionRequestView::ReloadDBAliases,
            ),
            match r {
                Ok(_) => done_answer(final(self).exchanges().last().answer) is Ok,
                Err(f) => done_answer(final(self).exchanges().last().answer) == Err::<
                    (),
                    SessionFailureView,
                >(f@),
            },
    {
        let ghost before = self.exchanges();
        let called = self.call(TransactionSessionRequest::ReloadDBAliases);
        proof {
            assert(self.exchanges().drop_last() =~= before);
        }
        match called {
            Ok(response) => done_of(response),
            Err(f) => Err(f),
        }
    }

    /// Asks the worker for a transaction on `db_alias`: one exchange, and
    /// the result is the name that its answer gives, or why it gives none.
    pub fn create_transaction(&mut self, db_alias: String) -> (r: Result<String, SessionFailure>)
        ensures
            one_more(
                old(self).exchanges(),
                final(self).exchanges(),
                SessionRequestView::CreateTransaction(db_alias@),
            ),
            match r {
                Ok(name) => transaction_answer(final(self).exchanges().last().answer) == Ok::<
                    Seq<char>,
                    SessionFailureView,
                >(name@),
                Err(f) => transaction_answer(final(self).exchanges().last().answer) == Err::<
                    Seq<char>,
                    SessionFailureView,
                >(f@),
            },
    {
        let ghost before = self.exchanges();
        let called = self.call(TransactionSessionRequest::CreateTransaction(db_alias));
        proof {
            assert(self.exchanges().drop_last() =~= before);
        }
        match called {
            Ok(response) => transaction_of(response),
            Err(f) => Err(f),
        }
    }

    /// Asks the worker to commit, or to roll back, every open transaction
    /// and to begin anew: one exchange, and the result is what its answer
    /// says to such a request.
    pub fn close_all(&mut self, commit: bool) -> (r: Result<(), SessionFailure>)
        ensures
            one_more(
                old(self).exchanges(),
                final(self).exchanges(),
                SessionRequestView::CloseAll(commit),
            ),
            match r {
                Ok(_) => done_answer(final(self).exchanges().last().answer) is Ok,
                Err(f) => done_answer(final(self).exchanges().last().answer) == Err::<
                    (),
                    SessionFailureView,
                >(f@),
            },
    {
        let ghost before = self.exchanges();
        let called = self.call(TransactionSessionRequest::CloseAll(commit));
        proof {
            assert(self.exchanges().drop_last() =~= before);
        }
        match called {
            Ok(response) => done_of(response),
            Err(f) => Err(f),
        }
    }

    /// Runs a query in the transaction `db_alias`: one exchange, in which
    /// the statement is asked with its parameters, and the result is the
    /// rows that its answer gives, or why it gives none.
    pub fn query(&mut self, db_alias: String, query: String, params: Vec<QueryParam>) -> (r:
        Result<QueryResult, SessionFailure>)
        ensures
            one_more(
                old(self).exchanges(),
                final(self).exchanges(),
                SessionRequestView::Query(
                    QueryDataView {
                        db_alias: db_alias@,
                        query: query@,
                        params: params.deep_view(),
                    },
                ),
            ),
            match r {
                Ok(rows) => rows_answer(final(self).exchanges().last().answer) == Ok::<
                    QueryResultView,
                    SessionFailureView,
                >(rows@),
                Err(f) => rows_answer(final(self).exchanges().last().answer) == Err::<
                    QueryResultView,
                    SessionFailureView,
                >(f@),
            },
    {
        let ghost before = self.exchanges();
        let query_data = QueryData { db_alias, query, params };
        let called = self.call(TransactionSessionRequest::Query(query_data));
        proof {
            assert(self.exchanges().drop_last() =~= before);
        }
        match called {
            Ok(response) => rows_of(response),
            Err(f) => Err(f),
        }
    }

    /// Runs a statement in the transaction `db_alias`: one exchange, in
    /// which the statement is asked with its parameters, and the result is
    /// the number of rows that its answer gives, or why it gives none.
    pub fn upsert(&mut self, db_alias: String, query: String, params: Vec<QueryParam>) -> (r:
        Result<u64, SessionFailure>)
        ensures
            one_more(
                old(self).exchanges(),
                final(self).exchanges(),
                SessionRequestView::Upsert(
                    QueryDataView {
                        db_alias: db_alias@,
                        query: query@,
                        params: params.deep_view(),
                    },
                ),
            ),
            match r {
                Ok(n) => affected_answer(final(self).exchanges().last().answer) == Ok::<
                    u64,
                    SessionFailureView,
                >(n),
                Err(f) => affected_answer(final(self).exchanges().last().answer) == Err::<
                    u64,
                    SessionFailureView,
                >(f@),
            },
    {
        let ghost before = self.exchanges();
        let query_data = QueryData { db_alias, query, params };
        let called = self.call(TransactionSessionRequest::Upsert(query_data));
        proof {
            assert(self.exchanges().drop_last() =~= before);
        }
        match called {
            Ok(response) => affected_of(response),
            Err(f) => Err(f),
        }
    }
}

} // verus!
