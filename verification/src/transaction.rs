//! The decisions of the worker that owns one database transaction.
//!
//! The worker keeps one connection. On it, it begins a transaction and
//! serves requests until a commit or a rollback ends that transaction;
//! then it begins the next. The loop that awaits the driver and the
//! channels lives outside and takes each decision from this module.

use vstd::prelude::*;
use crate::query::{
    QueryResult,
    QueryResultView,
    TransactionRequest,
    TransactionRequestView,
    TransactionResponse,
    TransactionResponseView,
};
use crate::session::error_line;
use crate::text::{push_str, string_of};

verus! {

/// What the worker asks of the driver for a request.
#[derive(Clone, Copy, Debug, PartialEq, Eq, Structural)]
pub enum DriverCall {
    /// Commit the open transaction.
    Commit,
    /// Roll the open transaction back.
    Rollback,
    /// Run the request's statement and fetch its rows.
    Query,
    /// Run the request's statement and count the rows it touched.
    Execute,
}

/// What the driver is asked for `request`.
pub open spec fn driver_call_of(request: TransactionRequestView) -> DriverCall {
    match request {
        TransactionRequestView::Commit => DriverCall::Commit,
        TransactionRequestView::Rollback => DriverCall::Rollback,
        TransactionRequestView::Query(_) => DriverCall::Query,
        TransactionRequestView::Upsert(_) => DriverCall::Execute,
    }
}

/// What the driver is asked for `request`.
pub fn driver_call(request: &TransactionRequest) -> (call: DriverCall)
    ensures
        call == driver_call_of(request@),
{
    match request {
        TransactionRequest::Commit => DriverCall::Commit,
        TransactionRequest::Rollback => DriverCall::Rollback,
        TransactionRequest::Query(_) => DriverCall::Query,
        TransactionRequest::Upsert(_) => DriverCall::Execute,
    }
}

/// One cell as the driver hands it over: as text where the column decodes
/// as text, else as the raw bytes of the value.
#[derive(Clone, Debug)]
pub enum Cell {
    Text(String),
    Raw(Vec<u8>),
}

/// The text that a run of bytes stands for in UTF-8, with the replacement
/// character in place of whatever is not valid.
pub uninterp spec fn utf8_lossy(bytes: Seq<u8>) -> Seq<char>;

/// `String::from_utf8_lossy`: the bytes as text, invalid sequences replaced
/// by the replacement character; bytes that are valid UTF-8 give the text
/// that they stand for.
#[verifier::external_body]
fn from_utf8_lossy(bytes: &Vec<u8>) -> (out: String)
    ensures
        out@ == utf8_lossy(bytes@),
        vstd::utf8::valid_utf8(bytes@) ==> out@ == vstd::utf8::decode_utf8(bytes@),
{
    String::from_utf8_lossy(bytes).into_owned()
}

/// The text of a cell.
pub open spec fn cell_text(cell: Cell) -> Seq<char> {
    match cell {
        Cell::Text(s) => s@,
        Cell::Raw(bytes) => utf8_lossy(bytes@),
    }
}

/// The texts of the cells of a row.
pub open spec fn cell_texts(cells: Seq<Cell>) -> Seq<Seq<char>> {
    Seq::new(cells.len(), |i: int| cell_text(cells[i]))
}

/// One column of a row: its name and the name of its type.
#[derive(Clone, Debug)]
pub struct Column {
    pub name: String,
    pub sql_type: String,
}

/// One row as the driver hands it over.
#[derive(Clone, Debug)]
pub struct RowData {
    pub columns: Vec<Column>,
    pub cells: Vec<Cell>,
}

/// The names of columns.
pub open spec fn column_names(columns: Seq<Column>) -> Seq<Seq<char>> {
    Seq::new(columns.len(), |i: int| columns[i].name@)
}

/// The names of the types of columns.
pub open spec fn column_types(columns: Seq<Column>) -> Seq<Seq<char>> {
    Seq::new(columns.len(), |i: int| columns[i].sql_type@)
}

/// The first row that has columns, if one has.
pub open spec fn first_with_columns(rows: Seq<RowData>) -> Option<int>
    decreases rows.len(),
{
    if rows.len() == 0 {
        None
    } else {
        match first_with_columns(rows.drop_last()) {
            Some(i) => Some(i),
            None => if rows.last().columns@.len() > 0 {
                Some(rows.len() - 1)
            } else {
                None
            },
        }
    }
}

/// The result that stands for `rows`: every cell as text, and the names
/// and types of the columns of the first row that has columns.
pub open spec fn result_of_rows(rows: Seq<RowData>) -> QueryResultView {
    QueryResultView {
        rows: Seq::new(rows.len(), |i: int| cell_texts(rows[i].cells@)),
        row_names: match first_with_columns(rows) {
            Some(i) => column_names(rows[i].columns@),
            None => Seq::empty(),
        },
        row_types: match first_with_columns(rows) {
            Some(i) => column_types(rows[i].columns@),
            None => Seq::empty(),
        },
    }
}

/// The texts of the cells of one row.
pub fn row_texts(cells: &Vec<Cell>) -> (line: Vec<String>)
    ensures
        line.deep_view() == cell_texts(cells@),
{
    let mut line: Vec<String> = Vec::new();
    let mut i: usize = 0;
    assert(line.deep_view() =~= cell_texts(cells@).take(0));
    while i < cells.len()
        invariant
            i <= cells.len(),
            line.deep_view() == cell_texts(cells@).take(i as int),
        decreases cells.len() - i,
    {
        let ghost before = line.deep_view();
        let text = match &cells[i] {
            Cell::Text(s) => s.clone(),
            Cell::Raw(bytes) => from_utf8_lossy(bytes),
        };
        line.push(text);
        assert(line.deep_view() =~= before.push(text@));
        assert(cell_texts(cells@).take(i + 1) =~= cell_texts(cells@).take(i as int).push(
            cell_text(cells@[i as int]),
        ));
        i += 1;
    }
    assert(cell_texts(cells@).take(cells.len() as int) =~= cell_texts(cells@));
    line
}

/// Turns the rows of a query into its result: every cell as text, with
/// the names and types of the columns taken from the first row that has
/// columns.
pub fn rows_to_result(rows: &Vec<RowData>) -> (result: QueryResult)
    ensures
        result@ == result_of_rows(rows@),
{
    let mut row_types: Vec<String> = Vec::new();
    let mut row_names: Vec<String> = Vec::new();
    let mut lines: Vec<Vec<String>> = Vec::new();
    let ghost goal = result_of_rows(rows@);
    let mut i: usize = 0;
    proof {
        assert(rows@.take(0) =~= Seq::<RowData>::empty());
        assert(lines.deep_view() =~= goal.rows.take(0));
        assert(row_names.deep_view() =~= Seq::<Seq<char>>::empty());
        assert(row_types.deep_view() =~= Seq::<Seq<char>>::empty());
    }
    while i < rows.len()
        invariant
            i <= rows.len(),
            goal == result_of_rows(rows@),
            lines.deep_view() == goal.rows.take(i as int),
            row_names.deep_view() == result_of_rows(rows@.take(i as int)).row_names,
            row_types.deep_view() == result_of_rows(rows@.take(i as int)).row_types,
            row_names.len() == row_types.len(),
            row_types.len() == 0 <==> first_with_columns(rows@.take(i as int)) is None,
        decreases rows.len() - i,
    {
        let row = &rows[i];
        proof {
            assert(rows@.take(i + 1).drop_last() =~= rows@.take(i as int));
            assert(rows@.take(i + 1).last() == rows@[i as int]);
            lemma_first_with_columns(rows@.take(i as int));
            lemma_first_with_columns(rows@.take(i + 1));
        }
        if row_types.len() == 0 {
            let mut c: usize = 0;
            while c < row.columns.len()
                invariant
                    c <= row.columns.len(),
                    row_names.deep_view() == column_names(row.columns@).take(c as int),
                    row_types.deep_view() == column_types(row.columns@).take(c as int),
                decreases row.columns.len() - c,
            {
                let ghost names_before = row_names.deep_view();
                let ghost types_before = row_types.deep_view();
                let name = row.columns[c].name.clone();
                let sql_type = row.columns[c].sql_type.clone();
                row_names.push(name);
                row_types.push(sql_type);
                assert(row_names.deep_view() =~= names_before.push(name@));
                assert(row_types.deep_view() =~= types_before.push(sql_type@));
                assert(column_names(row.columns@).take(c + 1) =~= column_names(
                    row.columns@,
                ).take(c as int).push(row.columns@[c as int].name@));
                assert(column_types(row.columns@).take(c + 1) =~= column_types(
                    row.columns@,
                ).take(c as int).push(row.columns@[c as int].sql_type@));
                c += 1;
            }
            assert(column_names(row.columns@).take(row.columns.len() as int) =~= column_names(
                row.columns@,
            ));
            assert(column_types(row.columns@).take(row.columns.len() as int) =~= column_types(
                row.columns@,
            ));
        }
        let ghost lines_before = lines.deep_view();
        let line = row_texts(&row.cells);
        lines.push(line);
        assert(lines.deep_view() =~= lines_before.push(line.deep_view()));
        assert(goal.rows.take(i + 1) =~= goal.rows.take(i as int).push(
            cell_texts(rows@[i as int].cells@),
        ));
        i += 1;
    }
    assert(rows@.take(rows.len() as int) =~= rows@);
    assert(goal.rows.take(rows.len() as int) =~= goal.rows);
    QueryResult { rows: lines, row_names, row_types }
}

/// What `first_with_columns` finds is a row with columns, and every row
/// before it has none.
pub proof fn lemma_first_with_columns(rows: Seq<RowData>)
    ensures
        match first_with_columns(rows) {
            Some(i) => 0 <= i < rows.len() && rows[i].columns@.len() > 0,
            None => forall|j: int| 0 <= j < rows.len() ==> rows[j].columns@.len() == 0,
        },
    decreases rows.len(),
{
    if rows.len() > 0 {
        lemma_first_with_columns(rows.drop_last());
        match first_with_columns(rows.drop_last()) {
            Some(i) => {
                assert(rows.drop_last()[i] == rows[i]);
            },
            None => {
                assert forall|j: int| 0 <= j < rows.len() - 1 implies rows[j].columns@.len()
                    == 0 by {
                    assert(rows.drop_last()[j] == rows[j]);
                }
            },
        }
    }
}

/// What the driver gave for a call.
#[derive(Clone, Debug)]
pub enum DriverOutcome {
    /// A commit or a rollback went through.
    Done,
    /// A query gave these rows.
    Rows(Vec<RowData>),
    /// A statement touched this many rows.
    Affected(u64),
    /// The driver failed with this message.
    Failed(String),
}

/// What the worker sends back, and whether the transaction has ended.
#[derive(Clone, Debug)]
pub struct TransactionReply {
    pub response: TransactionResponse,
    pub ends_transaction: bool,
}

/// The text that reports a failure of the driver on `alias`.
pub open spec fn alias_failure(alias: Seq<char>, message: Seq<char>) -> Seq<char> {
    error_line("db alias "@ + alias + " : "@ + message)
}

/// Whether a request ends the transaction it is served in.
pub open spec fn ends_transaction(request: TransactionRequestView) -> bool {
    request is Commit || request is Rollback
}

/// The response to `request` where the driver's outcome is of the kind that
/// the request calls for.
pub open spec fn response_of(
    request: TransactionRequestView,
    outcome: DriverOutcome,
) -> TransactionResponseView {
    match (request, outcome) {
        (TransactionRequestView::Commit, DriverOutcome::Done) => TransactionResponseView::Done,
        (TransactionRequestView::Rollback, DriverOutcome::Done) => TransactionResponseView::Done,
        (TransactionRequestView::Commit, DriverOutcome::Failed(e)) => TransactionResponseView::Error(
            error_line(e@),
        ),
        (
            TransactionRequestView::Rollback,
            DriverOutcome::Failed(e),
        ) => TransactionResponseView::Error(error_line(e@)),
        (
            TransactionRequestView::Query(q),
            DriverOutcome::Rows(rows),
        ) => TransactionResponseView::QueryResult(result_of_rows(rows@)),
        (TransactionRequestView::Query(q), DriverOutcome::Failed(e)) => TransactionResponseView::Error(
            alias_failure(q.db_alias, e@),
        ),
        (
            TransactionRequestView::Upsert(q),
            DriverOutcome::Affected(n),
        ) => TransactionResponseView::UpsertResult(n),
        (
            TransactionRequestView::Upsert(q),
            DriverOutcome::Failed(e),
        ) => TransactionResponseView::Error(alias_failure(q.db_alias, e@)),
        _ => TransactionResponseView::Error(error_line("unexpected outcome"@)),
    }
}

fn failure_response(message: &str) -> (r: TransactionResponse)
    ensures
        r@ == TransactionResponseView::Error(error_line(message@)),
{
    let mut buf: Vec<char> = Vec::new();
    push_str(&mut buf, "ERROR ");
    push_str(&mut buf, message);
    TransactionResponse::Error(string_of(&buf))
}

fn alias_failure_response(alias: &str, message: &str) -> (r: TransactionResponse)
    ensures
        r@ == TransactionResponseView::Error(alias_failure(alias@, message@)),
{
    let mut buf: Vec<char> = Vec::new();
    push_str(&mut buf, "ERROR ");
    push_str(&mut buf, "db alias ");
    push_str(&mut buf, alias);
    push_str(&mut buf, " : ");
    push_str(&mut buf, message);
    assert(buf@ =~= alias_failure(alias@, message@));
    TransactionResponse::Error(string_of(&buf))
}

/// What the worker sends back for `request` once the driver has given
/// `outcome`, and whether the transaction has ended with it. A commit or a
/// rollback ends the transaction whether or not it went through.
pub fn transaction_reply(request: TransactionRequest, outcome: DriverOutcome) -> (reply:
    TransactionReply)
    ensures
        reply.response@ == response_of(request@, outcome),
        reply.ends_transaction == ends_transaction(request@),
{
    match request {
        TransactionRequest::Commit => {
            let response = match outcome {
                DriverOutcome::Done => TransactionResponse::Done,
                DriverOutcome::Failed(e) => failure_response(e.as_str()),
                _ => failure_response("unexpected outcome"),
            };
            TransactionReply { response, ends_transaction: true }
        },
        TransactionRequest::Rollback => {
            let response = match outcome {
                DriverOutcome::Done => TransactionResponse::Done,
                DriverOutcome::Failed(e) => failure_response(e.as_str()),
                _ => failure_response("unexpected outcome"),
            };
            TransactionReply { response, ends_transaction: true }
        },
        TransactionRequest::Query(q) => {
            let response = match outcome {
                DriverOutcome::Rows(rows) => TransactionResponse::QueryResult(
                    rows_to_result(&rows),
                ),
                DriverOutcome::Failed(e) => alias_failure_response(
                    q.db_alias.as_str(),
                    e.as_str(),
                ),
                _ => failure_response("unexpected outcome"),
            };
            TransactionReply { response, ends_transaction: false }
        },
        TransactionRequest::Upsert(q) => {
            let response = match outcome {
                DriverOutcome::Affected(n) => TransactionResponse::UpsertResult(n),
                DriverOutcome::Failed(e) => alias_failure_response(
                    q.db_alias.as_str(),
                    e.as_str(),
                ),
                _ => failure_response("unexpected outcome"),
            };
            TransactionReply { response, ends_transaction: false }
        },
    }
}

/// How the worker goes on once it has tried to send a response.
#[derive(Clone, Copy, Debug, PartialEq, Eq, Structural)]
pub enum WorkerNext {
    /// Wait for the next request in the open transaction.
    Receive,
    /// Begin the next transaction on the same connection.
    Begin,
    /// The session is gone: end quietly.
    Stop,
}

/// How the worker goes on after it has tried to send a response.
pub open spec fn next_of(ended: bool, sent: bool) -> WorkerNext {
    if !sent {
        WorkerNext::Stop
    } else if ended {
        WorkerNext::Begin
    } else {
        WorkerNext::Receive
    }
}

/// How the worker goes on after it has tried to send a response: `ended`
/// says whether the response closed the transaction, `sent` whether the
/// session took it. A session that takes no response is gone, and the
/// worker ends.
pub fn after_send(ended: bool, sent: bool) -> (next: WorkerNext)
    ensures
        next == next_of(ended, sent),
{
    if !sent {
        WorkerNext::Stop
    } else if ended {
        WorkerNext::Begin
    } else {
        WorkerNext::Receive
    }
}

} // verus!
