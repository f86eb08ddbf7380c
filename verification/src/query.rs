//! The values that travel between scripts, the transaction session and the
//! database workers.

use vstd::prelude::*;

verus! {

/// One bound parameter of a statement.
///
/// `Float` carries the IEEE-754 binary64 bit pattern of the number; `Date`
/// carries an RFC 3339 timestamp in UTC.
#[derive(Clone, Debug)]
pub enum QueryParam {
    Null,
    Bool(bool),
    Number(i64),
    Float(u64),
    String(String),
    Date(String),
}

/// A [`QueryParam`] as a mathematical value.
pub enum ParamView {
    Null,
    Bool(bool),
    Number(i64),
    Float(u64),
    Text(Seq<char>),
    Date(Seq<char>),
}

impl View for QueryParam {
    type V = ParamView;

    open spec fn view(&self) -> ParamView {
        match self {
            QueryParam::Null => ParamView::Null,
            QueryParam::Bool(b) => ParamView::Bool(*b),
            QueryParam::Number(n) => ParamView::Number(*n),
            QueryParam::Float(bits) => ParamView::Float(*bits),
            QueryParam::String(s) => ParamView::Text(s@),
            QueryParam::Date(s) => ParamView::Date(s@),
        }
    }
}

impl DeepView for QueryParam {
    type V = ParamView;

    open spec fn deep_view(&self) -> ParamView {
        self@
    }
}

/// A statement with its parameters, addressed to one database alias.
#[derive(Clone, Debug)]
pub struct QueryData {
    pub db_alias: String,
    pub query: String,
    pub params: Vec<QueryParam>,
}

/// A [`QueryData`] as a mathematical value.
pub struct QueryDataView {
    pub db_alias: Seq<char>,
    pub query: Seq<char>,
    pub params: Seq<ParamView>,
}

impl View for QueryData {
    type V = QueryDataView;

    open spec fn view(&self) -> QueryDataView {
        QueryDataView {
            db_alias: self.db_alias@,
            query: self.query@,
            params: self.params.deep_view(),
        }
    }
}

/// The rows a query gave, every cell as text, with the names and the types
/// of the columns.
#[derive(Clone, Debug)]
pub struct QueryResult {
    pub rows: Vec<Vec<String>>,
    pub row_names: Vec<String>,
    pub row_types: Vec<String>,
}

/// A [`QueryResult`] as a mathematical value.
pub struct QueryResultView {
    pub rows: Seq<Seq<Seq<char>>>,
    pub row_names: Seq<Seq<char>>,
    pub row_types: Seq<Seq<char>>,
}

impl View for QueryResult {
    type V = QueryResultView;

    open spec fn view(&self) -> QueryResultView {
        QueryResultView {
            rows: self.rows.deep_view(),
            row_names: self.row_names.deep_view(),
            row_types: self.row_types.deep_view(),
        }
    }
}

/// What an isolate asks of its session worker.
#[derive(Clone, Debug)]
pub enum TransactionSessionRequest {
    ReloadDBAliases,
    CreateTransaction(String),
    CloseAll(bool),
    Query(QueryData),
    Upsert(QueryData),
}

/// A [`TransactionSessionRequest`] as a mathematical value.
pub enum SessionRequestView {
    ReloadDBAliases,
    CreateTransaction(Seq<char>),
    CloseAll(bool),
    Query(QueryDataView),
    Upsert(QueryDataView),
}

impl View for TransactionSessionRequest {
    type V = SessionRequestView;

    open spec fn view(&self) -> SessionRequestView {
        match self {
            TransactionSessionRequest::ReloadDBAliases => SessionRequestView::ReloadDBAliases,
            TransactionSessionRequest::CreateTransaction(alias) => {
                SessionRequestView::CreateTransaction(alias@)
            },
            TransactionSessionRequest::CloseAll(commit) => SessionRequestView::CloseAll(*commit),
            TransactionSessionRequest::Query(q) => SessionRequestView::Query(q@),
            TransactionSessionRequest::Upsert(q) => SessionRequestView::Upsert(q@),
        }
    }
}

/// What the session worker answers.
#[derive(Clone, Debug)]
pub enum TransactionSessionResponse {
    Done,
    Transaction(String),
    Error(String),
    QueryResult(QueryResult),
    UpsertResult(u64),
}

/// A [`TransactionSessionResponse`] as a mathematical value.
pub enum SessionResponseView {
    Done,
    Transaction(Seq<char>),
    Error(Seq<char>),
    QueryResult(QueryResultView),
    UpsertResult(u64),
}

impl View for TransactionSessionResponse {
    type V = SessionResponseView;

    open spec fn view(&self) -> SessionResponseView {
        match self {
            TransactionSessionResponse::Done => SessionResponseView::Done,
            TransactionSessionResponse::Transaction(name) => SessionResponseView::Transaction(
                name@,
            ),
            TransactionSessionResponse::Error(msg) => SessionResponseView::Error(msg@),
            TransactionSessionResponse::QueryResult(r) => SessionResponseView::QueryResult(r@),
            TransactionSessionResponse::UpsertResult(n) => SessionResponseView::UpsertResult(*n),
        }
    }
}

/// What the session worker asks of the worker that owns one transaction.
#[derive(Clone, Debug)]
pub enum TransactionRequest {
    Commit,
    Rollback,
    Query(QueryData),
    Upsert(QueryData),
}

/// A [`TransactionRequest`] as a mathematical value.
pub enum TransactionRequestView {
    Commit,
    Rollback,
    Query(QueryDataView),
    Upsert(QueryDataView),
}

impl View for TransactionRequest {
    type V = TransactionRequestView;

    open spec fn view(&self) -> TransactionRequestView {
        match self {
            TransactionRequest::Commit => TransactionRequestView::Commit,
            TransactionRequest::Rollback => TransactionRequestView::Rollback,
            TransactionRequest::Query(q) => TransactionRequestView::Query(q@),
            TransactionRequest::Upsert(q) => TransactionRequestView::Upsert(q@),
        }
    }
}

/// What the worker that owns one transaction answers.
#[derive(Clone, Debug)]
pub enum TransactionResponse {
    Done,
    Error(String),
    QueryResult(QueryResult),
    UpsertResult(u64),
}

/// A [`TransactionResponse`] as a mathematical value.
pub enum TransactionResponseView {
    Done,
    Error(Seq<char>),
    QueryResult(QueryResultView),
    UpsertResult(u64),
}

impl View for TransactionResponse {
    type V = TransactionResponseView;

    open spec fn view(&self) -> TransactionResponseView {
        match self {
            TransactionResponse::Done => TransactionResponseView::Done,
            TransactionResponse::Error(msg) => TransactionResponseView::Error(msg@),
            TransactionResponse::QueryResult(r) => TransactionResponseView::QueryResult(r@),
            TransactionResponse::UpsertResult(n) => TransactionResponseView::UpsertResult(*n),
        }
    }
}

} // verus!
