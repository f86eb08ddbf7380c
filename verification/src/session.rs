//! The decisions of a session worker.
//!
//! A session worker belongs to one isolate. It keeps the directory of
//! database aliases, the names it has given out during the current request
//! and the set of open transaction workers. The loop that receives requests
//! and talks to the transaction workers lives outside; every decision it
//! takes is a call into this module.

use vstd::prelude::*;
use crate::collections::{distinct, first_index, lemma_first_index, NameMap};
use crate::constants::{DATABASE_TABLE, DB_TYPE_POSTGRES, MAIN_DB};
use crate::query::{
    QueryData,
    SessionResponseView,
    TransactionRequest,
    TransactionRequestView,
    TransactionResponse,
    TransactionResponseView,
    TransactionSessionRequest,
    TransactionSessionResponse,
};
use crate::text::{
    decimal,
    lemma_decimal_injective,
    lemma_decimal_nonempty,
    push_decimal,
    push_str,
    same_text,
    string_of,
    texts,
};

verus! {

/// The kinds of database an alias can point to.
#[derive(Clone, Debug)]
pub enum SupportedDatabases {
    Postgres,
    Unsupported(String),
}

/// A [`SupportedDatabases`] as a mathematical value.
pub enum DatabaseKind {
    Postgres,
    Unsupported(Seq<char>),
}

impl View for SupportedDatabases {
    type V = DatabaseKind;

    open spec fn view(&self) -> DatabaseKind {
        match self {
            SupportedDatabases::Postgres => DatabaseKind::Postgres,
            SupportedDatabases::Unsupported(tag) => DatabaseKind::Unsupported(tag@),
        }
    }
}

/// The tag under which the aliases table names a kind.
pub open spec fn kind_tag(kind: DatabaseKind) -> Seq<char> {
    match kind {
        DatabaseKind::Postgres => DB_TYPE_POSTGRES@,
        DatabaseKind::Unsupported(tag) => tag,
    }
}

/// The kind that a tag of the aliases table names.
pub open spec fn kind_of_tag(tag: Seq<char>) -> DatabaseKind {
    if tag == DB_TYPE_POSTGRES@ {
        DatabaseKind::Postgres
    } else {
        DatabaseKind::Unsupported(tag)
    }
}

impl SupportedDatabases {
    /// The tag under which the aliases table names this kind.
    pub fn tag(&self) -> (out: String)
        ensures
            out@ == kind_tag(self@),
    {
        match self {
            SupportedDatabases::Postgres => DB_TYPE_POSTGRES.to_owned(),
            SupportedDatabases::Unsupported(tag) => tag.clone(),
        }
    }

    /// The kind that a tag of the aliases table names.
    pub fn from_tag(tag: String) -> (kind: Self)
        ensures
            kind@ == kind_of_tag(tag@),
    {
        if same_text(DB_TYPE_POSTGRES, tag.as_str()) {
            SupportedDatabases::Postgres
        } else {
            SupportedDatabases::Unsupported(tag)
        }
    }
}

/// What the directory knows of one alias.
#[derive(Clone, Debug)]
pub struct DBAliasInfo {
    pub db_type: SupportedDatabases,
    pub connection_string: String,
}

/// A [`DBAliasInfo`] as a mathematical value.
pub struct AliasInfoView {
    pub kind: DatabaseKind,
    pub connection_string: Seq<char>,
}

impl View for DBAliasInfo {
    type V = AliasInfoView;

    open spec fn view(&self) -> AliasInfoView {
        AliasInfoView { kind: self.db_type@, connection_string: self.connection_string@ }
    }
}

/// The kind of transaction that an open worker holds.
#[derive(Clone, Copy, Debug, PartialEq, Eq)]
pub enum Transaction {
    Postgres,
}

/// Why a session worker turns a request down.
#[derive(Clone, Debug)]
pub enum SessionError {
    /// The directory does not know the alias.
    AliasNotFound(String),
    /// The alias points to a kind of database that has no driver.
    UnsupportedDatabase(String),
    /// No transaction is open under the name.
    AliasMissing(String),
}

/// A [`SessionError`] as a mathematical value.
pub enum SessionErrorView {
    AliasNotFound(Seq<char>),
    UnsupportedDatabase(Seq<char>),
    AliasMissing(Seq<char>),
}

impl View for SessionError {
    type V = SessionErrorView;

    open spec fn view(&self) -> SessionErrorView {
        match self {
            SessionError::AliasNotFound(a) => SessionErrorView::AliasNotFound(a@),
            SessionError::UnsupportedDatabase(t) => SessionErrorView::UnsupportedDatabase(t@),
            SessionError::AliasMissing(a) => SessionErrorView::AliasMissing(a@),
        }
    }
}

/// The text of an error.
pub open spec fn error_message(e: SessionErrorView) -> Seq<char> {
    match e {
        SessionErrorView::AliasNotFound(a) => "db alias not found : "@ + a,
        SessionErrorView::UnsupportedDatabase(t) => "unsupported database type "@ + t,
        SessionErrorView::AliasMissing(a) => "alias "@ + a + " is missing"@,
    }
}

/// The text of the response that reports a failure.
pub open spec fn error_line(message: Seq<char>) -> Seq<char> {
    "ERROR "@ + message
}

impl SessionError {
    /// The text of the error.
    pub fn message(&self) -> (out: String)
        ensures
            out@ == error_message(self@),
    {
        let mut buf: Vec<char> = Vec::new();
        match self {
            SessionError::AliasNotFound(a) => {
                push_str(&mut buf, "db alias not found : ");
                push_str(&mut buf, a.as_str());
            },
            SessionError::UnsupportedDatabase(t) => {
                push_str(&mut buf, "unsupported database type ");
                push_str(&mut buf, t.as_str());
            },
            SessionError::AliasMissing(a) => {
                push_str(&mut buf, "alias ");
                push_str(&mut buf, a.as_str());
                push_str(&mut buf, " is missing");
            },
        }
        string_of(&buf)
    }
}

/// The response that reports a failure with the text `message`.
pub fn error_response(message: &str) -> (r: TransactionSessionResponse)
    ensures
        r@ == SessionResponseView::Error(error_line(message@)),
{
    let mut buf: Vec<char> = Vec::new();
    push_str(&mut buf, "ERROR ");
    push_str(&mut buf, message);
    TransactionSessionResponse::Error(string_of(&buf))
}

/// The views of a sequence of directory entries.
pub open spec fn info_views(s: Seq<DBAliasInfo>) -> Seq<AliasInfoView> {
    Seq::new(s.len(), |i: int| s[i]@)
}

/// The state of a session worker as a mathematical value.
pub struct SessionView {
    /// The connection string of the main database.
    pub main_connection_string: Seq<char>,
    /// The aliases of the directory, in the order in which they came.
    pub directory_names: Seq<Seq<char>>,
    /// What the directory knows of each alias.
    pub directory: Seq<AliasInfoView>,
    /// The names given out during the current request.
    pub taken: Seq<Seq<char>>,
    /// The alias under which each of these names was last asked for.
    pub asked: Seq<Seq<char>>,
    /// The names of the open transaction workers.
    pub pool: Seq<Seq<char>>,
    /// Whether the directory was read again since the session began.
    pub dirty: bool,
}

/// The directory entry of the main database.
pub open spec fn main_entry(connection_string: Seq<char>) -> AliasInfoView {
    AliasInfoView { kind: DatabaseKind::Postgres, connection_string }
}

/// The directory entry that a row of the aliases table describes.
pub open spec fn row_entry(row: Seq<Seq<char>>) -> AliasInfoView {
    AliasInfoView { kind: kind_of_tag(row[1]), connection_string: row[2] }
}

/// `names` and `infos` after `info` is put under `alias`.
pub open spec fn directory_put(
    names: Seq<Seq<char>>,
    infos: Seq<AliasInfoView>,
    alias: Seq<char>,
    info: AliasInfoView,
) -> (Seq<Seq<char>>, Seq<AliasInfoView>) {
    match first_index(names, alias) {
        Some(i) => (names, infos.update(i, info)),
        None => (names.push(alias), infos.push(info)),
    }
}

/// The directory that holds the main database and what `rows` describe:
/// a later row replaces an earlier one for the same alias, and a row for
/// the main alias is passed over.
pub open spec fn directory_of(main_connection_string: Seq<char>, rows: Seq<Seq<Seq<char>>>) -> (
    Seq<Seq<char>>,
    Seq<AliasInfoView>,
)
    decreases rows.len(),
{
    if rows.len() == 0 {
        (seq![MAIN_DB@], seq![main_entry(main_connection_string)])
    } else {
        let before = directory_of(main_connection_string, rows.drop_last());
        let row = rows.last();
        if row[0] == MAIN_DB@ {
            before
        } else {
            directory_put(before.0, before.1, row[0], row_entry(row))
        }
    }
}

/// The names of `pool` that are aliases of the directory, in order.
pub open spec fn still_known(pool: Seq<Seq<char>>, names: Seq<Seq<char>>) -> Seq<Seq<char>>
    decreases pool.len(),
{
    if pool.len() == 0 {
        pool
    } else if first_index(names, pool.last()) is Some {
        still_known(pool.drop_last(), names).push(pool.last())
    } else {
        still_known(pool.drop_last(), names)
    }
}

/// The names of `pool` that are no aliases of the directory, in order.
pub open spec fn forgotten(pool: Seq<Seq<char>>, names: Seq<Seq<char>>) -> Seq<Seq<char>>
    decreases pool.len(),
{
    if pool.len() == 0 {
        pool
    } else if first_index(names, pool.last()) is Some {
        forgotten(pool.drop_last(), names)
    } else {
        forgotten(pool.drop_last(), names).push(pool.last())
    }
}

impl SessionView {
    /// The state in which a session begins: the directory holds the main
    /// database, its transaction is open, and no name is given out.
    pub open spec fn fresh(connection_string: Seq<char>) -> SessionView {
        SessionView {
            main_connection_string: connection_string,
            directory_names: seq![MAIN_DB@],
            directory: seq![main_entry(connection_string)],
            taken: Seq::empty(),
            asked: Seq::empty(),
            pool: seq![MAIN_DB@],
            dirty: false,
        }
    }

    /// What holds of every state a session goes through.
    pub open spec fn wf(self) -> bool {
        &&& self.directory_names.len() == self.directory.len()
        &&& distinct(self.directory_names)
        &&& self.directory_names.len() >= 1
        &&& self.directory_names[0] == MAIN_DB@
        &&& self.directory[0] == main_entry(self.main_connection_string)
        &&& self.taken.len() == self.asked.len()
        &&& distinct(self.taken)
        &&& distinct(self.pool)
        &&& first_index(self.pool, MAIN_DB@) is Some
        &&& (!self.dirty ==> self.directory_names.len() == 1)
    }

    /// The name under which a transaction for `alias` is handed out: the
    /// alias itself, or, where that name is taken, the alias followed by
    /// an underscore and the number of names taken so far.
    pub open spec fn canonical_name(self, alias: Seq<char>) -> Seq<char> {
        if first_index(self.taken, alias) is Some {
            alias + seq!['_'] + decimal(self.taken.len())
        } else {
            alias
        }
    }

    /// Why a transaction for `alias` cannot be handed out, if it cannot.
    pub open spec fn create_error(self, alias: Seq<char>) -> Option<SessionErrorView> {
        match first_index(self.directory_names, alias) {
            None => Some(SessionErrorView::AliasNotFound(alias)),
            Some(i) => match self.directory[i].kind {
                DatabaseKind::Unsupported(tag) => if first_index(
                    self.pool,
                    self.canonical_name(alias),
                ) is None {
                    Some(SessionErrorView::UnsupportedDatabase(tag))
                } else {
                    None
                },
                DatabaseKind::Postgres => None,
            },
        }
    }

    /// Whether handing out a transaction for `alias` starts a new worker.
    pub open spec fn opens_worker(self, alias: Seq<char>) -> bool {
        self.create_error(alias) is None && first_index(self.pool, self.canonical_name(alias))
            is None
    }

    /// The state after a transaction for `alias` was asked for.
    pub open spec fn after_create(self, alias: Seq<char>) -> SessionView {
        if self.create_error(alias) is Some {
            self
        } else {
            let name = self.canonical_name(alias);
            let pool = if self.opens_worker(alias) {
                self.pool.push(name)
            } else {
                self.pool
            };
            match first_index(self.taken, name) {
                Some(j) => SessionView { pool, asked: self.asked.update(j, alias), ..self },
                None => SessionView {
                    pool,
                    taken: self.taken.push(name),
                    asked: self.asked.push(alias),
                    ..self
                },
            }
        }
    }

    /// The state after every transaction was closed: no name is given out
    /// any more; after the directory was read again only the main
    /// transaction is open, else those whose name the directory knows.
    pub open spec fn after_close(self) -> SessionView {
        SessionView {
            taken: Seq::empty(),
            asked: Seq::empty(),
            pool: if self.dirty {
                seq![MAIN_DB@]
            } else {
                still_known(self.pool, self.directory_names)
            },
            ..self
        }
    }

    /// The workers that are dropped when every transaction is closed.
    pub open spec fn dropped_on_close(self) -> Seq<Seq<char>> {
        if self.dirty {
            self.pool
        } else {
            forgotten(self.pool, self.directory_names)
        }
    }

    /// The state after the directory was read again and gave `rows`.
    pub open spec fn after_reload(self, rows: Seq<Seq<Seq<char>>>) -> SessionView {
        let d = directory_of(self.main_connection_string, rows);
        SessionView { directory_names: d.0, directory: d.1, dirty: true, ..self }
    }
}

/// A directory built from rows begins with the main database, holds no
/// alias twice and has one entry for each alias.
pub proof fn lemma_directory_of(main_connection_string: Seq<char>, rows: Seq<Seq<Seq<char>>>)
    ensures
        ({
            let d = directory_of(main_connection_string, rows);
            &&& d.0.len() == d.1.len()
            &&& d.0.len() >= 1
            &&& distinct(d.0)
            &&& d.0[0] == MAIN_DB@
            &&& d.1[0] == main_entry(main_connection_string)
        }),
    decreases rows.len(),
{
    if rows.len() > 0 {
        lemma_directory_of(main_connection_string, rows.drop_last());
        let before = directory_of(main_connection_string, rows.drop_last());
        let row = rows.last();
        if row[0] != MAIN_DB@ {
            lemma_first_index(before.0, row[0]);
        }
    }
}

/// Among the names of a pool without repetition, those that stand in a
/// directory of the main database alone are the main name, if the pool
/// holds it, and none else.
proof fn lemma_still_known_main(pool: Seq<Seq<char>>)
    requires
        distinct(pool),
    ensures
        still_known(pool, seq![MAIN_DB@]) == if first_index(pool, MAIN_DB@) is Some {
            seq![MAIN_DB@]
        } else {
            Seq::<Seq<char>>::empty()
        },
    decreases pool.len(),
{
    let names = seq![MAIN_DB@];
    if pool.len() > 0 {
        let rest = pool.drop_last();
        lemma_still_known_main(rest);
        lemma_first_index(rest, MAIN_DB@);
        lemma_first_index(pool, MAIN_DB@);
        lemma_first_index(names, pool.last());
        assert(names[0] == MAIN_DB@);
        if first_index(names, pool.last()) is Some {
            assert(pool.last() == MAIN_DB@);
            if first_index(rest, MAIN_DB@) is Some {
                let i = first_index(rest, MAIN_DB@)->0;
                assert(pool[i] == rest[i]);
                assert(pool[i] == pool[pool.len() - 1]);
            }
            assert(still_known(pool, names) == Seq::<Seq<char>>::empty().push(MAIN_DB@));
        } else {
            assert(pool.last() != MAIN_DB@);
        }
    } else {
        assert(first_index(pool, MAIN_DB@) is None);
    }
}

/// After every transaction was closed, a session is where a fresh one
/// begins, but for the directory and the mark that it was read again: the
/// main transaction is the only open one and no name is given out.
pub proof fn lemma_close_resets(s: SessionView)
    requires
        s.wf(),
    ensures
        s.after_close().wf(),
        s.after_close().pool == SessionView::fresh(s.main_connection_string).pool,
        s.after_close().taken == SessionView::fresh(s.main_connection_string).taken,
        s.after_close().asked == SessionView::fresh(s.main_connection_string).asked,
        s.after_close().pool == seq![MAIN_DB@],
        s.after_close().taken.len() == 0,
{
    if !s.dirty {
        assert(s.directory_names == seq![MAIN_DB@]);
        lemma_still_known_main(s.pool);
    }
    let p = seq![MAIN_DB@];
    assert(p.drop_last() == Seq::<Seq<char>>::empty());
    assert(first_index(p.drop_last(), MAIN_DB@) is None);
    assert(first_index(p, MAIN_DB@) is Some);
}

/// The state in which a session begins is well formed.
pub proof fn lemma_fresh_wf(connection_string: Seq<char>)
    ensures
        SessionView::fresh(connection_string).wf(),
{
    let p = seq![MAIN_DB@];
    assert(p.drop_last() == Seq::<Seq<char>>::empty());
    assert(first_index(p.drop_last(), MAIN_DB@) is None);
    assert(first_index(p, MAIN_DB@) is Some);
}

/// Asking for a transaction keeps the state well formed.
pub proof fn lemma_create_wf(s: SessionView, alias: Seq<char>)
    requires
        s.wf(),
    ensures
        s.after_create(alias).wf(),
{
    if s.create_error(alias) is None {
        let name = s.canonical_name(alias);
        lemma_first_index(s.taken, name);
        lemma_first_index(s.pool, name);
        lemma_first_index(s.pool, MAIN_DB@);
        let t = s.after_create(alias);
        let i = first_index(s.pool, MAIN_DB@)->0;
        assert(t.pool[i] == MAIN_DB@);
        lemma_first_index(t.pool, MAIN_DB@);
    }
}

/// Reading the directory again keeps the state well formed.
pub proof fn lemma_reload_wf(s: SessionView, rows: Seq<Seq<Seq<char>>>)
    requires
        s.wf(),
    ensures
        s.after_reload(rows).wf(),
{
    lemma_directory_of(s.main_connection_string, rows);
}

/// Asking twice in a row for a transaction on one alias gives two
/// different names, unless the alias is taken and the name made from it
/// and the number of taken names is taken as well.
pub proof fn lemma_create_twice_distinct(s: SessionView, alias: Seq<char>)
    requires
        s.wf(),
        s.create_error(alias) is None,
        s.after_create(alias).create_error(alias) is None,
        !(first_index(s.taken, alias) is Some && first_index(
            s.taken,
            alias + seq!['_'] + decimal(s.taken.len()),
        ) is Some),
    ensures
        s.canonical_name(alias) != s.after_create(alias).canonical_name(alias),
{
    let first = s.canonical_name(alias);
    let t = s.after_create(alias);
    let second = t.canonical_name(alias);
    lemma_first_index(s.taken, alias);
    lemma_first_index(s.taken, first);
    assert(t.taken == s.taken.push(first));
    assert(t.taken[s.taken.len() as int] == first);
    lemma_first_index(t.taken, alias);
    lemma_decimal_nonempty(t.taken.len());
    if first_index(s.taken, alias) is Some {
        let i = first_index(s.taken, alias)->0;
        assert(t.taken[i] == alias);
        assert(first_index(t.taken, alias) is Some);
        let a = decimal(s.taken.len());
        let b = decimal(t.taken.len());
        let head = alias + seq!['_'];
        if first == second {
            assert((head + a).skip(head.len() as int) == a);
            assert((head + b).skip(head.len() as int) == b);
            lemma_decimal_injective(s.taken.len(), t.taken.len());
        }
    } else {
        assert(first == alias);
        assert(first_index(t.taken, alias) is Some);
        assert(second.len() > alias.len());
    }
}

/// The second of two names that a session hands out in a row for one alias
/// is the alias, an underscore and a number that is at least one.
pub proof fn lemma_second_name_numbered(s: SessionView, alias: Seq<char>)
    requires
        s.wf(),
        s.create_error(alias) is None,
    ensures
        s.after_create(alias).taken.len() >= 1,
        s.after_create(alias).canonical_name(alias) == alias + seq!['_'] + decimal(
            s.after_create(alias).taken.len(),
        ),
{
    let first = s.canonical_name(alias);
    let t = s.after_create(alias);
    lemma_first_index(s.taken, alias);
    lemma_first_index(s.taken, first);
    lemma_first_index(t.taken, alias);
    if first_index(s.taken, alias) is Some {
        let i = first_index(s.taken, alias)->0;
        assert(t.taken[i] == alias);
    } else {
        assert(t.taken == s.taken.push(alias));
        assert(t.taken[s.taken.len() as int] == alias);
    }
}


/// A name that is handed out was not handed out before in the same
/// request, unless the alias is taken and the name made from it and the
/// number of taken names is taken as well; and it is taken afterwards.
pub proof fn lemma_created_name_fresh(s: SessionView, alias: Seq<char>)
    requires
        s.wf(),
        s.create_error(alias) is None,
        !(first_index(s.taken, alias) is Some && first_index(
            s.taken,
            alias + seq!['_'] + decimal(s.taken.len()),
        ) is Some),
    ensures
        first_index(s.taken, s.canonical_name(alias)) is None,
        first_index(s.after_create(alias).taken, s.canonical_name(alias)) is Some,
{
    let name = s.canonical_name(alias);
    let t = s.after_create(alias);
    lemma_first_index(s.taken, alias);
    lemma_first_index(s.taken, name);
    assert(t.taken == s.taken.push(name));
    assert(t.taken[s.taken.len() as int] == name);
    lemma_first_index(t.taken, name);
}

/// Within a request the names that were handed out stay taken: asking for
/// another transaction forgets none of them.
pub proof fn lemma_taken_grows(s: SessionView, alias: Seq<char>, name: Seq<char>)
    requires
        s.wf(),
        first_index(s.taken, name) is Some,
    ensures
        first_index(s.after_create(alias).taken, name) is Some,
{
    let t = s.after_create(alias);
    lemma_first_index(s.taken, name);
    let i = first_index(s.taken, name)->0;
    if s.create_error(alias) is None {
        lemma_first_index(s.taken, s.canonical_name(alias));
        assert(t.taken[i] == name);
    }
    lemma_first_index(t.taken, name);
}

/// No name of `still_known` comes from outside the pool.
proof fn lemma_still_known_subset(pool: Seq<Seq<char>>, names: Seq<Seq<char>>, k: Seq<char>)
    requires
        first_index(pool, k) is None,
    ensures
        first_index(still_known(pool, names), k) is None,
    decreases pool.len(),
{
    if pool.len() > 0 {
        let rest = pool.drop_last();
        lemma_still_known_subset(rest, names, k);
        let inner = still_known(rest, names);
        assert(inner.push(pool.last()).drop_last() =~= inner);
    }
}

/// A transaction that was handed out.
#[derive(Clone, Debug)]
pub struct Opened {
    /// The name under which the transaction is addressed.
    pub name: String,
    /// The connection string of the worker to start for it, where none
    /// was open under the name.
    pub connect: Option<String>,
}

/// What the loop does to close every transaction.
#[derive(Clone, Debug)]
pub struct ClosePlan {
    /// Whether the transactions are committed; else they are rolled back.
    pub commit: bool,
    /// The workers whose transaction is ended, in this order.
    pub finish: Vec<String>,
    /// The workers that are dropped afterwards.
    pub dropped: Vec<String>,
    /// The connection string of the worker to start for the main database,
    /// where its worker was dropped.
    pub reopen_main: Option<String>,
}

/// What the loop does for one request.
#[derive(Clone, Debug)]
pub enum SessionStep {
    /// Answer at once.
    Reply(TransactionSessionResponse),
    /// Run the query on the main worker and hand what it answers to
    /// `finish_reload`.
    Reload(QueryData),
    /// Start a worker under `name`, then answer with `reply`.
    Open { name: String, connection_string: String, reply: TransactionSessionResponse },
    /// Carry out the plan, then answer that it is done.
    Close(ClosePlan),
    /// Send the request to the worker `name` and answer with what
    /// `query_reply` or `upsert_reply` makes of its response.
    Forward { name: String, request: TransactionRequest },
}

/// The state of a session worker.
pub struct TransactionsThread {
    main_connection_string: String,
    db_alias_info: NameMap<DBAliasInfo>,
    db_aliases: NameMap<String>,
    dirty: bool,
    db_pool: NameMap<Transaction>,
}

impl View for TransactionsThread {
    type V = SessionView;

    closed spec fn view(&self) -> SessionView {
        SessionView {
            main_connection_string: self.main_connection_string@,
            directory_names: self.db_alias_info.keys(),
            directory: info_views(self.db_alias_info.values()),
            taken: self.db_aliases.keys(),
            asked: texts(self.db_aliases.values()),
            pool: self.db_pool.keys(),
            dirty: self.dirty,
        }
    }
}

/// The query that reads the directory of aliases.
pub open spec fn reload_statement() -> Seq<char> {
    "SELECT db_alias, db_type, db_connection_string FROM "@ + DATABASE_TABLE@
}

/// Every row has the three columns of the aliases table.
pub open spec fn alias_rows(rows: Seq<Seq<Seq<char>>>) -> bool {
    forall|i: int| 0 <= i < rows.len() ==> (#[trigger] rows[i]).len() >= 3
}

impl TransactionsThread {
    /// The state is one that a session can be in.
    pub closed spec fn inv(&self) -> bool {
        &&& self.db_alias_info.wf()
        &&& self.db_aliases.wf()
        &&& self.db_pool.wf()
        &&& self@.wf()
    }

    /// A state that a session can be in is well formed.
    pub proof fn lemma_inv(&self)
        requires
            self.inv(),
        ensures
            self@.wf(),
    {
    }

    /// The state in which a session begins. The loop starts the worker of
    /// the main database with `main_connection_string`.
    pub fn new(main_connection_string: String) -> (state: Self)
        ensures
            state.inv(),
            state@ == SessionView::fresh(main_connection_string@),
    {
        let mut db_alias_info: NameMap<DBAliasInfo> = NameMap::new();
        db_alias_info.insert(
            MAIN_DB.to_owned(),
            DBAliasInfo {
                db_type: SupportedDatabases::Postgres,
                connection_string: main_connection_string.clone(),
            },
        );
        let mut db_pool: NameMap<Transaction> = NameMap::new();
        db_pool.insert(MAIN_DB.to_owned(), Transaction::Postgres);
        let state = TransactionsThread {
            main_connection_string,
            db_alias_info,
            db_aliases: NameMap::new(),
            dirty: false,
            db_pool,
        };
        proof {
            let fresh = SessionView::fresh(main_connection_string@);
            lemma_fresh_wf(main_connection_string@);
            state.db_alias_info.lemma_wf();
            state.db_pool.lemma_wf();
            assert(state@.directory_names =~= fresh.directory_names);
            assert(state@.directory =~= fresh.directory);
            assert(state@.taken =~= fresh.taken);
            assert(state@.asked =~= fresh.asked);
            assert(state@.pool =~= fresh.pool);
        }
        state
    }

    /// The connection string of the main database.
    pub fn main_connection_string(&self) -> (cs: &String)
        ensures
            cs@ == self@.main_connection_string,
    {
        &self.main_connection_string
    }

    /// Whether a transaction is open under `name`.
    pub fn is_open(&self, name: &str) -> (r: bool)
        requires
            self.inv(),
        ensures
            r == (first_index(self@.pool, name@) is Some),
    {
        self.db_pool.contains_key(name)
    }

    /// The query that reads the directory of aliases, addressed to the
    /// main database.
    pub fn reload_query() -> (q: QueryData)
        ensures
            q@.db_alias == MAIN_DB@,
            q@.query == reload_statement(),
            q@.params.len() == 0,
    {
        let mut buf: Vec<char> = Vec::new();
        push_str(&mut buf, "SELECT db_alias, db_type, db_connection_string FROM ");
        push_str(&mut buf, DATABASE_TABLE);
        QueryData { db_alias: MAIN_DB.to_owned(), query: string_of(&buf), params: Vec::new() }
    }

    /// Replaces the directory by the main database and what `rows`
    /// describe, and marks the session as one whose directory was read
    /// again.
    pub fn reload_db_aliases(&mut self, rows: &Vec<Vec<String>>)
        requires
            old(self).inv(),
            alias_rows(rows.deep_view()),
        ensures
            final(self).inv(),
            final(self)@ == old(self)@.after_reload(rows.deep_view()),
    {
        let ghost cs = self.main_connection_string@;
        let ghost all = rows.deep_view();
        let mut directory: NameMap<DBAliasInfo> = NameMap::new();
        directory.insert(
            MAIN_DB.to_owned(),
            DBAliasInfo {
                db_type: SupportedDatabases::Postgres,
                connection_string: self.main_connection_string.clone(),
            },
        );
        proof {
            directory.lemma_wf();
            assert(all.take(0) =~= Seq::<Seq<Seq<char>>>::empty());
            assert(directory.keys() =~= seq![MAIN_DB@]);
            assert(info_views(directory.values()) =~= seq![main_entry(cs)]);
        }
        let mut i: usize = 0;
        while i < rows.len()
            invariant
                i <= rows.len(),
                all == rows.deep_view(),
                alias_rows(all),
                directory.wf(),
                directory.keys() == directory_of(cs, all.take(i as int)).0,
                info_views(directory.values()) == directory_of(cs, all.take(i as int)).1,
            decreases rows.len() - i,
        {
            let row = &rows[i];
            proof {
                assert(all.take(i + 1).drop_last() =~= all.take(i as int));
                assert(all.take(i + 1).last() == all[i as int]);
                assert(all[i as int] == row.deep_view());
                assert(all[i as int].len() >= 3);
                assert(row.deep_view()[0] == row[0]@);
                assert(row.deep_view()[1] == row[1]@);
                assert(row.deep_view()[2] == row[2]@);
            }
            if !same_text(row[0].as_str(), MAIN_DB) {
                let ghost before_keys = directory.keys();
                let ghost before_values = directory.values();
                let info = DBAliasInfo {
                    db_type: SupportedDatabases::from_tag(row[1].clone()),
                    connection_string: row[2].clone(),
                };
                assert(info@ == row_entry(all[i as int]));
                proof {
                    directory.lemma_wf();
                }
                directory.insert(row[0].clone(), info);
                proof {
                    directory.lemma_wf();
                    match first_index(before_keys, row[0]@) {
                        Some(j) => {
                            lemma_first_index(before_keys, row[0]@);
                            assert(info_views(directory.values()) =~= info_views(
                                before_values,
                            ).update(j, info@));
                        },
                        None => {
                            assert(info_views(directory.values()) =~= info_views(
                                before_values,
                            ).push(info@));
                        },
                    }
                }
            }
            i += 1;
        }
        proof {
            assert(all.take(rows.len() as int) =~= all);
            lemma_reload_wf(self@, all);
        }
        self.db_alias_info = directory;
        self.dirty = true;
    }

    /// Hands out a transaction for `db_alias`: under the alias itself, or,
    /// where that name is taken, under the alias, an underscore and the
    /// number of names taken. Where no worker is open under the name, one
    /// is added to the pool and the loop is told to start it.
    pub fn db_create_alias(&mut self, db_alias: String) -> (r: Result<Opened, SessionError>)
        requires
            old(self).inv(),
        ensures
            final(self).inv(),
            final(self)@ == old(self)@.after_create(db_alias@),
            match r {
                Ok(opened) => {
                    &&& old(self)@.create_error(db_alias@) is None
                    &&& opened.name@ == old(self)@.canonical_name(db_alias@)
                    &&& match opened.connect {
                        Some(cs) => {
                            &&& old(self)@.opens_worker(db_alias@)
                            &&& cs@ == old(self)@.directory[first_index(
                                old(self)@.directory_names,
                                db_alias@,
                            )->0].connection_string
                        },
                        None => !old(self)@.opens_worker(db_alias@),
                    }
                },
                Err(e) => old(self)@.create_error(db_alias@) == Some(e@),
            },
    {
        proof {
            lemma_create_wf(self@, db_alias@);
            self.db_alias_info.lemma_wf();
            self.db_aliases.lemma_wf();
            self.db_pool.lemma_wf();
        }
        let found = self.db_alias_info.find(db_alias.as_str());
        let at = match found {
            Some(at) => at,
            None => {
                return Err(SessionError::AliasNotFound(db_alias));
            },
        };
        let name = if self.db_aliases.contains_key(db_alias.as_str()) {
            let mut buf: Vec<char> = Vec::new();
            push_str(&mut buf, db_alias.as_str());
            buf.push('_');
            push_decimal(&mut buf, self.db_aliases.len() as u64);
            assert(buf@ =~= db_alias@ + seq!['_'] + decimal(self@.taken.len()));
            string_of(&buf)
        } else {
            db_alias.clone()
        };
        let mut connect: Option<String> = None;
        if !self.db_pool.contains_key(name.as_str()) {
            let info = self.db_alias_info.value_at(at);
            match &info.db_type {
                SupportedDatabases::Unsupported(tag) => {
                    return Err(SessionError::UnsupportedDatabase(tag.clone()));
                },
                SupportedDatabases::Postgres => {
                    connect = Some(info.connection_string.clone());
                },
            }
            self.db_pool.insert(name.clone(), Transaction::Postgres);
        }
        let ghost before_asked = self.db_aliases.values();
        let ghost before_taken = self.db_aliases.keys();
        self.db_aliases.insert(name.clone(), db_alias);
        proof {
            let goal = old(self)@.after_create(db_alias@);
            self.db_aliases.lemma_wf();
            self.db_pool.lemma_wf();
            match first_index(before_taken, name@) {
                Some(j) => {
                    lemma_first_index(before_taken, name@);
                    assert(texts(self.db_aliases.values()) =~= texts(before_asked).update(
                        j,
                        db_alias@,
                    ));
                },
                None => {
                    assert(texts(self.db_aliases.values()) =~= texts(before_asked).push(
                        db_alias@,
                    ));
                },
            }
            assert(self@.pool == goal.pool);
            assert(self@.taken == goal.taken);
            assert(self@.asked == goal.asked);
        }
        Ok(Opened { name, connect })
    }

    /// Ends the request: every open transaction is to be committed or
    /// rolled back, the names given out are forgotten, and the pool is cut
    /// down to the main worker, started anew, where the directory was read
    /// again, else to the workers whose name the directory knows.
    pub fn close_transactions(&mut self, commit: bool) -> (plan: ClosePlan)
        requires
            old(self).inv(),
        ensures
            final(self).inv(),
            final(self)@ == old(self)@.after_close(),
            final(self)@.pool == seq![MAIN_DB@],
            final(self)@.taken.len() == 0,
            plan.commit == commit,
            plan.finish.deep_view() == old(self)@.pool,
            plan.dropped.deep_view() == old(self)@.dropped_on_close(),
            match plan.reopen_main {
                Some(cs) => old(self)@.dirty && cs@ == old(self)@.main_connection_string,
                None => !old(self)@.dirty,
            },
    {
        proof {
            lemma_close_resets(self@);
            self.db_alias_info.lemma_wf();
            self.db_aliases.lemma_wf();
            self.db_pool.lemma_wf();
        }
        let ghost pool = self.db_pool.keys();
        let ghost names = self.db_alias_info.keys();
        let mut finish: Vec<String> = Vec::new();
        let mut dropped: Vec<String> = Vec::new();
        let mut kept: NameMap<Transaction> = NameMap::new();
        let n = self.db_pool.len();
        let mut i: usize = 0;
        proof {
            assert(pool.take(0) =~= Seq::<Seq<char>>::empty());
            assert(finish.deep_view() =~= pool.take(0));
            assert(dropped.deep_view() =~= pool.take(0));
        }
        while i < n
            invariant
                i <= n,
                n == pool.len(),
                self.inv(),
                *self == *old(self),
                pool == self.db_pool.keys(),
                names == self.db_alias_info.keys(),
                distinct(pool),
                finish.deep_view() == pool.take(i as int),
                kept.wf(),
                self.dirty ==> dropped.deep_view() == pool.take(i as int),
                self.dirty ==> kept.keys() == Seq::<Seq<char>>::empty(),
                !self.dirty ==> kept.keys() == still_known(pool.take(i as int), names),
                !self.dirty ==> dropped.deep_view() == forgotten(pool.take(i as int), names),
            decreases n - i,
        {
            let key = self.db_pool.key_at(i);
            let ghost head = pool.take(i as int);
            let ghost next = pool.take(i + 1);
            proof {
                assert(next.drop_last() =~= head);
                assert(next.last() == key@);
            }
            let ghost finish_before = finish.deep_view();
            finish.push(key.clone());
            assert(finish.deep_view() =~= finish_before.push(key@));
            assert(next =~= head.push(key@));
            let ghost dropped_before = dropped.deep_view();
            if self.dirty {
                dropped.push(key.clone());
                assert(dropped.deep_view() =~= dropped_before.push(key@));
            } else if self.db_alias_info.contains_key(key.as_str()) {
                proof {
                    assert(first_index(head, key@) is None) by {
                        lemma_first_index(head, key@);
                        if first_index(head, key@) is Some {
                            let j = first_index(head, key@)->0;
                            assert(head[j] == pool[j]);
                        }
                    }
                    lemma_still_known_subset(head, names, key@);
                }
                kept.insert(key.clone(), Transaction::Postgres);
            } else {
                dropped.push(key.clone());
                assert(dropped.deep_view() =~= dropped_before.push(key@));
            }
            i += 1;
        }
        proof {
            assert(pool.take(n as int) =~= pool);
        }
        let reopen_main = if self.dirty {
            kept.insert(MAIN_DB.to_owned(), Transaction::Postgres);
            Some(self.main_connection_string.clone())
        } else {
            None
        };
        self.db_pool = kept;
        self.db_aliases.clear();
        proof {
            let goal = old(self)@.after_close();
            self.db_pool.lemma_wf();
            assert(self@.pool =~= goal.pool);
            assert(self@.taken =~= goal.taken);
            assert(self@.asked =~= goal.asked);
        }
        ClosePlan { commit, finish, dropped, reopen_main }
    }
}


/// What a session answers to a query once the worker has responded.
pub open spec fn query_reply_of(response: TransactionResponseView) -> SessionResponseView {
    match response {
        TransactionResponseView::QueryResult(rows) => SessionResponseView::QueryResult(rows),
        TransactionResponseView::Error(msg) => SessionResponseView::Error(error_line(msg)),
        _ => SessionResponseView::Error(error_line("unexpected response"@)),
    }
}

/// What a session answers to a statement once the worker has responded.
pub open spec fn upsert_reply_of(response: TransactionResponseView) -> SessionResponseView {
    match response {
        TransactionResponseView::UpsertResult(n) => SessionResponseView::UpsertResult(n),
        TransactionResponseView::Error(msg) => SessionResponseView::Error(error_line(msg)),
        _ => SessionResponseView::Error(error_line("unexpected response"@)),
    }
}

/// What a session answers to a query once the worker has responded with
/// `response`: the rows, or the failure that the worker or the response's
/// kind gives rise to.
pub fn query_reply(response: TransactionResponse) -> (reply: TransactionSessionResponse)
    ensures
        reply@ == query_reply_of(response@),
{
    match response {
        TransactionResponse::QueryResult(rows) => TransactionSessionResponse::QueryResult(rows),
        TransactionResponse::Error(msg) => error_response(msg.as_str()),
        _ => error_response("unexpected response"),
    }
}

/// What a session answers to a statement once the worker has responded
/// with `response`: the number of rows, or the failure that the worker or
/// the response's kind gives rise to.
pub fn upsert_reply(response: TransactionResponse) -> (reply: TransactionSessionResponse)
    ensures
        reply@ == upsert_reply_of(response@),
{
    match response {
        TransactionResponse::UpsertResult(n) => TransactionSessionResponse::UpsertResult(n),
        TransactionResponse::Error(msg) => error_response(msg.as_str()),
        _ => error_response("unexpected response"),
    }
}

/// Whether every row has the three columns of the aliases table.
pub fn are_alias_rows(rows: &Vec<Vec<String>>) -> (r: bool)
    ensures
        r == alias_rows(rows.deep_view()),
{
    let mut i: usize = 0;
    while i < rows.len()
        invariant
            i <= rows.len(),
            forall|j: int| 0 <= j < i ==> (#[trigger] rows.deep_view()[j]).len() >= 3,
        decreases rows.len() - i,
    {
        assert(rows.deep_view()[i as int] == rows[i as int].deep_view());
        if rows[i].len() < 3 {
            return false;
        }
        i += 1;
    }
    true
}

impl TransactionsThread {
    /// Takes in what the main worker answered to the query of the
    /// directory: rows replace the directory, anything else leaves the
    /// session as it is. The answer to the isolate is that it is done.
    pub fn finish_reload(&mut self, response: TransactionResponse) -> (reply:
        TransactionSessionResponse)
        requires
            old(self).inv(),
            response@ matches TransactionResponseView::QueryResult(r) ==> alias_rows(r.rows),
        ensures
            final(self).inv(),
            reply@ == SessionResponseView::Done,
            final(self)@ == match response@ {
                TransactionResponseView::QueryResult(r) => old(self)@.after_reload(r.rows),
                _ => old(self)@,
            },
    {
        match response {
            TransactionResponse::QueryResult(result) => {
                self.reload_db_aliases(&result.rows);
            },
            _ => {},
        }
        TransactionSessionResponse::Done
    }

    /// Decides what the loop does for `request`.
    ///
    /// A reload asks the main worker for the directory. A transaction is
    /// handed out by `db_create_alias`. Closing follows
    /// `close_transactions`. A query or a statement goes to the worker
    /// that is open under its alias, and is turned down where none is.
    pub fn session_step(&mut self, request: TransactionSessionRequest) -> (step: SessionStep)
        requires
            old(self).inv(),
        ensures
            final(self).inv(),
            match request {
                TransactionSessionRequest::ReloadDBAliases => {
                    &&& final(self)@ == old(self)@
                    &&& step matches SessionStep::Reload(q)
                    &&& q@.db_alias == MAIN_DB@
                    &&& q@.query == reload_statement()
                    &&& q@.params.len() == 0
                },
                TransactionSessionRequest::CreateTransaction(alias) => {
                    &&& final(self)@ == old(self)@.after_create(alias@)
                    &&& match old(self)@.create_error(alias@) {
                        Some(e) => {
                            &&& step matches SessionStep::Reply(r)
                            &&& r@ == SessionResponseView::Error(error_line(error_message(e)))
                        },
                        None => if old(self)@.opens_worker(alias@) {
                            &&& step matches SessionStep::Open { name, connection_string, reply }
                            &&& name@ == old(self)@.canonical_name(alias@)
                            &&& connection_string@ == old(self)@.directory[first_index(
                                old(self)@.directory_names,
                                alias@,
                            )->0].connection_string
                            &&& reply@ == SessionResponseView::Transaction(
                                old(self)@.canonical_name(alias@),
                            )
                        } else {
                            &&& step matches SessionStep::Reply(r)
                            &&& r@ == SessionResponseView::Transaction(
                                old(self)@.canonical_name(alias@),
                            )
                        },
                    }
                },
                TransactionSessionRequest::CloseAll(commit) => {
                    &&& final(self)@ == old(self)@.after_close()
                    &&& step matches SessionStep::Close(plan)
                    &&& plan.commit == commit
                    &&& plan.finish.deep_view() == old(self)@.pool
                    &&& plan.dropped.deep_view() == old(self)@.dropped_on_close()
                    &&& match plan.reopen_main {
                        Some(cs) => old(self)@.dirty && cs@ == old(self)@.main_connection_string,
                        None => !old(self)@.dirty,
                    }
                },
                TransactionSessionRequest::Query(q) => {
                    &&& final(self)@ == old(self)@
                    &&& if first_index(old(self)@.pool, q@.db_alias) is Some {
                        &&& step matches SessionStep::Forward { name, request }
                        &&& name@ == q@.db_alias
                        &&& request@ == TransactionRequestView::Query(q@)
                    } else {
                        &&& step matches SessionStep::Reply(r)
                        &&& r@ == SessionResponseView::Error(
                            error_line(error_message(SessionErrorView::AliasMissing(q@.db_alias))),
                        )
                    }
                },
                TransactionSessionRequest::Upsert(q) => {
                    &&& final(self)@ == old(self)@
                    &&& if first_index(old(self)@.pool, q@.db_alias) is Some {
                        &&& step matches SessionStep::Forward { name, request }
                        &&& name@ == q@.db_alias
                        &&& request@ == TransactionRequestView::Upsert(q@)
                    } else {
                        &&& step matches SessionStep::Reply(r)
                        &&& r@ == SessionResponseView::Error(
                            error_line(error_message(SessionErrorView::AliasMissing(q@.db_alias))),
                        )
                    }
                },
            },
    {
        match request {
            TransactionSessionRequest::ReloadDBAliases => SessionStep::Reload(
                Self::reload_query(),
            ),
            TransactionSessionRequest::CreateTransaction(alias) => {
                match self.db_create_alias(alias) {
                    Ok(opened) => {
                        let reply = TransactionSessionResponse::Transaction(opened.name.clone());
                        match opened.connect {
                            Some(connection_string) => SessionStep::Open {
                                name: opened.name,
                                connection_string,
                                reply,
                            },
                            None => SessionStep::Reply(reply),
                        }
                    },
                    Err(e) => {
                        let message = e.message();
                        SessionStep::Reply(error_response(message.as_str()))
                    },
                }
            },
            TransactionSessionRequest::CloseAll(commit) => SessionStep::Close(
                self.close_transactions(commit),
            ),
            TransactionSessionRequest::Query(q) => {
                if self.is_open(q.db_alias.as_str()) {
                    SessionStep::Forward {
                        name: q.db_alias.clone(),
                        request: TransactionRequest::Query(q),
                    }
                } else {
                    let message = SessionError::AliasMissing(q.db_alias.clone()).message();
                    SessionStep::Reply(error_response(message.as_str()))
                }
            },
            TransactionSessionRequest::Upsert(q) => {
                if self.is_open(q.db_alias.as_str()) {
                    SessionStep::Forward {
                        name: q.db_alias.clone(),
                        request: TransactionRequest::Upsert(q),
                    }
                } else {
                    let message = SessionError::AliasMissing(q.db_alias.clone()).message();
                    SessionStep::Reply(error_response(message.as_str()))
                }
            },
        }
    }
}

} // verus!
