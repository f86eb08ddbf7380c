//! The operations that scripts call on the session, on tokens and on
//! passwords.

use vstd::prelude::*;
use crate::client::{
    affected_answer,
    done_answer,
    failure_message,
    one_more,
    rows_answer,
    transaction_answer,
    SessionFailureView,
    TransactionSession,
};
use crate::constants::{
    JWT_USER,
    NOTIFICATION_PREFIX_DBNAME,
    NOTIFICATION_PREFIX_RESPONSE,
    PROGRAM_NAME,
};
use crate::crypto::{
    bcrypt_verdict,
    jwt_from_map,
    jwt_signed,
    password_hash,
    password_verify,
};
use crate::params::{param_error_message, params_of, query_types_to_params};
use crate::query::{
    ParamView,
    QueryDataView,
    QueryResult,
    QueryResultView,
    SessionRequestView,
};
use crate::settings::{setting_str, CachedValue};
use crate::text::pair_views;

verus! {

/// The text with which an answer turns a request down, where it does.
pub open spec fn refused_with<T>(said: Result<T, SessionFailureView>, text: Seq<char>) -> bool {
    match said {
        Err(f) => text == failure_message(f),
        Ok(_) => false,
    }
}

/// Ends the request in the session: the worker is asked, in one exchange,
/// to commit or to roll back every open transaction and to begin anew on
/// the main database alone. Where the answer is no plain consent, the text
/// of the failure is handed back.
pub fn nino_tx_end(session: &mut TransactionSession, commit: bool) -> (r: Result<(), String>)
    ensures
        one_more(
            old(session).exchanges(),
            final(session).exchanges(),
            SessionRequestView::CloseAll(commit),
        ),
        match r {
            Ok(_) => done_answer(final(session).exchanges().last().answer) is Ok,
            Err(text) => refused_with(
                done_answer(final(session).exchanges().last().answer),
                text@,
            ),
        },
{
    match session.close_all(commit) {
        Ok(()) => Ok(()),
        Err(f) => Err(f.message()),
    }
}

/// Asks the session, in one exchange, to read the directory of aliases
/// again. Where the answer is no plain consent, the text of the failure
/// is handed back.
pub fn nino_reload_database_aliases(session: &mut TransactionSession) -> (r: Result<(), String>)
    ensures
        one_more(
            old(session).exchanges(),
            final(session).exchanges(),
            SessionRequestView::ReloadDBAliases,
        ),
        match r {
            Ok(_) => done_answer(final(session).exchanges().last().answer) is Ok,
            Err(text) => refused_with(
                done_answer(final(session).exchanges().last().answer),
                text@,
            ),
        },
{
    match session.reload_database_aliases() {
        Ok(()) => Ok(()),
        Err(f) => Err(f.message()),
    }
}

/// Makes sure a transaction is open on `db_alias`: the worker is asked for
/// one, in one exchange, and the name that it answers with, under which
/// the transaction is addressed, is handed back, or the text of the
/// failure.
pub fn nino_tx_get_connection_name(session: &mut TransactionSession, db_alias: String) -> (r:
    Result<String, String>)
    ensures
        one_more(
            old(session).exchanges(),
            final(session).exchanges(),
            SessionRequestView::CreateTransaction(db_alias@),
        ),
        match r {
            Ok(name) => transaction_answer(final(session).exchanges().last().answer) == Ok::<
                Seq<char>,
                SessionFailureView,
            >(name@),
            Err(text) => refused_with(
                transaction_answer(final(session).exchanges().last().answer),
                text@,
            ),
        },
{
    match session.create_transaction(db_alias) {
        Ok(name) => Ok(name),
        Err(f) => Err(f.message()),
    }
}

/// The statement and the parameters that the worker is asked with.
pub open spec fn asked_statement(
    db_alias: Seq<char>,
    query: Seq<Seq<char>>,
    params: Seq<ParamView>,
) -> QueryDataView {
    QueryDataView { db_alias, query: query[0], params }
}

/// Runs a query in the transaction `db_alias`. `query` holds the
/// statement and one text for each parameter, `query_types` the type code
/// of each text, and `float_bits` what each text reads as when read as a
/// floating-point number. Texts that stand for no parameters are reported
/// and nothing is sent to the session. Else the worker is asked, in one
/// exchange, with the statement and the parameters, and the rows that it
/// answers with are handed back, or the text of the failure.
pub fn nino_tx_execute_query(
    session: &mut TransactionSession,
    db_alias: String,
    query: Vec<String>,
    query_types: Vec<i16>,
    float_bits: &Vec<Option<u64>>,
) -> (r: Result<QueryResult, String>)
    ensures
        match params_of(query.deep_view(), query_types@, float_bits@) {
            Err(e) => {
                &&& final(session).exchanges() == old(session).exchanges()
                &&& r matches Err(text)
                &&& text@ == param_error_message(e)
            },
            Ok(params) => {
                &&& one_more(
                    old(session).exchanges(),
                    final(session).exchanges(),
                    SessionRequestView::Query(
                        asked_statement(db_alias@, query.deep_view(), params),
                    ),
                )
                &&& match r {
                    Ok(rows) => rows_answer(final(session).exchanges().last().answer) == Ok::<
                        QueryResultView,
                        SessionFailureView,
                    >(rows@),
                    Err(text) => refused_with(
                        rows_answer(final(session).exchanges().last().answer),
                        text@,
                    ),
                }
            },
        },
{
    assert(query.len() > 0 ==> query.deep_view()[0] == query[0]@);
    match query_types_to_params(query, query_types, float_bits) {
        Err(e) => Err(e.message()),
        Ok((statement, params)) => match session.query(db_alias, statement, params) {
            Ok(rows) => Ok(rows),
            Err(f) => Err(f.message()),
        },
    }
}

/// Runs a statement in the transaction `db_alias` and gives the number of
/// rows it touched. The arguments are those of `nino_tx_execute_query`,
/// and so is what is asked of the worker; the number that it answers with
/// is handed back, or the text of the failure.
pub fn nino_tx_execute_upsert(
    session: &mut TransactionSession,
    db_alias: String,
    query: Vec<String>,
    query_types: Vec<i16>,
    float_bits: &Vec<Option<u64>>,
) -> (r: Result<u64, String>)
    ensures
        match params_of(query.deep_view(), query_types@, float_bits@) {
            Err(e) => {
                &&& final(session).exchanges() == old(session).exchanges()
                &&& r matches Err(text)
                &&& text@ == param_error_message(e)
            },
            Ok(params) => {
                &&& one_more(
                    old(session).exchanges(),
                    final(session).exchanges(),
                    SessionRequestView::Upsert(
                        asked_statement(db_alias@, query.deep_view(), params),
                    ),
                )
                &&& match r {
                    Ok(n) => affected_answer(final(session).exchanges().last().answer) == Ok::<
                        u64,
                        SessionFailureView,
                    >(n),
                    Err(text) => refused_with(
                        affected_answer(final(session).exchanges().last().answer),
                        text@,
                    ),
                }
            },
        },
{
    assert(query.len() > 0 ==> query.deep_view()[0] == query[0]@);
    match query_types_to_params(query, query_types, float_bits) {
        Err(e) => Err(e.message()),
        Ok((statement, params)) => match session.upsert(db_alias, statement, params) {
            Ok(affected) => Ok(affected),
            Err(f) => Err(f.message()),
        },
    }
}

/// The claims of the token of a user.
pub open spec fn user_claims(user: Seq<char>) -> Seq<(Seq<char>, Seq<char>)> {
    seq![(JWT_USER@, user)]
}

/// The token that names `user`, signed with the program's secret.
pub fn nino_get_user_jwt(user: String) -> (r: Result<String, String>)
    ensures
        match r {
            Ok(token) => jwt_signed(PROGRAM_NAME@, user_claims(user@)) == Some(token@),
            Err(_) => jwt_signed(PROGRAM_NAME@, user_claims(user@)) is None,
        },
{
    let mut map: Vec<(String, String)> = Vec::new();
    map.push((JWT_USER.to_owned(), user));
    assert(pair_views(map@) =~= user_claims(user@));
    jwt_from_map(PROGRAM_NAME, map)
}

/// A hash of the password, against which the password verifies.
pub fn nino_password_hash(password: String) -> (r: Result<String, String>)
    ensures
        r matches Ok(hash) ==> bcrypt_verdict(password@, hash@) == Some(true),
{
    password_hash(password.as_str())
}

/// Whether the password is the one that the hash was made from.
pub fn nino_password_verify(password: String, hash: String) -> (r: Result<bool, String>)
    ensures
        match r {
            Ok(matched) => bcrypt_verdict(password@, hash@) == Some(matched),
            Err(_) => bcrypt_verdict(password@, hash@) is None,
        },
{
    password_verify(password.as_str(), hash.as_str())
}

/// The prefix of the notifications that invalidate a module.
pub fn nino_get_module_invalidation_prefix() -> (prefix: String)
    ensures
        prefix@ == NOTIFICATION_PREFIX_RESPONSE@,
{
    NOTIFICATION_PREFIX_RESPONSE.to_owned()
}

/// The prefix of the notifications that invalidate the database aliases.
pub fn nino_get_database_invalidation_prefix() -> (prefix: String)
    ensures
        prefix@ == NOTIFICATION_PREFIX_DBNAME@,
{
    NOTIFICATION_PREFIX_DBNAME.to_owned()
}

/// The tag of the environment from its setting; empty where it is not set.
pub fn nino_get_system_id(setting: Option<&CachedValue>) -> (id: String)
    ensures
        id@ == match setting {
            Some(v) => v.text@,
            None => Seq::<char>::empty(),
        },
{
    let id = setting_str(setting, "");
    proof {
        reveal_strlit("");
        assert(""@ =~= Seq::<char>::empty());
    }
    id
}

/// The time, in milliseconds, that an outbound request may take: the
/// number that the script gave, a negative one counted down from 2^64.
pub open spec fn fetch_timeout_of(timeout: i64) -> u64 {
    if timeout >= 0 {
        timeout as u64
    } else {
        (timeout + 0x1_0000_0000_0000_0000) as u64
    }
}

/// The time, in milliseconds, that an outbound request may take.
pub fn fetch_timeout(timeout: i64) -> (ms: u64)
    ensures
        ms == fetch_timeout_of(timeout),
{
    if timeout >= 0 {
        timeout as u64
    } else {
        let below: u64 = (-(timeout + 1)) as u64;
        u64::MAX - below
    }
}

/// The text that reports an outbound request that took too long.
pub fn fetch_timed_out() -> (text: String)
    ensures
        text@ == "Connection Timeout"@,
{
    "Connection Timeout".to_owned()
}

} // verus!
