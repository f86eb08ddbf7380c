//! What happens before the server serves: where the connection string
//! comes from, and how a migration script falls into statements.

use vstd::prelude::*;
use crate::constants::PROGRAM_NAME;
use crate::text::{chars_of, push_chars, push_str, string_of, texts};

verus! {

/// The text that reports that the program was started without a name.
pub open spec fn no_program_name() -> Seq<char> {
    "No program name"@
}

/// The connection string of the main database: the first argument after
/// the program's name, or, without one, the value of the environment
/// variable named after the program. `from_environment` is that value, or
/// the reason why there is none.
pub fn get_connection_string(args: &Vec<String>, from_environment: Result<String, String>) -> (r:
    Result<String, String>)
    ensures
        if args@.len() == 0 {
            r matches Err(e) && e@ == no_program_name()
        } else if args@.len() >= 2 {
            r matches Ok(cs) && cs@ == args@[1]@
        } else {
            r == from_environment
        },
{
    if args.len() == 0 {
        Err("No program name".to_owned())
    } else if args.len() >= 2 {
        Ok(args[1].clone())
    } else {
        from_environment
    }
}

/// The name of the file that holds the migration script.
pub fn migration_file() -> (name: String)
    ensures
        name@ == PROGRAM_NAME@ + ".sql"@,
{
    let mut buf: Vec<char> = Vec::new();
    push_str(&mut buf, PROGRAM_NAME);
    push_str(&mut buf, ".sql");
    string_of(&buf)
}

/// Whether a line ends a statement: its last character is a semicolon.
pub open spec fn ends_statement(line: Seq<char>) -> bool {
    line.len() > 0 && line.last() == ';'
}

/// The statements that the lines make up, and the text of the statement
/// that the lines have begun and not ended. A line that ends in a
/// semicolon ends a statement; the lines of a statement are joined by line
/// feeds.
pub open spec fn statements_and_rest(lines: Seq<Seq<char>>) -> (Seq<Seq<char>>, Seq<char>)
    decreases lines.len(),
{
    if lines.len() == 0 {
        (Seq::empty(), Seq::empty())
    } else {
        let before = statements_and_rest(lines.drop_last());
        let line = lines.last();
        if ends_statement(line) {
            (before.0.push(before.1 + line), Seq::empty())
        } else {
            (before.0, before.1 + line + seq!['\n'])
        }
    }
}

/// The statements of a migration script.
pub open spec fn statements_of(lines: Seq<Seq<char>>) -> Seq<Seq<char>> {
    statements_and_rest(lines).0
}

/// The statements of a migration script, from its lines: the statements to
/// be run, in order. Lines after the last semicolon make up no statement.
pub fn migration_statements(lines: &Vec<String>) -> (statements: Vec<String>)
    ensures
        texts(statements@) == statements_of(texts(lines@)),
{
    let ghost all = texts(lines@);
    let mut statements: Vec<String> = Vec::new();
    let mut sql: Vec<char> = Vec::new();
    let mut i: usize = 0;
    proof {
        assert(all.take(0) =~= Seq::<Seq<char>>::empty());
        assert(texts(statements@) =~= Seq::<Seq<char>>::empty());
    }
    while i < lines.len()
        invariant
            i <= lines.len(),
            all == texts(lines@),
            texts(statements@) == statements_and_rest(all.take(i as int)).0,
            sql@ == statements_and_rest(all.take(i as int)).1,
        decreases lines.len() - i,
    {
        let line = chars_of(lines[i].as_str());
        proof {
            assert(all.take(i + 1).drop_last() =~= all.take(i as int));
            assert(all.take(i + 1).last() == lines[i as int]@);
        }
        push_chars(&mut sql, &line);
        if line.len() > 0 && line[line.len() - 1] == ';' {
            let ghost before = texts(statements@);
            let statement = string_of(&sql);
            statements.push(statement);
            sql = Vec::new();
            assert(texts(statements@) =~= before.push(statement@));
        } else {
            sql.push('\n');
        }
        i += 1;
    }
    proof {
        assert(all.take(lines.len() as int) =~= all);
    }
    statements
}

/// The text that reports a statement of the migration script that failed.
pub open spec fn migration_failure(sql: Seq<char>, error: Seq<char>) -> Seq<char> {
    "sql:"@ + sql + "\nerror: "@ + error
}

/// The text that reports a statement of the migration script that failed.
pub fn migration_error(sql: &str, error: &str) -> (out: String)
    ensures
        out@ == migration_failure(sql@, error@),
{
    let mut buf: Vec<char> = Vec::new();
    push_str(&mut buf, "sql:");
    push_str(&mut buf, sql);
    push_str(&mut buf, "\nerror: ");
    push_str(&mut buf, error);
    string_of(&buf)
}

/// The time, in seconds, between two attempts to reach the database.
pub const DATABASE_RETRY_SECS: u64 = 2;

} // verus!
