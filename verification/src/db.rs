//! The connection handle: the one door to the storage engine.
//!
//! The engine is a black box.  What the data layer knows of it is what was
//! said to it and what it answered, and the handle keeps that exchange as a
//! journal.  The operations of the data layer are specified by how they
//! extend the journal and by what they make of the answers.

use vstd::prelude::*;
use crate::row::{Cell, RowView};
use crate::sql::{
    create_table_sql,
    create_table_statement,
    probe_sql,
    probe_statement,
};
use crate::text::signed_decimal;

verus! {

/// `sqlite::Connection`, a connection to a database.  Nothing is known of
/// what is inside it.
#[verifier::external_type_specification]
#[verifier::external_body]
pub struct ExConnection(sqlite::Connection);

/// `sqlite::Error`, with the two public fields that it has: an optional code
/// and an optional message.
#[verifier::external_type_specification]
pub struct ExError(sqlite::Error);

/// `sqlite::Cursor`, an iterator over the rows of a prepared statement.
/// Nothing is known of what is inside it.
#[verifier::external_type_specification]
#[verifier::external_body]
pub struct ExCursor<'l>(sqlite::Cursor<'l>);

/// What the engine answered to a statement.
pub enum Reply {
    /// The statement ran; rows that it produced, if any, were not read.
    Done,
    /// The query ran; these are its rows.
    Rows(Seq<RowView>),
    /// The statement could not be prepared or run; this is the engine's
    /// message.
    Failed(Seq<char>),
}

/// One entry of the journal: a statement and the engine's answer.
pub struct Exchange {
    pub statement: Seq<char>,
    pub reply: Reply,
}

/// What an operation did, read off a journal from a given position on.
pub struct Run<T> {
    /// The journal holds, from the position on, the statements of the
    /// operation with answers of the fitting kind.
    pub valid: bool,
    /// The position after the operation's last exchange.
    pub end: int,
    /// What the operation makes of the answers.
    pub result: T,
}

/// An operation that goes on after `first`: it is valid if both parts are.
pub open spec fn after<A, B>(first: Run<A>, rest: Run<B>) -> Run<B> {
    Run { valid: first.valid && rest.valid, end: rest.end, result: rest.result }
}

/// An operation that ends with `run` and hands back `result`.
pub open spec fn ending<A, B>(run: Run<A>, result: B) -> Run<B> {
    Run { valid: run.valid, end: run.end, result }
}

/// The operation `run` accounts for the whole rest of `journal` and its
/// result is `result`.
pub open spec fn completes<T>(run: Run<T>, journal: Seq<Exchange>, result: T) -> bool {
    run.valid && run.end == journal.len() && run.result == result
}

/// The message that an error of the engine displays.
pub open spec fn error_display(error: sqlite::Error) -> Seq<char> {
    match (error.code, error.message) {
        (Some(code), Some(message)) => message@ + " (code "@ + signed_decimal(code as int) + ")"@,
        (Some(code), None) => "an SQLite error (code "@ + signed_decimal(code as int) + ")"@,
        (None, Some(message)) => message@,
        (None, None) => "an SQLite error"@,
    }
}

/// The answer that the outcome of a statement stands for.
pub open spec fn statement_reply(outcome: Result<(), sqlite::Error>) -> Reply {
    match outcome {
        Ok(_) => Reply::Done,
        Err(error) => Reply::Failed(error_display(error)),
    }
}

/// The answer that the outcome of a query stands for.
pub open spec fn query_reply(outcome: Result<Vec<Vec<Cell>>, sqlite::Error>) -> Reply {
    match outcome {
        Ok(rows) => Reply::Rows(rows.deep_view()),
        Err(error) => Reply::Failed(error_display(error)),
    }
}

/// The outcome of a statement with the engine's message in place of its
/// error.
pub open spec fn statement_outcome(outcome: Result<(), sqlite::Error>) -> Result<(), Seq<char>> {
    match outcome {
        Ok(_) => Ok(()),
        Err(error) => Err(error_display(error)),
    }
}

/// The statement `statement`, run at position `at` of the journal: it ends
/// well, or fails with the engine's message.  Rows are no answer to a
/// statement, and the run is not valid then.
pub open spec fn statement_at(journal: Seq<Exchange>, at: int, statement: Seq<char>) -> Run<
    Result<(), Seq<char>>,
> {
    Run {
        valid: 0 <= at < journal.len() && journal[at].statement == statement && !(
        journal[at].reply is Rows),
        end: at + 1,
        result: match journal[at].reply {
            Reply::Failed(message) => Err(message),
            _ => Ok(()),
        },
    }
}

/// The query `query`, run at position `at` of the journal: it yields rows, or
/// fails with the engine's message.  An answer without rows is none to a
/// query, and the run is not valid then.
pub open spec fn query_at(journal: Seq<Exchange>, at: int, query: Seq<char>) -> Run<
    Result<Seq<RowView>, Seq<char>>,
> {
    Run {
        valid: 0 <= at < journal.len() && journal[at].statement == query && !(
        journal[at].reply is Done),
        end: at + 1,
        result: match journal[at].reply {
            Reply::Rows(rows) => Ok(rows),
            Reply::Failed(message) => Err(message),
            Reply::Done => Err(Seq::empty()),
        },
    }
}

/// The probe of `table`, run at position `at`: the table is ready if the
/// probe does not fail.
pub open spec fn probe_at(journal: Seq<Exchange>, at: int, table: Seq<char>) -> Run<bool> {
    let probe = statement_at(journal, at, probe_sql(table));
    ending(probe, probe.result is Ok)
}

/// The initialization of `table`, run at position `at`: the probe, and the
/// creation of the table where the probe fails.
pub open spec fn init_table_at(
    journal: Seq<Exchange>,
    at: int,
    table: Seq<char>,
    schema: Seq<char>,
) -> Run<Result<(), Seq<char>>> {
    let probe = probe_at(journal, at, table);
    if probe.result {
        ending(probe, Ok(()))
    } else {
        after(probe, statement_at(journal, probe.end, create_table_sql(schema)))
    }
}

/// `sqlite::Connection::open` opens the database at `path`, or the private
/// in-memory database that `":memory:"` names, and creates it where it does
/// not exist.  Nothing is claimed of the outcome.
#[verifier::external_body]
fn open_connection(path: &str) -> (outcome: Result<sqlite::Connection, sqlite::Error>) {
    sqlite::Connection::open(path)
}

/// `sqlite::Connection::execute` runs the statements in `statement` and
/// drops the rows they produce, if any.  Nothing is claimed of the outcome:
/// it depends on what the database holds.
#[verifier::external_body]
fn run_statement(connection: &sqlite::Connection, statement: &str) -> (outcome: Result<
    (),
    sqlite::Error,
>) {
    connection.execute(statement)
}

/// `sqlite::Connection::prepare` and `sqlite::Statement::into_cursor`: a
/// cursor over the rows of `query`.  Nothing is claimed of the outcome: it
/// depends on what the database holds.
#[verifier::external_body]
fn open_cursor<'l>(connection: &'l sqlite::Connection, query: &str) -> (outcome: Result<
    sqlite::Cursor<'l>,
    sqlite::Error,
>) {
    Ok(connection.prepare(query)?.into_cursor())
}

/// `sqlite::Cursor::next`: the next row, each of its values turned into a
/// cell of the same type, or none where the rows are exhausted.  Nothing is
/// claimed of the outcome: it depends on what the database holds.
#[verifier::external_body]
fn next_row(cursor: &mut sqlite::Cursor) -> (outcome: Result<Option<Vec<Cell>>, sqlite::Error>) {
    Ok(cursor.next()?.map(|values| values.iter().map(|value| match value {
        sqlite::Value::Integer(number) => Cell::Integer(*number),
        sqlite::Value::String(text) => Cell::Text(text.clone()),
        sqlite::Value::Binary(bytes) => Cell::Binary(bytes.clone()),
        sqlite::Value::Float(_) => Cell::Float,
        sqlite::Value::Null => Cell::Null,
    }).collect()))
}

/// Takes one answer of a cursor into the rows that were read so far.  A row
/// is appended, and the reading goes on: the result is `None`.  The end of
/// the rows ends the reading well, a failure ends it with the error that
/// came, and the rows stay as they are.
pub fn take_answer(
    rows: &mut Vec<Vec<Cell>>,
    answer: Result<Option<Vec<Cell>>, sqlite::Error>,
) -> (ended: Option<Result<(), sqlite::Error>>)
    ensures
        match answer {
            Ok(Some(row)) => ended is None && final(rows)@ == old(rows)@.push(row),
            Ok(None) => ended == Some(Ok::<(), sqlite::Error>(())) && final(rows)@ == old(rows)@,
            Err(error) => ended == Some(Err::<(), sqlite::Error>(error)) && final(rows)@ == old(
                rows,
            )@,
        },
{
    match answer {
        Ok(Some(row)) => {
            rows.push(row);
            None
        },
        Ok(None) => Some(Ok(())),
        Err(error) => Some(Err(error)),
    }
}

/// Reads the rows of `query` to the end.  A failure at any row is the
/// failure of the query.  Whether the query can be prepared, which rows it
/// has and whether reading them fails is for the engine to say, so nothing
/// holds of every outcome; what is made of each answer is `take_answer`.
fn run_query(connection: &sqlite::Connection, query: &str) -> (outcome: Result<
    Vec<Vec<Cell>>,
    sqlite::Error,
>) {
    let mut cursor = match open_cursor(connection, query) {
        Ok(cursor) => cursor,
        Err(error) => {
            return Err(error);
        },
    };
    let mut rows: Vec<Vec<Cell>> = Vec::new();
    // No vector holds `usize::MAX` rows, so the bound ends no reading early.
    while rows.len() < usize::MAX
        invariant
            rows.len() <= usize::MAX,
        decreases usize::MAX - rows.len(),
    {
        let answer = next_row(&mut cursor);
        match take_answer(&mut rows, answer) {
            None => {},
            Some(Ok(_)) => {
                return Ok(rows);
            },
            Some(Err(error)) => {
                return Err(error);
            },
        }
    }
    Ok(rows)
}

/// `sqlite::Error`'s `Display`, through `to_string`: the message, followed by
/// the code in brackets where the error has one; `an SQLite error` stands for
/// a missing message.
#[verifier::external_body]
pub(crate) fn error_text(error: &sqlite::Error) -> (text: String)
    ensures
        text@ == error_display(*error),
{
    error.to_string()
}

/// Database handler for the application.
pub struct Database {
    path: String,
    connection: sqlite::Connection,
    journal: Ghost<Seq<Exchange>>,
}

impl Database {
    /// Everything that was exchanged with the engine through this handle,
    /// oldest first.
    pub closed spec fn journal(&self) -> Seq<Exchange> {
        self.journal@
    }

    /// The path that the handle was opened with.
    pub closed spec fn location(&self) -> Seq<char> {
        self.path@
    }

    /// The connection that the handle holds.
    pub closed spec fn link(&self) -> sqlite::Connection {
        self.connection
    }

    /// This state of the handle comes after `earlier`: the same database,
    /// and a journal that goes on from the earlier one.
    pub open spec fn continues(&self, earlier: &Database) -> bool {
        &&& self.location() == earlier.location()
        &&& self.link() == earlier.link()
        &&& earlier.journal().len() <= self.journal().len()
        &&& forall|i: int|
            0 <= i < earlier.journal().len() ==> #[trigger] self.journal()[i]
                == earlier.journal()[i]
    }

    /// Opens the database at `path`; `":memory:"` names a private database
    /// in memory.  Whether the database can be opened is for the engine to
    /// say; a handle that was opened has an empty journal.
    pub fn new(path: &str) -> (opened: Result<Self, sqlite::Error>)
        ensures
            opened matches Ok(db) ==> db.location() == path@ && db.journal() == Seq::<
                Exchange,
            >::empty(),
    {
        match open_connection(path) {
            Ok(connection) => Ok(
                Self { path: path.to_owned(), connection, journal: Ghost(Seq::empty()) },
            ),
            Err(error) => Err(error),
        }
    }

    /// References the path of the db
    pub fn path(&self) -> (path: &String)
        ensures
            path@ == self.location(),
    {
        &self.path
    }

    /// References the connection to the database
    pub fn connection(&self) -> (connection: &sqlite::Connection)
        ensures
            *connection == self.link(),
    {
        &self.connection
    }

    /// Executes a statement and notes the exchange in the journal.
    pub fn exec_sttmt(&mut self, statement: &str) -> (outcome: Result<(), sqlite::Error>)
        ensures
            final(self).continues(old(self)),
            final(self).journal() == old(self).journal().push(
                Exchange { statement: statement@, reply: statement_reply(outcome) },
            ),
    {
        let outcome = run_statement(&self.connection, statement);
        self.journal = Ghost(
            self.journal@.push(Exchange { statement: statement@, reply: statement_reply(outcome) }),
        );
        outcome
    }

    /// Executes a select query, reads all its rows and notes the exchange in
    /// the journal.
    pub fn select_query(&mut self, query: &str) -> (outcome: Result<Vec<Vec<Cell>>, sqlite::Error>)
        ensures
            final(self).continues(old(self)),
            final(self).journal() == old(self).journal().push(
                Exchange { statement: query@, reply: query_reply(outcome) },
            ),
    {
        let outcome = run_query(&self.connection, query);
        self.journal = Ghost(
            self.journal@.push(Exchange { statement: query@, reply: query_reply(outcome) }),
        );
        outcome
    }

    /// Creates the table that `schema` defines, unless it exists.
    pub fn create_table(&mut self, schema: &str) -> (outcome: Result<(), sqlite::Error>)
        ensures
            final(self).continues(old(self)),
            final(self).journal() == old(self).journal().push(
                Exchange { statement: create_table_sql(schema@), reply: statement_reply(outcome) },
            ),
    {
        let statement = create_table_statement(schema);
        self.exec_sttmt(statement.as_str())
    }
}

/// What a repository knows of its table, and how it makes sure that the
/// table is there.
pub trait DatabaseConnector {
    /// The name of the table.
    spec fn table() -> Seq<char>;

    /// The definition of the table.
    spec fn schema() -> Seq<char>;

    fn table_name() -> (name: &'static str)
        ensures
            name@ == Self::table(),
    ;

    /// Creates the table unless it can be used already.
    fn init_table(db: &mut Database) -> (outcome: Result<(), sqlite::Error>)
        ensures
            final(db).continues(old(db)),
            completes(
                init_table_at(
                    final(db).journal(),
                    old(db).journal().len() as int,
                    Self::table(),
                    Self::schema(),
                ),
                final(db).journal(),
                statement_outcome(outcome),
            ),
    ;

    /// Whether the table can be used: a probe that fails, for whatever
    /// reason, says that it cannot.
    fn is_table_initialized(db: &mut Database) -> (ready: bool)
        ensures
            final(db).continues(old(db)),
            completes(
                probe_at(final(db).journal(), old(db).journal().len() as int, Self::table()),
                final(db).journal(),
                ready,
            ),
    {
        let statement = probe_statement(Self::table_name());
        db.exec_sttmt(statement.as_str()).is_ok()
    }
}

} // verus!
