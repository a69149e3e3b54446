//! The durable store adapter, without the connection.
//!
//! The store holds one row per order: the identifier as primary key and the
//! document beside it. The adapter runs each statement in a transaction of
//! its own. This module holds what the adapter decides: the text of its
//! statements, the command that follows each answer of the connection
//! ([`transaction_step`]), and whether a failure is a violation of the
//! primary key ([`is_unique_violation`]). Sending the commands is the
//! caller's part.

use tokio_postgres::error::SqlState;
use vstd::prelude::*;
use vstd::string::StringExecFns;

use crate::models::OrderView;

verus! {

/// A failure reported by the store, reduced to its SQLSTATE code. `None`
/// stands for a failure that carries no code, such as a lost connection.
#[derive(Debug)]
pub struct StoreError {
    pub code: Option<String>,
}

/// The SQLSTATE code by which a store reports a violated uniqueness
/// constraint.
pub open spec fn unique_violation_code() -> Seq<char> {
    seq!['2', '3', '5', '0', '5']
}

/// Whether `error` carries the code of a violated uniqueness constraint.
pub open spec fn unique_violation(error: StoreError) -> bool {
    match error.code {
        Some(code) => code@ == unique_violation_code(),
        None => false,
    }
}

/// `SqlState::code` of `SqlState::UNIQUE_VIOLATION`: the five characters
/// `23505`.
#[verifier::external_body]
fn unique_violation_sqlstate() -> (code: String)
    ensures
        code@ == unique_violation_code(),
{
    SqlState::UNIQUE_VIOLATION.code().to_owned()
}

/// Tells a violation of the primary key from every other failure, by the
/// code of the failure alone.
pub fn is_unique_violation(error: &StoreError) -> (violated: bool)
    ensures
        violated == unique_violation(*error),
{
    match &error.code {
        Some(code) => {
            let expected = unique_violation_sqlstate();
            *code == expected
        },
        None => false,
    }
}

/// The characters of the connection parameters for `user` and `password`.
pub open spec fn connection_text(user: Seq<char>, password: Seq<char>) -> Seq<char> {
    "host=localhost user="@ + user + " password="@ + password
}

/// The parameters with which the adapter connects to the store on this host.
pub fn connection_string(user: &str, password: &str) -> (text: String)
    ensures
        text@ == connection_text(user@, password@),
{
    let mut text = String::from_str("host=localhost user=");
    text.append(user);
    text.append(" password=");
    text.append(password);
    text
}

/// The characters of the statement that creates `table` unless it exists.
pub open spec fn create_table_text(table: Seq<char>) -> Seq<char> {
    "\n        CREATE TABLE IF NOT EXISTS "@ + table
        + " (\n            order_uid TEXT PRIMARY KEY,\n            data JSONB NOT NULL\n        );\n    "@
}

/// The statement that creates the orders table unless it exists: the
/// identifier as primary key, the document in a column named `data`.
pub fn create_table_statement(table: &str) -> (statement: String)
    ensures
        statement@ == create_table_text(table@),
{
    let mut statement = String::from_str("\n        CREATE TABLE IF NOT EXISTS ");
    statement.append(table);
    statement.append(
        " (\n            order_uid TEXT PRIMARY KEY,\n            data JSONB NOT NULL\n        );\n    ",
    );
    statement
}

/// The characters of the statement that inserts a row into `table`, with the
/// document in the column `key`.
pub open spec fn insert_text(table: Seq<char>, key: Seq<char>) -> Seq<char> {
    "INSERT INTO "@ + table + " (order_uid, "@ + key + ") VALUES ($1, $2)"@
}

/// The statement that inserts an order. Its first parameter is the
/// identifier, its second the document.
pub fn insert_statement(table: &str, key: &str) -> (statement: String)
    ensures
        statement@ == insert_text(table@, key@),
{
    let mut statement = String::from_str("INSERT INTO ");
    statement.append(table);
    statement.append(" (order_uid, ");
    statement.append(key);
    statement.append(") VALUES ($1, $2)");
    statement
}

/// The characters of the statement that reads the document of one order
/// from `table`.
pub open spec fn select_text(table: Seq<char>) -> Seq<char> {
    "SELECT data FROM "@ + table + " WHERE order_uid = $1"@
}

/// The statement that looks an order up. Its one parameter is the
/// identifier.
pub fn select_statement(table: &str) -> (statement: String)
    ensures
        statement@ == select_text(table@),
{
    let mut statement = String::from_str("SELECT data FROM ");
    statement.append(table);
    statement.append(" WHERE order_uid = $1");
    statement
}

/// A command that the adapter gives to the connection.
#[derive(Clone, Copy, Debug, PartialEq, Eq, Structural)]
pub enum TxCommand {
    /// Open a transaction.
    Begin,
    /// Run the statement inside the open transaction.
    Execute,
    /// Make the statement's effect durable.
    Commit,
    /// Undo the statement's effect.
    Rollback,
}

/// Where a transaction stands. It starts in `Beginning`: the first command,
/// `Begin`, is given before the first step.
#[derive(Debug)]
pub enum TxState {
    /// `Begin` was sent.
    Beginning,
    /// `Execute` was sent.
    Executing,
    /// The statement succeeded and `Commit` was sent.
    Committing,
    /// The statement failed with the error held here and `Rollback` was sent.
    RollingBack(StoreError),
    /// No command is left; the transaction ended with the result held here.
    Done(Result<(), StoreError>),
}

/// The state that follows `state` once the connection has answered the
/// command in flight with `outcome`, and the command to send next, if one
/// is left.
///
/// A transaction that cannot be opened ends with that failure. A statement
/// that succeeds is committed, one that fails is rolled back. A commit or a
/// rollback that fails ends the transaction with its own failure; a rollback
/// that succeeds ends it with the failure of the statement. A transaction
/// that has ended stays as it is.
pub open spec fn next_step(state: TxState, outcome: Result<(), StoreError>) -> (
    TxState,
    Option<TxCommand>,
) {
    match state {
        TxState::Beginning => match outcome {
            Ok(_) => (TxState::Executing, Some(TxCommand::Execute)),
            Err(error) => (TxState::Done(Err(error)), None),
        },
        TxState::Executing => match outcome {
            Ok(_) => (TxState::Committing, Some(TxCommand::Commit)),
            Err(error) => (TxState::RollingBack(error), Some(TxCommand::Rollback)),
        },
        TxState::Committing => match outcome {
            Ok(_) => (TxState::Done(Ok(())), None),
            Err(error) => (TxState::Done(Err(error)), None),
        },
        TxState::RollingBack(cause) => match outcome {
            Ok(_) => (TxState::Done(Err(cause)), None),
            Err(error) => (TxState::Done(Err(error)), None),
        },
        TxState::Done(result) => (TxState::Done(result), None),
    }
}

/// One decision of the adapter: takes the answer of the connection to the
/// command in flight and says how the transaction goes on.
pub fn transaction_step(state: TxState, outcome: Result<(), StoreError>) -> (step: (
    TxState,
    Option<TxCommand>,
))
    ensures
        step == next_step(state, outcome),
{
    match state {
        TxState::Beginning => match outcome {
            Ok(_) => (TxState::Executing, Some(TxCommand::Execute)),
            Err(error) => (TxState::Done(Err(error)), None),
        },
        TxState::Executing => match outcome {
            Ok(_) => (TxState::Committing, Some(TxCommand::Commit)),
            Err(error) => (TxState::RollingBack(error), Some(TxCommand::Rollback)),
        },
        TxState::Committing => match outcome {
            Ok(_) => (TxState::Done(Ok(())), None),
            Err(error) => (TxState::Done(Err(error)), None),
        },
        TxState::RollingBack(cause) => match outcome {
            Ok(_) => (TxState::Done(Err(cause)), None),
            Err(error) => (TxState::Done(Err(error)), None),
        },
        TxState::Done(result) => (TxState::Done(result), None),
    }
}

/// What a whole transaction returns, given the answers to `Begin`, to
/// `Execute` and to the `Commit` or `Rollback` that followed: success where
/// all three succeeded, else the failure of the opening, else that of the
/// closing command, else that of the statement.
pub open spec fn transaction_result(
    begin: Result<(), StoreError>,
    execute: Result<(), StoreError>,
    settle: Result<(), StoreError>,
) -> Result<(), StoreError> {
    match begin {
        Err(error) => Err(error),
        Ok(_) => match settle {
            Err(error) => Err(error),
            Ok(_) => match execute {
                Err(error) => Err(error),
                Ok(_) => Ok(()),
            },
        },
    }
}

/// The commands of a whole transaction, given the answers to `Begin` and to
/// `Execute`: nothing follows a failed `Begin`; `Commit` follows a statement
/// that succeeded and `Rollback` one that failed.
pub open spec fn transaction_commands(
    begin: Result<(), StoreError>,
    execute: Result<(), StoreError>,
) -> Seq<TxCommand> {
    if begin is Err {
        seq![TxCommand::Begin]
    } else if execute is Ok {
        seq![TxCommand::Begin, TxCommand::Execute, TxCommand::Commit]
    } else {
        seq![TxCommand::Begin, TxCommand::Execute, TxCommand::Rollback]
    }
}

/// The commands sent and the state reached when the answers `outcomes` have
/// come in, one for each command in flight, the first of them for the
/// `Begin` that opens every transaction.
pub open spec fn run(outcomes: Seq<Result<(), StoreError>>) -> (TxState, Seq<TxCommand>)
    decreases outcomes.len(),
{
    if outcomes.len() == 0 {
        (TxState::Beginning, seq![TxCommand::Begin])
    } else {
        let (state, sent) = run(outcomes.drop_last());
        let (after, command) = next_step(state, outcomes.last());
        match command {
            Some(command) => (after, sent.push(command)),
            None => (after, sent),
        }
    }
}

/// Every transaction ends after at most three answers, with the result and
/// the commands that [`transaction_result`] and [`transaction_commands`]
/// give: a statement runs only in a transaction that was opened, and exactly
/// one of `Commit` and `Rollback` follows it.
pub proof fn lemma_transaction_runs_to_its_result(
    begin: Result<(), StoreError>,
    execute: Result<(), StoreError>,
    settle: Result<(), StoreError>,
)
    ensures
        begin is Err ==> run(seq![begin]) == (
            TxState::Done(transaction_result(begin, execute, settle)),
            transaction_commands(begin, execute),
        ),
        begin is Ok ==> run(seq![begin, execute, settle]) == (
            TxState::Done(transaction_result(begin, execute, settle)),
            transaction_commands(begin, execute),
        ),
        transaction_result(begin, execute, settle) is Ok <==> begin is Ok && execute is Ok
            && settle is Ok,
{
    let one = seq![begin];
    assert(run(one.drop_last()) == (TxState::Beginning, seq![TxCommand::Begin]));
    if begin is Ok {
        let two = seq![begin, execute];
        let three = seq![begin, execute, settle];
        assert(two.drop_last() =~= one);
        assert(three.drop_last() =~= two);
        assert(run(one) == (
            TxState::Executing,
            seq![TxCommand::Begin].push(TxCommand::Execute),
        ));
        if execute is Err {
            assert(run(two).1 =~= seq![
                TxCommand::Begin,
                TxCommand::Execute,
                TxCommand::Rollback,
            ]);
        }
    }
}

/// A transaction that has ended sends no command and keeps its result,
/// whatever is reported to it.
pub proof fn lemma_done_is_final(result: Result<(), StoreError>, outcome: Result<(), StoreError>)
    ensures
        next_step(TxState::Done(result), outcome) == (
            TxState::Done(result),
            None::<TxCommand>,
        ),
{
}

/// The rows of the orders table: the document of each order under its
/// identifier.
pub type Rows = Map<Seq<char>, OrderView>;

/// The orders table as a store with transactions holds it.
pub struct Table {
    /// The rows that are durable.
    pub committed: Rows,
    /// While a transaction is open, the rows as the transaction sees them.
    pub open: Option<Rows>,
}

/// Every row stands under the identifier of its own document.
pub open spec fn keyed_by_identifier(rows: Rows) -> bool {
    forall|order_uid: Seq<char>|
        rows.dom().contains(order_uid) ==> (#[trigger] rows[order_uid]).order_uid == order_uid
}

/// The table after a store that answers has carried out `command` of a
/// transaction that inserts `order`. `Begin` opens a transaction on the
/// durable rows. `Execute` adds the row inside the open transaction, unless
/// the identifier is taken. `Commit` makes the rows of the transaction the
/// durable ones, `Rollback` drops them.
pub open spec fn table_after(table: Table, command: TxCommand, order: OrderView) -> Table {
    match command {
        TxCommand::Begin => Table { committed: table.committed, open: Some(table.committed) },
        TxCommand::Execute => match table.open {
            Some(rows) => if rows.dom().contains(order.order_uid) {
                table
            } else {
                Table {
                    committed: table.committed,
                    open: Some(rows.insert(order.order_uid, order)),
                }
            },
            None => table,
        },
        TxCommand::Commit => match table.open {
            Some(rows) => Table { committed: rows, open: None },
            None => table,
        },
        TxCommand::Rollback => Table { committed: table.committed, open: None },
    }
}

/// The table after the commands `sent`, the first of them first.
pub open spec fn table_after_all(table: Table, sent: Seq<TxCommand>, order: OrderView) -> Table
    decreases sent.len(),
{
    if sent.len() == 0 {
        table
    } else {
        table_after(table_after_all(table, sent.drop_last(), order), sent.last(), order)
    }
}

/// What a store that enforces its primary key answers to the insertion of
/// `order` into `rows`: it accepts the statement where the identifier is
/// new, and reports a violated uniqueness constraint where it is not.
pub open spec fn enforces_primary_key(
    rows: Rows,
    order: OrderView,
    execute: Result<(), StoreError>,
) -> bool {
    match execute {
        Ok(_) => !rows.dom().contains(order.order_uid),
        Err(error) => rows.dom().contains(order.order_uid) && unique_violation(error),
    }
}

/// Against a store that answers and enforces its primary key, the insertion
/// of an order is all or nothing, and no transaction stays open. An order
/// under a new identifier is committed and then stands in the table. An order
/// under an identifier that the table holds is rolled back: the table is
/// unchanged, still with the one row for that identifier, and the
/// transaction ends with the violation. Either way every row still stands
/// under the identifier of its document.
pub proof fn lemma_insert_is_atomic(
    rows: Rows,
    order: OrderView,
    execute: Result<(), StoreError>,
)
    requires
        enforces_primary_key(rows, order, execute),
    ensures
        ({
            let (state, sent) = run(seq![Ok(()), execute, Ok(())]);
            let after = table_after_all(Table { committed: rows, open: None }, sent, order);
            &&& after.open is None
            &&& keyed_by_identifier(rows) ==> keyed_by_identifier(after.committed)
            &&& if rows.dom().contains(order.order_uid) {
                &&& after.committed == rows
                &&& state matches TxState::Done(Err(error)) && unique_violation(error)
            } else {
                &&& after.committed == rows.insert(order.order_uid, order)
                &&& state == TxState::Done(Ok(()))
            }
        }),
{
    lemma_transaction_runs_to_its_result(Ok(()), execute, Ok(()));
    let sent = transaction_commands(Ok(()), execute);
    let closed = Table { committed: rows, open: None };
    let none = Seq::<TxCommand>::empty();
    let one = seq![TxCommand::Begin];
    let two = seq![TxCommand::Begin, TxCommand::Execute];
    assert(one.drop_last() =~= none);
    assert(two.drop_last() =~= one);
    assert(sent.drop_last() =~= two);
    assert(table_after_all(closed, none, order) == closed);
    assert(table_after_all(closed, one, order) == Table { committed: rows, open: Some(rows) });
    assert(table_after_all(closed, two, order) == table_after(
        Table { committed: rows, open: Some(rows) },
        TxCommand::Execute,
        order,
    ));
}

} // verus!
