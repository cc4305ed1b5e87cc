//! The calls into the `sqlite` crate.
//!
//! Nothing in this file is proved. Each function makes one call into the
//! crate and converts what goes in and what comes out; its contract says what
//! the rest of the library relies on. What a call returns depends on the
//! database, so most of them promise nothing about it.

use vstd::prelude::*;
use vstd::utf8::encode_utf8;
use crate::statement::{is_statement, schema_texts};
use crate::value::{ColumnModel, ColumnValue, Real};

verus! {

#[verifier::external_type_specification]
#[verifier::external_body]
pub struct ExConnection(sqlite::Connection);

#[verifier::external_type_specification]
#[verifier::external_body]
pub struct ExStatement<'l>(sqlite::Statement<'l>);

#[verifier::external_type_specification]
#[verifier::external_body]
pub struct ExValue(sqlite::Value);

#[verifier::external_type_specification]
#[verifier::external_body]
pub struct ExError(sqlite::Error);

/// The longest text or blob, in bytes, that can be bound: the engine takes
/// the length as a 32-bit signed integer.
pub const MAX_BOUND_BYTES: usize = 0x7fff_ffff;

/// The last placeholder that can be bound: the engine takes the position as
/// a 32-bit signed integer.
pub const MAX_PLACEHOLDER: usize = 0x7fff_ffff;

/// A value short enough for the engine to take.
pub open spec fn bindable(value: ColumnModel) -> bool {
    match value {
        ColumnModel::Text(s) => encode_utf8(s).len() <= MAX_BOUND_BYTES,
        ColumnModel::Blob(b) => b.len() <= MAX_BOUND_BYTES,
        _ => true,
    }
}

/// `<sqlite::Value as Clone>::clone`, which is derived: the copy is the
/// value itself.
pub assume_specification[ <sqlite::Value as Clone>::clone ](value: &sqlite::Value) -> (copy:
    sqlite::Value)
    ensures
        copy == *value,
;

/// The column value that an engine value stands for: which of its five
/// variants the engine value is, and what that variant holds.
pub uninterp spec fn column_of(value: sqlite::Value) -> ColumnModel;

/// The code and the message that an engine error holds.
pub uninterp spec fn error_parts_of(error: sqlite::Error) -> (Option<isize>, Option<Seq<char>>);

/// Tells the variants of a `sqlite::Value` apart, one for one: `Null`,
/// `Integer`, `Float`, `String` and `Binary` become `Null`, `Integer`,
/// `Real`, `Text` and `Blob`, each with what the variant holds. A `Float` is
/// kept whole inside the [`Real`] that carries it.
#[verifier::external_body]
pub(crate) fn from_engine(value: &sqlite::Value) -> (column: ColumnValue)
    ensures
        column@ == column_of(*value),
        column matches ColumnValue::Real(x) ==> x.engine_value() == *value,
{
    match value {
        sqlite::Value::Null => ColumnValue::Null,
        sqlite::Value::Integer(n) => ColumnValue::Integer(*n),
        sqlite::Value::Float(_) => ColumnValue::Real(Real { value: value.clone() }),
        sqlite::Value::String(s) => ColumnValue::Text(s.clone()),
        sqlite::Value::Binary(b) => ColumnValue::Blob(b.clone()),
    }
}

/// Moves the two public fields out of a `sqlite::Error`: its code and its
/// message, as they are.
#[verifier::external_body]
pub(crate) fn error_parts(error: sqlite::Error) -> (parts: (Option<isize>, Option<String>))
    ensures
        parts.0 == error_parts_of(error).0,
        match parts.1 {
            Some(message) => error_parts_of(error).1 == Some(message@),
            None => error_parts_of(error).1 is None,
        },
{
    (error.code, error.message)
}

/// `Connection::execute`: runs a statement to its end. Only the statements
/// of the schema are let in.
#[verifier::external_body]
pub(crate) fn execute(connection: &sqlite::Connection, text: &str) -> (outcome: Result<
    (),
    sqlite::Error,
>)
    requires
        schema_texts().contains(text@),
{
    connection.execute(text)
}

/// `Connection::prepare`: compiles a statement. The crate reads the names of
/// the result columns as UTF-8 and panics on a name that is not. The
/// library's own statements are let in: an insertion has no result columns,
/// and each query names its columns in plain letters.
#[verifier::external_body]
pub(crate) fn prepare<'l>(connection: &'l sqlite::Connection, text: &str) -> (outcome: Result<
    sqlite::Statement<'l>,
    sqlite::Error,
>)
    requires
        is_statement(text@),
{
    connection.prepare(text)
}

/// `Statement::bind` with a position and a value. The crate casts the
/// position, and the byte length of a text or blob, to a 32-bit signed
/// integer, so larger ones are left out.
#[verifier::external_body]
pub(crate) fn bind(statement: &mut sqlite::Statement<'_>, index: usize, value: &ColumnValue) -> (outcome:
    Result<(), sqlite::Error>)
    requires
        index <= MAX_PLACEHOLDER,
        bindable(value@),
{
    match value {
        ColumnValue::Null => statement.bind((index, ())),
        ColumnValue::Integer(n) => statement.bind((index, *n)),
        ColumnValue::Real(x) => statement.bind((index, &x.value)),
        ColumnValue::Text(s) => statement.bind((index, s.as_str())),
        ColumnValue::Blob(b) => statement.bind((index, b.as_slice())),
    }
}

/// `Statement::next`: one step of evaluation. `true` where a row is ready,
/// `false` where the statement is done.
#[verifier::external_body]
pub(crate) fn step(statement: &mut sqlite::Statement<'_>) -> (outcome: Result<bool, sqlite::Error>) {
    match statement.next() {
        Ok(sqlite::State::Row) => Ok(true),
        Ok(sqlite::State::Done) => Ok(false),
        Err(error) => Err(error),
    }
}

/// `Statement::column_names`: the names of the result columns, in order.
#[verifier::external_body]
pub(crate) fn column_names(statement: &sqlite::Statement<'_>) -> (names: Vec<String>) {
    statement.column_names().to_vec()
}

/// `Cursor::try_next` on the cursor that `Statement::iter` gives: advances
/// the statement and reads every column of the row it reaches, or returns
/// `None` after the last row.
#[verifier::external_body]
pub(crate) fn next_row(statement: &mut sqlite::Statement<'_>) -> (outcome: Result<
    Option<Vec<sqlite::Value>>,
    sqlite::Error,
>) {
    statement.iter().try_next()
}

} // verus!
