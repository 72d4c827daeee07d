//! The calls into the database engine.

use crate::double::is_finite;
use crate::value::{Native, NativeValue};
use vstd::prelude::*;

verus! {

/// `rusqlite::Connection`: an open database.
#[verifier::external_type_specification]
#[verifier::external_body]
pub struct ExConnection(rusqlite::Connection);

/// `rusqlite::Error`: why the engine refused.
#[verifier::external_type_specification]
#[verifier::external_body]
pub struct ExEngineError(rusqlite::Error);

/// `rusqlite::CachedStatement`: a compiled statement that goes back to its
/// connection's cache when it is dropped.
#[verifier::external_type_specification]
#[verifier::external_body]
pub struct ExCachedStatement<'conn>(rusqlite::CachedStatement<'conn>);

/// `rusqlite::Rows`: a cursor over the rows that a statement yields.
#[verifier::external_type_specification]
#[verifier::external_body]
pub struct ExRows<'stmt>(rusqlite::Rows<'stmt>);

/// `rusqlite::Row`: the row at which a cursor stands.
#[verifier::external_type_specification]
#[verifier::external_body]
pub struct ExRow<'stmt>(rusqlite::Row<'stmt>);

/// `rusqlite::types::ToSqlOutput`: a value lent to the engine as a
/// statement parameter.
#[verifier::external_type_specification]
#[verifier::external_body]
pub struct ExToSqlOutput<'a>(rusqlite::types::ToSqlOutput<'a>);

/// The text that `error` displays.
pub uninterp spec fn error_words(error: rusqlite::Error) -> Seq<char>;

/// The native value that `output` lends to the engine.
pub uninterp spec fn lent(output: rusqlite::types::ToSqlOutput<'_>) -> Native;

/// Whether the cursor has let go of its statement: it has come to the end of
/// its rows and hands out no more.
pub uninterp spec fn is_spent(rows: rusqlite::Rows<'_>) -> bool;

/// The number of columns of `row`.
pub uninterp spec fn row_width(row: &rusqlite::Row<'_>) -> nat;

/// What `row` holds in column `index`.
pub uninterp spec fn row_cell(row: &rusqlite::Row<'_>, index: int) -> Native;

/// `rusqlite::Connection::open`: opens the database at `path`, creating the
/// file where there is none. Nothing is claimed of the outcome.
#[verifier::external_body]
pub(crate) fn open_database(path: &str) -> (r: Result<rusqlite::Connection, rusqlite::Error>) {
    rusqlite::Connection::open(path)
}

/// `rusqlite::Connection::prepare_cached`: compiles `sql`, or takes the
/// compiled statement out of the connection's cache. Nothing is claimed of
/// the outcome.
#[verifier::external_body]
pub(crate) fn prepare_cached<'conn>(conn: &'conn rusqlite::Connection, sql: &str) -> (r: Result<
    rusqlite::CachedStatement<'conn>,
    rusqlite::Error,
>) {
    conn.prepare_cached(sql)
}

/// Lends `value` to the engine as a statement parameter, variant for
/// variant: what is lent is the content of `value`. Of a real that is not
/// finite nothing is claimed, since one that holds no double counts as such
/// and is lent as what it holds.
#[verifier::external_body]
pub(crate) fn bind_value<'a>(value: &'a NativeValue) -> (r: rusqlite::types::ToSqlOutput<'a>)
    ensures
        !(value@ matches Native::Real(bits) && !is_finite(bits)) ==> lent(r) == value@,
{
    match value {
        NativeValue::Null => rusqlite::types::ToSqlOutput::from(rusqlite::types::Null),
        NativeValue::Integer(i) => rusqlite::types::ToSqlOutput::from(*i),
        NativeValue::Real(double) => rusqlite::types::ToSqlOutput::from(double),
        NativeValue::Text(t) => rusqlite::types::ToSqlOutput::Borrowed(
            rusqlite::types::ValueRef::Text(t),
        ),
        NativeValue::Blob(b) => rusqlite::types::ToSqlOutput::Borrowed(
            rusqlite::types::ValueRef::Blob(b),
        ),
    }
}

/// `rusqlite::Statement::execute`: binds `params` to the placeholders in
/// order, runs the statement as a mutation and counts the rows it changed.
/// Nothing is claimed of the outcome.
#[verifier::external_body]
pub(crate) fn execute_statement(
    statement: &mut rusqlite::CachedStatement<'_>,
    params: Vec<rusqlite::types::ToSqlOutput<'_>>,
) -> (r: Result<usize, rusqlite::Error>) {
    statement.execute(params)
}

/// `rusqlite::Statement::query`: binds `params` to the placeholders in order
/// and hands out a cursor over the rows. Nothing is claimed of the outcome.
#[verifier::external_body]
pub(crate) fn query_statement<'a>(
    statement: &'a mut rusqlite::CachedStatement<'_>,
    params: Vec<rusqlite::types::ToSqlOutput<'_>>,
) -> (r: Result<rusqlite::Rows<'a>, rusqlite::Error>) {
    statement.query(params)
}

/// `rusqlite::Rows::next`: steps the cursor to its next row, if it has one.
/// A cursor that finds no further row lets go of its statement, and one
/// that has let go of it finds no row. Nothing else is claimed of the
/// outcome.
#[verifier::external_body]
pub(crate) fn next_row<'a, 'stmt>(rows: &'a mut rusqlite::Rows<'stmt>) -> (r: Result<
    Option<&'a rusqlite::Row<'stmt>>,
    rusqlite::Error,
>)
    ensures
        is_spent(*old(rows)) ==> r matches Ok(None),
        r matches Ok(None) ==> is_spent(*final(rows)),
{
    rows.next()
}

/// `rusqlite::Row::column_count`: the number of columns of `row`.
#[verifier::external_body]
pub(crate) fn column_count(row: &rusqlite::Row<'_>) -> (n: usize)
    ensures
        n == row_width(row),
{
    row.column_count()
}

/// `rusqlite::Row::get_raw`: what `row` holds in column `index`, copied out
/// variant for variant. The outside function panics on an index that is no
/// column of the row.
#[verifier::external_body]
pub(crate) fn column_value(row: &rusqlite::Row<'_>, index: usize) -> (r: NativeValue)
    requires
        index < row_width(row),
    ensures
        r@ == row_cell(row, index as int),
{
    match row.get_raw(index) {
        rusqlite::types::ValueRef::Null => NativeValue::Null,
        rusqlite::types::ValueRef::Integer(i) => NativeValue::Integer(i),
        rusqlite::types::ValueRef::Real(double) => NativeValue::Real(double.into()),
        rusqlite::types::ValueRef::Text(t) => NativeValue::Text(t.to_vec()),
        rusqlite::types::ValueRef::Blob(b) => NativeValue::Blob(b.to_vec()),
    }
}

/// The `Display` of `rusqlite::Error`: the text that `error` displays.
#[verifier::external_body]
pub(crate) fn error_text(error: &rusqlite::Error) -> (r: String)
    ensures
        r@ == error_words(*error),
{
    format!("{}", error)
}

} // verus!
