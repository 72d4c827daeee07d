//! Running statements: mutations that count the rows they change, and
//! queries that hand back their rows.

use crate::codec::{
    decode_spec, encode_native_to_wire, encode_spec, is_lendable, json_to_params, EncodeError,
};
use crate::engine::{
    bind_value, column_count, column_value, execute_statement, is_spent, lent, next_row,
    prepare_cached, query_statement, row_cell, row_width,
};
use crate::error::{is_refusal, BridgeError};
use crate::registry::ConnectionRegistry;
use crate::value::{native_views, wire_views, DynamicValue, Native, NativeValue, Wire};
use vstd::prelude::*;
use vstd::string::StringExecFns;

verus! {

/// Whether `row` is what `cells` become on the wire, cell by cell.
pub open spec fn is_encoding_of(row: Seq<Wire>, cells: Seq<Native>) -> bool {
    &&& row.len() == cells.len()
    &&& forall|i: int|
        0 <= i < cells.len() ==> encode_spec(#[trigger] cells[i]) == Ok::<Wire, EncodeError>(
            row[i],
        )
}

/// Whether `row` is the wire form of some cells.
pub open spec fn is_encoded_row(row: Seq<Wire>) -> bool {
    exists|cells: Seq<Native>| is_encoding_of(row, cells)
}

/// Whether `why` is the error of the first of `cells` that has no wire form.
pub open spec fn is_first_failure(cells: Seq<Native>, why: EncodeError) -> bool {
    exists|i: int|
        {
            &&& 0 <= i < cells.len()
            &&& encode_spec(#[trigger] cells[i]) == Err::<Wire, EncodeError>(why)
            &&& forall|j: int| 0 <= j < i ==> encode_spec(#[trigger] cells[j]) is Ok
        }
}

/// The words of the error for a result of more rows than a vector holds.
pub open spec fn too_many_rows() -> Seq<char> {
    "the result has too many rows"@
}

/// Whether `error` is the error for a result of more rows than a vector
/// holds.
pub open spec fn is_overflow(error: BridgeError) -> bool {
    error matches BridgeError::Statement(detail) && detail@ == too_many_rows()
}

/// Whether `error` is one that a statement can end in before it has
/// changed or yielded anything: a refusal of the engine.
pub open spec fn is_statement_failure(error: BridgeError) -> bool {
    exists|refusal: rusqlite::Error| is_refusal(error, refusal)
}

/// Whether `error` is one that a walk over rows can end in: a refusal of
/// the engine, a result of too many rows, or a cell of some row that has no
/// wire form.
pub open spec fn is_walk_failure(error: BridgeError) -> bool {
    ||| is_statement_failure(error)
    ||| is_overflow(error)
    ||| error matches BridgeError::Encode(why) && exists|cells: Seq<Native>|
        is_first_failure(cells, why)
}

/// Whether taking a row of `cells` into the rows `before` leaves `after`
/// and ends as `failure` says. Without a failure the rows are those before
/// and, after them, the wire form of the cells. With one the rows are as
/// they were: the failure is that of too many rows where no further row
/// fits, and else that of the first cell that has no wire form.
pub open spec fn is_absorbed(
    before: Seq<Vec<DynamicValue>>,
    cells: Seq<Native>,
    after: Seq<Vec<DynamicValue>>,
    failure: Option<BridgeError>,
) -> bool {
    match failure {
        None => {
            &&& before.len() < usize::MAX
            &&& after.len() == before.len() + 1
            &&& after.drop_last() == before
            &&& is_encoding_of(wire_views(after.last()@), cells)
        },
        Some(error) => {
            &&& after == before
            &&& if before.len() >= usize::MAX {
                is_overflow(error)
            } else {
                error matches BridgeError::Encode(why) && is_first_failure(cells, why)
            }
        },
    }
}

/// Encodes the cells of one row, in column order.
///
/// The row has a wire form when every cell has one; else the error is that
/// of the first cell that has none.
pub fn encode_row(cells: &Vec<NativeValue>) -> (r: Result<Vec<DynamicValue>, EncodeError>)
    ensures
        match r {
            Ok(row) => is_encoding_of(wire_views(row@), native_views(cells@)),
            Err(error) => is_first_failure(native_views(cells@), error),
        },
{
    let mut row: Vec<DynamicValue> = Vec::new();
    let mut i: usize = 0;
    while i < cells.len()
        invariant
            i <= cells.len(),
            row.len() == i,
            forall|k: int|
                0 <= k < i ==> encode_spec(#[trigger] native_views(cells@)[k]) == Ok::<
                    Wire,
                    EncodeError,
                >(row[k]@),
        decreases cells.len() - i,
    {
        assert(native_views(cells@)[i as int] == cells[i as int]@);
        match encode_native_to_wire(&cells[i]) {
            Ok(value) => {
                row.push(value);
            },
            Err(error) => {
                return Err(error);
            },
        }
        i += 1;
    }
    Ok(row)
}

/// The cells of a row of the engine, one per column, in column order.
pub open spec fn row_cells(row: &rusqlite::Row<'_>) -> Seq<Native> {
    Seq::new(row_width(row), |i: int| row_cell(row, i))
}

/// Copies the cells out of a row of the engine, one per column, in column
/// order.
pub fn read_row(row: &rusqlite::Row<'_>) -> (r: Vec<NativeValue>)
    ensures
        native_views(r@) == row_cells(row),
{
    let width = column_count(row);
    let mut cells: Vec<NativeValue> = Vec::new();
    let mut i: usize = 0;
    while i < width
        invariant
            i <= width,
            width == row_width(row),
            cells.len() == i,
            forall|k: int| 0 <= k < i ==> (#[trigger] cells[k])@ == row_cell(row, k),
        decreases width - i,
    {
        cells.push(column_value(row, i));
        i += 1;
    }
    assert(native_views(cells@) =~= row_cells(row));
    cells
}

/// Lends the parameters to the engine, each at its own place: what is lent
/// at a place is the content of the parameter at that place.
pub fn bind_params<'a>(params: &'a Vec<NativeValue>) -> (r: Vec<rusqlite::types::ToSqlOutput<'a>>)
    ensures
        r.len() == params.len(),
        forall|i: int|
            0 <= i < r.len() && is_lendable(params[i]@) ==> lent(#[trigger] r[i]) == params[i]@,
{
    let mut bound: Vec<rusqlite::types::ToSqlOutput<'a>> = Vec::new();
    let mut i: usize = 0;
    while i < params.len()
        invariant
            i <= params.len(),
            bound.len() == i,
            forall|k: int|
                0 <= k < i && is_lendable(params[k]@) ==> lent(#[trigger] bound[k])
                    == params[k]@,
        decreases params.len() - i,
    {
        bound.push(bind_value(&params[i]));
        i += 1;
    }
    bound
}

/// Takes the cells of one row into the rows gathered so far: their wire
/// form becomes the last of the rows. Where a cell has no wire form, or no
/// further row fits, the rows stay as they were and the error says which.
pub fn absorb(result: &mut Vec<Vec<DynamicValue>>, cells: &Vec<NativeValue>) -> (r: Result<
    (),
    BridgeError,
>)
    ensures
        is_absorbed(
            old(result)@,
            native_views(cells@),
            final(result)@,
            match r {
                Ok(_) => None,
                Err(error) => Some(error),
            },
        ),
{
    if result.len() == usize::MAX {
        return Err(BridgeError::Statement(String::from_str("the result has too many rows")));
    }
    match encode_row(cells) {
        Err(why) => Err(BridgeError::Encode(why)),
        Ok(encoded) => {
            result.push(encoded);
            assert(result@.drop_last() =~= old(result)@);
            Ok(())
        },
    }
}

/// Takes one answer of the cursor into the rows gathered so far, and says
/// whether the walk goes on.
///
/// A row is read and absorbed, and the walk goes on. At the end of the
/// cursor the rows stay as they are and the walk is over. A refusal of the
/// engine ends the walk as a statement error with the engine's words.
pub fn advance(
    result: &mut Vec<Vec<DynamicValue>>,
    answer: Result<Option<&rusqlite::Row<'_>>, rusqlite::Error>,
) -> (r: Result<bool, BridgeError>)
    ensures
        match answer {
            Err(refusal) => {
                &&& final(result)@ == old(result)@
                &&& r is Err
                &&& is_refusal(r->Err_0, refusal)
            },
            Ok(None) => {
                &&& final(result)@ == old(result)@
                &&& r == Ok::<bool, BridgeError>(false)
            },
            Ok(Some(row)) => {
                &&& r is Ok ==> r == Ok::<bool, BridgeError>(true)
                &&& is_absorbed(
                    old(result)@,
                    row_cells(row),
                    final(result)@,
                    match r {
                        Ok(_) => None,
                        Err(error) => Some(error),
                    },
                )
            },
        },
{
    match answer {
        Err(refusal) => Err(BridgeError::statement(&refusal)),
        Ok(None) => Ok(false),
        Ok(Some(row)) => {
            let cells = read_row(row);
            match absorb(result, &cells) {
                Ok(_) => Ok(true),
                Err(error) => Err(error),
            }
        },
    }
}

/// Parameters that are decoded and then lent reach the engine place by
/// place: what is lent at a place is what the parameter at that place
/// decodes to.
pub proof fn lemma_lent_is_decoded(
    params: Seq<DynamicValue>,
    natives: Seq<NativeValue>,
    bound: Seq<rusqlite::types::ToSqlOutput<'_>>,
)
    requires
        native_views(natives) == wire_views(params).map_values(|w: Wire| decode_spec(w)),
        forall|i: int| 0 <= i < natives.len() ==> is_lendable(#[trigger] natives[i]@),
        bound.len() == natives.len(),
        forall|i: int|
            0 <= i < bound.len() && is_lendable(natives[i]@) ==> lent(#[trigger] bound[i])
                == natives[i]@,
    ensures
        bound.len() == params.len(),
        forall|i: int|
            0 <= i < bound.len() ==> lent(#[trigger] bound[i]) == decode_spec(params[i]@),
{
    assert(native_views(natives).len() == natives.len());
    assert(wire_views(params).len() == params.len());
    assert forall|i: int| 0 <= i < bound.len() implies lent(#[trigger] bound[i]) == decode_spec(
        params[i]@,
    ) by {
        assert(native_views(natives)[i] == natives[i]@);
        assert(wire_views(params)[i] == params[i]@);
    }
}

/// Runs a statement that changes the database and counts the rows it
/// changed.
///
/// The statement is compiled through the connection's cache and the
/// parameters are decoded and lent to the engine for its placeholders, each
/// at its own place. Under a handle that stands for no connection nothing
/// is run and no row counts as changed. Whatever the engine refuses comes
/// back as a statement error with the engine's words.
pub fn execute(
    registry: &ConnectionRegistry,
    handle: u32,
    statement: &str,
    params: &Vec<DynamicValue>,
) -> (r: Result<usize, BridgeError>)
    ensures
        !registry.handles().contains(handle) ==> r == Ok::<usize, BridgeError>(0),
        r matches Err(error) ==> is_statement_failure(error),
{
    match registry.lookup(handle) {
        None => Ok(0),
        Some(connection) => {
            let natives = json_to_params(params);
            match BridgeError::of_statement(prepare_cached(connection, statement)) {
                Err(error) => Err(error),
                Ok(mut prepared) => {
                    let bound = bind_params(&natives);
                    proof {
                        lemma_lent_is_decoded(params@, natives@, bound@);
                    }
                    BridgeError::of_statement(execute_statement(&mut prepared, bound))
                },
            }
        },
    }
}

/// Walks a cursor to its end and gathers the wire form of every row it
/// yields, in the order in which the engine yields them: each answer of the
/// cursor goes through `advance`.
///
/// Where rows come back the cursor is spent: it has been walked to its end.
/// A cursor that was spent before the walk yields no row and no error.
pub fn collect_rows(rows: &mut rusqlite::Rows<'_>) -> (r: Result<
    Vec<Vec<DynamicValue>>,
    BridgeError,
>)
    ensures
        r is Ok ==> is_spent(*final(rows)),
        is_spent(*old(rows)) ==> r is Ok && r->Ok_0@.len() == 0,
        r matches Ok(result) ==> forall|i: int|
            0 <= i < result.len() ==> is_encoded_row(wire_views(#[trigger] result[i]@)),
        r matches Err(error) ==> is_walk_failure(error),
{
    let mut result: Vec<Vec<DynamicValue>> = Vec::new();
    loop
        invariant
            is_spent(*old(rows)) ==> result.len() == 0 && is_spent(*rows),
            forall|i: int|
                0 <= i < result.len() ==> is_encoded_row(wire_views(#[trigger] result[i]@)),
        decreases usize::MAX - result.len(),
    {
        let ghost before = result@;
        let answer = next_row(rows);
        let ghost ended = answer matches Ok(None);
        let ghost cells = match answer {
            Ok(Some(row)) => row_cells(row),
            _ => Seq::empty(),
        };
        match advance(&mut result, answer) {
            Err(error) => {
                return Err(error);
            },
            Ok(false) => {
                return Ok(result);
            },
            Ok(true) => {
                assert forall|i: int| 0 <= i < result.len() implies is_encoded_row(
                    wire_views(#[trigger] result[i]@),
                ) by {
                    if i < before.len() {
                        assert(result[i] == result@.drop_last()[i]);
                    } else {
                        assert(result[i] == result@.last());
                        assert(is_encoding_of(wire_views(result[i]@), cells));
                    }
                }
            },
        }
    }
}

/// Runs a statement that yields rows and hands back all of them.
///
/// The statement is compiled through the connection's cache and the
/// parameters are decoded and lent to the engine for its placeholders, each
/// at its own place. Under a handle that stands for no connection nothing
/// is run and there is no row. Every row that comes back is the wire form
/// of some cells.
pub fn query(
    registry: &ConnectionRegistry,
    handle: u32,
    statement: &str,
    params: &Vec<DynamicValue>,
) -> (r: Result<Vec<Vec<DynamicValue>>, BridgeError>)
    ensures
        !registry.handles().contains(handle) ==> r is Ok && r->Ok_0@.len() == 0,
        r matches Ok(result) ==> forall|i: int|
            0 <= i < result.len() ==> is_encoded_row(wire_views(#[trigger] result[i]@)),
        r matches Err(error) ==> is_walk_failure(error),
{
    match registry.lookup(handle) {
        None => Ok(Vec::new()),
        Some(connection) => {
            let natives = json_to_params(params);
            match BridgeError::of_statement(prepare_cached(connection, statement)) {
                Err(error) => Err(error),
                Ok(mut prepared) => {
                    let bound = bind_params(&natives);
                    proof {
                        lemma_lent_is_decoded(params@, natives@, bound@);
                    }
                    match BridgeError::of_statement(query_statement(&mut prepared, bound)) {
                        Err(error) => Err(error),
                        Ok(mut rows) => collect_rows(&mut rows),
                    }
                },
            }
        },
    }
}

} // verus!
