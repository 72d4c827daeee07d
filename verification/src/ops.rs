//! The three operations that the host calls, from request to response.

use crate::error::BridgeError;
use crate::executor::{
    execute, is_encoded_row, is_statement_failure, is_walk_failure, query,
};
use crate::registry::ConnectionRegistry;
use crate::value::{wire_views, DynamicValue};
use vstd::prelude::*;

verus! {

/// What the host sends to open a connection.
#[derive(Debug, PartialEq)]
pub struct OpOpenConnectionParams {
    pub path: String,
}

/// What the host gets back for it: the handle, or the error.
#[derive(Debug, PartialEq)]
pub struct OpOpenConnectionResponse {
    pub error: Option<String>,
    pub connection_id: Option<u32>,
}

/// What the host sends to run a statement that changes the database.
#[derive(Debug, PartialEq)]
pub struct OpExecuteParams {
    pub connection_id: u32,
    pub statement: String,
    pub params: Vec<DynamicValue>,
}

/// What the host gets back for it. The error is empty on success.
#[derive(Debug, PartialEq)]
pub struct OpExecuteResponse {
    pub error: String,
    pub rows_affected: u64,
}

/// What the host sends to run a statement that yields rows.
#[derive(Debug, PartialEq)]
pub struct OpQueryParams {
    pub connection_id: u32,
    pub statement: String,
    pub params: Vec<DynamicValue>,
}

/// What the host gets back for it. The error is empty on success.
#[derive(Debug, PartialEq)]
pub struct OpQueryResponse {
    pub error: String,
    pub result: Vec<Vec<DynamicValue>>,
}

/// The response to an attempt to open a connection: the handle and no error,
/// or the error's text and no handle.
pub fn open_connection_response(outcome: Result<u32, BridgeError>) -> (r: OpOpenConnectionResponse)
    ensures
        match outcome {
            Ok(handle) => r.error is None && r.connection_id == Some(handle),
            Err(error) => {
                &&& r.connection_id is None
                &&& r.error is Some
                &&& r.error->Some_0@ == error.message_spec()
            },
        },
{
    match outcome {
        Ok(handle) => OpOpenConnectionResponse { error: None, connection_id: Some(handle) },
        Err(error) => OpOpenConnectionResponse {
            error: Some(error.message()),
            connection_id: None,
        },
    }
}

/// The response to a statement that was to change the database: the count of
/// changed rows and an empty error, or the error's text and a count of zero.
pub fn execute_response(outcome: Result<usize, BridgeError>) -> (r: OpExecuteResponse)
    ensures
        match outcome {
            Ok(changed) => r.error@.len() == 0 && r.rows_affected == changed,
            Err(error) => r.error@ == error.message_spec() && r.rows_affected == 0,
        },
{
    match outcome {
        Ok(changed) => OpExecuteResponse { error: String::new(), rows_affected: changed as u64 },
        Err(error) => OpExecuteResponse { error: error.message(), rows_affected: 0 },
    }
}

/// The response to a statement that was to yield rows: the rows and an empty
/// error, or the error's text and no row.
pub fn query_response(outcome: Result<Vec<Vec<DynamicValue>>, BridgeError>) -> (r:
    OpQueryResponse)
    ensures
        match outcome {
            Ok(rows) => r.error@.len() == 0 && r.result == rows,
            Err(error) => r.error@ == error.message_spec() && r.result@.len() == 0,
        },
{
    match outcome {
        Ok(rows) => OpQueryResponse { error: String::new(), result: rows },
        Err(error) => OpQueryResponse { error: error.message(), result: Vec::new() },
    }
}

/// Opens the database that the request names and answers with its handle.
///
/// A handle that comes back is the one that was next and in no use, and the
/// registry then holds one connection more, under it, with the connections
/// under the other handles as they were. Where no handle comes back the
/// response carries the error and the registry holds what it held; the
/// attempt has still taken a handle, if one was left.
pub fn op_open_connection(registry: &mut ConnectionRegistry, params: &OpOpenConnectionParams) -> (r:
    OpOpenConnectionResponse)
    ensures
        old(registry).handles_below_next(),
        final(registry).handles_below_next(),
        match r.connection_id {
            Some(handle) => {
                &&& r.error is None
                &&& old(registry).opened(*final(registry), handle)
            },
            None => {
                &&& r.error is Some
                &&& r.error->Some_0@.len() > 0
                &&& final(registry).connections() == old(registry).connections()
                &&& final(registry).next_handle() == if old(registry).next_handle() == u32::MAX {
                    u32::MAX
                } else {
                    (old(registry).next_handle() + 1) as u32
                }
            },
        },
{
    let outcome = registry.open(params.path.as_str());
    proof {
        if outcome is Err {
            outcome->Err_0.lemma_message_is_not_empty();
        }
    }
    open_connection_response(outcome)
}

/// Runs the statement of the request and answers with the count of rows it
/// changed.
///
/// Under a handle that stands for no connection the answer is a count of
/// zero and no error. An error always comes with a count of zero, and is
/// the text of a refusal of the engine.
pub fn op_execute(registry: &ConnectionRegistry, params: &OpExecuteParams) -> (r: OpExecuteResponse)
    ensures
        !registry.handles().contains(params.connection_id) ==> r.rows_affected == 0
            && r.error@.len() == 0,
        r.error@.len() > 0 ==> r.rows_affected == 0,
        r.error@.len() > 0 ==> exists|error: BridgeError| #[trigger]
            is_statement_failure(error) && r.error@ == error.message_spec(),
{
    let outcome = execute(
        registry,
        params.connection_id,
        params.statement.as_str(),
        &params.params,
    );
    execute_response(outcome)
}

/// Runs the statement of the request and answers with the rows it yields.
///
/// Under a handle that stands for no connection the answer is no row and no
/// error. An error always comes with no row, and is the text of what the
/// walk over the rows ended in. Every row that comes back is the wire form
/// of some cells.
pub fn op_query(registry: &ConnectionRegistry, params: &OpQueryParams) -> (r: OpQueryResponse)
    ensures
        !registry.handles().contains(params.connection_id) ==> r.result@.len() == 0
            && r.error@.len() == 0,
        r.error@.len() > 0 ==> r.result@.len() == 0,
        r.error@.len() > 0 ==> exists|error: BridgeError| #[trigger]
            is_walk_failure(error) && r.error@ == error.message_spec(),
        forall|i: int|
            0 <= i < r.result.len() ==> is_encoded_row(wire_views(#[trigger] r.result[i]@)),
{
    let outcome = query(
        registry,
        params.connection_id,
        params.statement.as_str(),
        &params.params,
    );
    query_response(outcome)
}

} // verus!
