use deno_sqlite_plugin::codec::EncodeError;
use deno_sqlite_plugin::error::BridgeError;
use deno_sqlite_plugin::ops::{
    execute_response, op_execute, op_open_connection, op_query, open_connection_response,
    query_response, OpExecuteParams, OpExecuteResponse, OpOpenConnectionParams,
    OpOpenConnectionResponse, OpQueryParams, OpQueryResponse,
};
use deno_sqlite_plugin::registry::ConnectionRegistry;
use deno_sqlite_plugin::value::DynamicValue;
use serde_json::Number;

fn number(double: f64) -> DynamicValue {
    DynamicValue::Number(Number::from_f64(double).unwrap())
}

fn text(s: &str) -> DynamicValue {
    DynamicValue::String(s.to_string())
}

fn open(registry: &mut ConnectionRegistry, path: &str) -> OpOpenConnectionResponse {
    op_open_connection(registry, &OpOpenConnectionParams { path: path.to_string() })
}

fn run(
    registry: &ConnectionRegistry,
    id: u32,
    sql: &str,
    params: Vec<DynamicValue>,
) -> OpExecuteResponse {
    op_execute(
        registry,
        &OpExecuteParams { connection_id: id, statement: sql.to_string(), params },
    )
}

fn ask(
    registry: &ConnectionRegistry,
    id: u32,
    sql: &str,
    params: Vec<DynamicValue>,
) -> OpQueryResponse {
    op_query(registry, &OpQueryParams { connection_id: id, statement: sql.to_string(), params })
}

#[test]
fn opening_twice_answers_with_zero_then_one() {
    let mut registry = ConnectionRegistry::new();
    assert_eq!(
        open(&mut registry, ":memory:"),
        OpOpenConnectionResponse { error: None, connection_id: Some(0) }
    );
    assert_eq!(
        open(&mut registry, ":memory:"),
        OpOpenConnectionResponse { error: None, connection_id: Some(1) }
    );
}

#[test]
fn opening_what_cannot_be_opened_answers_with_an_error() {
    let mut registry = ConnectionRegistry::new();
    let response = open(&mut registry, "/no/such/directory/at/all/db.sqlite");
    assert_eq!(response.connection_id, None);
    let error = response.error.unwrap();
    assert!(error.starts_with("connection failed: "), "{}", error);
    assert!(error.len() > "connection failed: ".len());
}

#[test]
fn scenario_through_the_operations() {
    let mut registry = ConnectionRegistry::new();
    let id = open(&mut registry, ":memory:").connection_id.unwrap();
    assert_eq!(
        run(&registry, id, "CREATE TABLE t (id INTEGER, name TEXT)", vec![]),
        OpExecuteResponse { error: String::new(), rows_affected: 0 }
    );
    assert_eq!(
        run(
            &registry,
            id,
            "INSERT INTO t VALUES (?, ?)",
            vec![DynamicValue::Number(Number::from(1)), text("a")]
        ),
        OpExecuteResponse { error: String::new(), rows_affected: 1 }
    );
    assert_eq!(
        ask(&registry, id, "SELECT * FROM t", vec![]),
        OpQueryResponse { error: String::new(), result: vec![vec![number(1.0), text("a")]] }
    );
    assert_eq!(
        ask(&registry, id, "SELECT * FROM t WHERE id = 2", vec![]),
        OpQueryResponse { error: String::new(), result: vec![] }
    );
}

#[test]
fn unknown_handle_answers_with_nothing_and_no_error() {
    let registry = ConnectionRegistry::new();
    assert_eq!(
        run(&registry, 4, "DELETE FROM t", vec![]),
        OpExecuteResponse { error: String::new(), rows_affected: 0 }
    );
    assert_eq!(
        ask(&registry, 4, "SELECT * FROM t", vec![]),
        OpQueryResponse { error: String::new(), result: vec![] }
    );
}

#[test]
fn refused_statement_answers_with_an_error_and_nothing_else() {
    let mut registry = ConnectionRegistry::new();
    let id = open(&mut registry, ":memory:").connection_id.unwrap();
    let response = run(&registry, id, "this is no sql", vec![]);
    assert_eq!(response.rows_affected, 0);
    assert!(response.error.starts_with("statement failed: "), "{}", response.error);
    let response = ask(&registry, id, "SELECT * FROM missing", vec![]);
    assert_eq!(response.result, Vec::<Vec<DynamicValue>>::new());
    assert!(response.error.starts_with("statement failed: "), "{}", response.error);
    assert!(response.error.contains("missing"), "{}", response.error);
}

#[test]
fn row_that_cannot_be_encoded_answers_with_an_error_and_no_row() {
    let mut registry = ConnectionRegistry::new();
    let id = open(&mut registry, ":memory:").connection_id.unwrap();
    assert_eq!(
        ask(&registry, id, "SELECT 1 UNION ALL SELECT 9e999", vec![]),
        OpQueryResponse {
            error: "encoding failed: a real is not finite".to_string(),
            result: vec![],
        }
    );
}

#[test]
fn responses_are_shaped_from_outcomes() {
    assert_eq!(
        open_connection_response(Ok(5)),
        OpOpenConnectionResponse { error: None, connection_id: Some(5) }
    );
    assert_eq!(
        open_connection_response(Err(BridgeError::HandlesExhausted)),
        OpOpenConnectionResponse {
            error: Some("connection failed: no handle is left".to_string()),
            connection_id: None,
        }
    );
    assert_eq!(
        execute_response(Ok(3)),
        OpExecuteResponse { error: String::new(), rows_affected: 3 }
    );
    assert_eq!(
        execute_response(Err(BridgeError::Statement("near x".to_string()))),
        OpExecuteResponse { error: "statement failed: near x".to_string(), rows_affected: 0 }
    );
    assert_eq!(
        query_response(Ok(vec![vec![DynamicValue::Null]])),
        OpQueryResponse { error: String::new(), result: vec![vec![DynamicValue::Null]] }
    );
    assert_eq!(
        query_response(Err(BridgeError::Encode(EncodeError::TooLarge))),
        OpQueryResponse {
            error: "encoding failed: a value is too large".to_string(),
            result: vec![],
        }
    );
}

#[test]
fn every_error_has_its_text() {
    assert_eq!(
        BridgeError::Deserialization("eof".to_string()).message(),
        "malformed request: eof"
    );
    assert_eq!(
        BridgeError::Connection("no file".to_string()).message(),
        "connection failed: no file"
    );
    assert_eq!(BridgeError::HandlesExhausted.message(), "connection failed: no handle is left");
    assert_eq!(BridgeError::Statement(String::new()).message(), "statement failed: ");
    assert_eq!(
        BridgeError::Encode(EncodeError::NotFinite).message(),
        "encoding failed: a real is not finite"
    );
    assert_eq!(
        BridgeError::Encode(EncodeError::TooLarge).message(),
        "encoding failed: a value is too large"
    );
}

#[test]
fn engine_errors_carry_the_engine_words() {
    let failure = rusqlite::Connection::open(":memory:")
        .unwrap()
        .prepare("SELECT * FROM missing")
        .unwrap_err();
    let words = failure.to_string();
    assert_eq!(BridgeError::statement(&failure), BridgeError::Statement(words.clone()));
    assert_eq!(BridgeError::connection(&failure), BridgeError::Connection(words));
}

#[test]
fn answer_of_the_engine_is_kept_or_becomes_a_statement_error() {
    let connection = rusqlite::Connection::open(":memory:").unwrap();
    let answer = connection.execute("CREATE TABLE t (x)", rusqlite::NO_PARAMS);
    assert_eq!(BridgeError::of_statement(answer), Ok(0));
    let failure = connection.execute("CREATE TABLE t (x)", rusqlite::NO_PARAMS);
    let words = failure.as_ref().unwrap_err().to_string();
    assert_eq!(BridgeError::of_statement(failure), Err(BridgeError::Statement(words)));
}
