use deno_sqlite_plugin::error::BridgeError;
use deno_sqlite_plugin::registry::ConnectionRegistry;

#[test]
fn new_registry_knows_no_handle() {
    let registry = ConnectionRegistry::new();
    assert!(!registry.contains(0));
    assert!(!registry.contains(1));
    assert!(registry.lookup(0).is_none());
}

#[test]
fn handles_count_up_from_zero() {
    let mut registry = ConnectionRegistry::new();
    assert_eq!(registry.open(":memory:"), Ok(0));
    assert_eq!(registry.open(":memory:"), Ok(1));
    assert_eq!(registry.open(":memory:"), Ok(2));
    assert!(registry.contains(0));
    assert!(registry.contains(1));
    assert!(registry.contains(2));
    assert!(!registry.contains(3));
}

#[test]
fn each_registry_counts_for_itself() {
    let mut first = ConnectionRegistry::new();
    let mut second = ConnectionRegistry::new();
    assert_eq!(first.open(":memory:"), Ok(0));
    assert_eq!(second.open(":memory:"), Ok(0));
    assert_eq!(first.open(":memory:"), Ok(1));
}

#[test]
fn lookup_finds_the_connection_under_its_handle() {
    let mut registry = ConnectionRegistry::new();
    let first = registry.open(":memory:").unwrap();
    let second = registry.open(":memory:").unwrap();
    registry
        .lookup(first)
        .unwrap()
        .execute_batch("CREATE TABLE only_in_first (x INTEGER)")
        .unwrap();
    assert!(registry.lookup(first).unwrap().prepare("SELECT x FROM only_in_first").is_ok());
    assert!(registry.lookup(second).unwrap().prepare("SELECT x FROM only_in_first").is_err());
    assert!(registry.lookup(2).is_none());
}

#[test]
fn failed_open_is_a_connection_error_and_takes_a_handle() {
    let mut registry = ConnectionRegistry::new();
    match registry.open("/no/such/directory/at/all/db.sqlite") {
        Err(BridgeError::Connection(detail)) => assert!(!detail.is_empty()),
        other => panic!("not a connection error: {:?}", other),
    }
    assert!(!registry.contains(0));
    assert_eq!(registry.open(":memory:"), Ok(1));
    assert!(!registry.contains(0));
    assert!(registry.contains(1));
}

#[test]
fn register_keeps_a_connection_under_the_next_handle() {
    let mut registry = ConnectionRegistry::new();
    assert_eq!(registry.register(rusqlite::Connection::open_in_memory()), Ok(0));
    assert_eq!(registry.open(":memory:"), Ok(1));
    assert_eq!(registry.register(rusqlite::Connection::open_in_memory()), Ok(2));
    assert!(registry.contains(0));
    assert!(registry.contains(2));
}

#[test]
fn register_of_a_failed_attempt_takes_a_handle_and_keeps_nothing() {
    let mut registry = ConnectionRegistry::new();
    let attempt = rusqlite::Connection::open("/no/such/directory/at/all/db.sqlite");
    let words = attempt.as_ref().unwrap_err().to_string();
    assert_eq!(registry.register(attempt), Err(BridgeError::Connection(words)));
    assert!(!registry.contains(0));
    assert_eq!(registry.register(rusqlite::Connection::open_in_memory()), Ok(1));
}
