//! End-to-end scenarios against the scripted driver: the handle
//! hierarchy, the fetch loops, and the diagnostic paths.

use odbc_core::binder::{BinaryRows, TextRows};
use odbc_core::codes::{SQL_ATTR_ODBC_VERSION, SQL_OV_ODBC3, SQL_UNBIND};
use odbc_core::driver::{ColumnWrite, DiagReply, FetchReply};
use odbc_core::error::ErrorKind;
use odbc_core::script::ScriptedDriver;
use odbc_core::{Connection, Env, Statement};

fn utf16le_bytes(s: &str) -> Vec<u8> {
    let mut out = Vec::new();
    for unit in s.encode_utf16() {
        out.push((unit & 0xFF) as u8);
        out.push((unit >> 8) as u8);
    }
    out
}

fn units(s: &str) -> Vec<u16> {
    s.encode_utf16().collect()
}

fn open_statement(d: &mut ScriptedDriver) -> (Env, Connection, Statement) {
    d.alloc_replies.insert(0, (0, 30));
    d.alloc_replies.insert(0, (0, 20));
    d.alloc_replies.insert(0, (0, 10));
    let env = Env::new(d).unwrap();
    let conn = Connection::new(d, &env).unwrap();
    let stmt = Statement::new(d, &conn).unwrap();
    (env, conn, stmt)
}

fn text_reply(values: &[&str]) -> FetchReply {
    let columns = values
        .iter()
        .map(|v| {
            let bytes = utf16le_bytes(v);
            ColumnWrite { indicator: bytes.len() as i64, bytes }
        })
        .collect();
    FetchReply { code: 0, columns }
}

#[test]
fn scenario_select_one() {
    // environment -> version attribute -> connection -> statement ->
    // direct execution -> one column -> one text row ["1"]
    let mut d = ScriptedDriver::new();
    d.alloc_replies.push((0, 10));
    d.alloc_replies.push((0, 20));
    d.alloc_replies.push((0, 30));
    d.col_count_replies.push((0, 1));
    d.col_count_replies.push((0, 1));
    d.fetch_replies.push(text_reply(&["1"]));

    let env = Env::new(&mut d).unwrap();
    env.set_int_attr(&mut d, SQL_ATTR_ODBC_VERSION, SQL_OV_ODBC3).unwrap();
    let conn = Connection::new(&mut d, &env).unwrap();
    conn.connect(&mut d, "Driver={Test Driver};Server=local;Trusted_Connection=yes")
        .unwrap();
    let mut stmt = Statement::new(&mut d, &conn).unwrap();
    stmt.exec_direct(&mut d, "SELECT 1").unwrap();
    assert_eq!(stmt.num_result_cols(&mut d).unwrap(), 1);

    let mut rows = TextRows::new();
    stmt.run_string_select(&mut d, "SELECT 1", &mut rows).unwrap();
    assert_eq!(rows.rows, vec![vec!["1".to_string()]]);

    // bindings were released after the clean end of the loop
    assert_eq!(d.unbinds, vec![(30, SQL_UNBIND)]);

    // release in hierarchy order, each exactly once
    stmt.free(&mut d);
    conn.free(&mut d);
    env.free(&mut d);
    assert_eq!(d.freed, vec![(3, 30), (2, 20), (1, 10)]);
    assert_eq!(d.disconnects, vec![20]);
}

#[test]
fn connect_malformed_yields_driver_error_with_messages() {
    let mut d = ScriptedDriver::new();
    d.alloc_replies.push((0, 10));
    d.alloc_replies.push((0, 20));
    d.connect_codes.push(-1);
    d.diag_replies.push(DiagReply {
        code: 0,
        state: units("08001"),
        native_error: 4,
        message: units("Invalid connection string"),
    });

    let env = Env::new(&mut d).unwrap();
    let conn = Connection::new(&mut d, &env).unwrap();
    let e = conn.connect(&mut d, "garbage").unwrap_err();
    assert_eq!(e.kind, ErrorKind::DriverError);
    assert!(!e.records.is_empty());
    assert_eq!(e.records[0].message, "Invalid connection string");
    assert_eq!(e.records[0].state, "08001");
    assert_eq!(e.records[0].native_error, 4);
}

#[test]
fn empty_table_yields_zero_callbacks_and_success() {
    let mut d = ScriptedDriver::new();
    d.alloc_replies.push((0, 10));
    d.alloc_replies.push((0, 20));
    d.alloc_replies.push((0, 30));
    d.col_count_replies.push((0, 2));
    // no fetch replies scripted: the first fetch reports no more rows

    let env = Env::new(&mut d).unwrap();
    let conn = Connection::new(&mut d, &env).unwrap();
    conn.connect(&mut d, "Driver={Test Driver};Server=local").unwrap();
    let mut stmt = Statement::new(&mut d, &conn).unwrap();
    let mut rows = TextRows::new();
    stmt.run_string_select(&mut d, "SELECT a, b FROM empty_table", &mut rows)
        .unwrap();
    assert!(rows.rows.is_empty());
}

#[test]
fn fetch_failure_aborts_and_stops_delivering() {
    let mut d = ScriptedDriver::new();
    d.col_count_replies.push((0, 1));
    d.fetch_replies.push(text_reply(&["first"]));
    d.fetch_replies.push(FetchReply { code: -1, columns: Vec::new() });
    d.fetch_replies.push(text_reply(&["never delivered"]));
    d.diag_replies.push(DiagReply {
        code: 0,
        state: units("HY000"),
        native_error: 7,
        message: units("cursor failed"),
    });

    let (_env, _conn, mut stmt) = open_statement(&mut d);
    let mut rows = TextRows::new();
    let e = stmt.run_string_select(&mut d, "SELECT x FROM t", &mut rows).unwrap_err();
    assert_eq!(e.kind, ErrorKind::DriverError);
    assert_eq!(e.records[0].message, "cursor failed");
    // the row before the failure was already processed; nothing after
    assert_eq!(rows.rows, vec![vec!["first".to_string()]]);
    // the aborted loop did not release the bindings
    assert!(d.unbinds.is_empty());
}

#[test]
fn allocation_failure_carries_generic_message() {
    let mut d = ScriptedDriver::new();
    d.alloc_replies.push((-1, 0));
    let e = Env::new(&mut d).unwrap_err();
    assert_eq!(e.kind, ErrorKind::AllocationFailure);
    assert_eq!(e.records[0].message, "Failed to allocate environment");
}

#[test]
fn invalid_handle_yields_single_synthetic_record() {
    let mut d = ScriptedDriver::new();
    d.alloc_replies.push((0, 10));
    d.set_attr_codes.push(-2);
    let env = Env::new(&mut d).unwrap();
    let e = env.set_int_attr(&mut d, SQL_ATTR_ODBC_VERSION, SQL_OV_ODBC3).unwrap_err();
    assert_eq!(e.kind, ErrorKind::DriverError);
    assert_eq!(e.records.len(), 1);
    assert_eq!(e.records[0].message, "Invalid handle");
}

#[test]
fn bind_failure_is_local_error() {
    let mut d = ScriptedDriver::new();
    d.col_count_replies.push((0, 2));
    d.bind_codes.push(0);
    d.bind_codes.push(1);
    let (_env, _conn, mut stmt) = open_statement(&mut d);
    let mut rows = TextRows::new();
    let e = stmt.run_string_select(&mut d, "SELECT a, b FROM t", &mut rows).unwrap_err();
    assert_eq!(e.kind, ErrorKind::BindingFailure);
    assert_eq!(e.records[0].message, "BindCol failed");
    assert!(rows.rows.is_empty());
}

#[test]
fn diagnostics_collected_in_ascending_order() {
    let mut d = ScriptedDriver::new();
    d.exec_codes.push(-1);
    d.diag_replies.push(DiagReply {
        code: 0,
        state: units("42000"),
        native_error: 1,
        message: units("first record"),
    });
    d.diag_replies.push(DiagReply {
        code: 0,
        state: units("42001"),
        native_error: 2,
        message: units("second record"),
    });
    // the third query finds nothing and ends the collection

    let (_env, _conn, mut stmt) = open_statement(&mut d);
    let e = stmt.exec_direct(&mut d, "SELEC").unwrap_err();
    assert_eq!(e.kind, ErrorKind::DriverError);
    assert_eq!(e.records.len(), 2);
    assert_eq!(e.records[0].message, "first record");
    assert_eq!(e.records[0].native_error, 1);
    assert_eq!(e.records[1].message, "second record");
    assert_eq!(e.records[1].native_error, 2);
}

#[test]
fn undecodable_diagnostic_message_gets_placeholder() {
    let mut d = ScriptedDriver::new();
    d.exec_codes.push(-1);
    d.diag_replies.push(DiagReply {
        code: 0,
        state: vec![0xDC00], // a lone surrogate never decodes
        native_error: 0,
        message: vec![0xD800],
    });
    let (_env, _conn, mut stmt) = open_statement(&mut d);
    let e = stmt.exec_direct(&mut d, "SELECT 1").unwrap_err();
    assert_eq!(e.records[0].message, "Invalid error string");
    assert_eq!(e.records[0].state, "");
}

#[test]
fn binary_select_copies_clamped_regions() {
    let mut d = ScriptedDriver::new();
    d.col_count_replies.push((0, 1));
    d.fetch_replies.push(FetchReply {
        code: 0,
        columns: vec![ColumnWrite { indicator: 3, bytes: vec![0xAA, 0xBB, 0xCC] }],
    });

    let (_env, _conn, mut stmt) = open_statement(&mut d);
    let mut rows = BinaryRows::new();
    stmt.run_binary_select(&mut d, "select data from page", &mut rows).unwrap();
    assert_eq!(rows.rows, vec![vec![vec![0xAA, 0xBB, 0xCC]]]);
    assert_eq!(d.unbinds, vec![(30, SQL_UNBIND)]);
}

#[test]
fn negative_column_count_clamps_to_zero() {
    let mut d = ScriptedDriver::new();
    d.col_count_replies.push((0, -5));
    let (_env, _conn, stmt) = open_statement(&mut d);
    assert_eq!(stmt.num_result_cols(&mut d).unwrap(), 0);
}

#[test]
fn overlong_diagnostic_message_is_clamped() {
    let mut d = ScriptedDriver::new();
    d.exec_codes.push(-1);
    let long = "x".repeat(1500);
    d.diag_replies.push(DiagReply {
        code: 0,
        state: units("01000"),
        native_error: 0,
        message: units(&long),
    });
    let (_env, _conn, mut stmt) = open_statement(&mut d);
    let e = stmt.exec_direct(&mut d, "SELECT 1").unwrap_err();
    assert_eq!(e.records[0].message, "x".repeat(1024));
}

#[test]
fn multi_column_rows_arrive_in_order() {
    let mut d = ScriptedDriver::new();
    d.col_count_replies.push((0, 2));
    d.fetch_replies.push(text_reply(&["a1", "b1"]));
    d.fetch_replies.push(text_reply(&["a2", "b2"]));
    let (_env, _conn, mut stmt) = open_statement(&mut d);
    let mut rows = TextRows::new();
    stmt.run_string_select(&mut d, "SELECT a, b FROM t", &mut rows).unwrap();
    assert_eq!(
        rows.rows,
        vec![
            vec!["a1".to_string(), "b1".to_string()],
            vec!["a2".to_string(), "b2".to_string()],
        ]
    );
}

#[test]
fn shorter_later_value_leaves_no_stale_text() {
    // the second row's shorter value must not expose the first row's tail
    let mut d = ScriptedDriver::new();
    d.col_count_replies.push((0, 1));
    d.fetch_replies.push(text_reply(&["longer value"]));
    d.fetch_replies.push(text_reply(&["eh"]));
    let (_env, _conn, mut stmt) = open_statement(&mut d);
    let mut rows = TextRows::new();
    stmt.run_string_select(&mut d, "SELECT x FROM t", &mut rows).unwrap();
    assert_eq!(rows.rows[1], vec!["eh".to_string()]);
}
