//! The required entry-point names and the resolution decision.

use odbc_core::error::LoadError;
use odbc_core::symbols::{required_symbols, validate_symbols, SYMBOL_COUNT};

#[test]
fn all_symbols_resolved_is_ok() {
    let resolved = vec![true; SYMBOL_COUNT];
    assert!(validate_symbols(&resolved).is_ok());
}

#[test]
fn first_missing_symbol_is_named() {
    let mut resolved = vec![true; SYMBOL_COUNT];
    resolved[2] = false;
    resolved[5] = false;
    let e = validate_symbols(&resolved).unwrap_err();
    let LoadError::MissingSymbol(name) = e;
    assert_eq!(name, "SQLDriverConnectW");
}

#[test]
fn required_symbols_are_the_eleven_entry_points() {
    let names = required_symbols();
    assert_eq!(names.len(), 11);
    assert_eq!(names[0], "SQLAllocHandle");
    assert_eq!(names[10], "SQLFreeStmt");
    assert!(names.contains(&"SQLGetDiagRecW".to_string()));
    assert!(names.contains(&"SQLFetch".to_string()));
}
