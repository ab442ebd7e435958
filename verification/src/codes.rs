//! Return codes, handle-type discriminants and buffer sizes of the driver
//! interface.

use vstd::prelude::*;

verus! {

/// Handle-type discriminant naming an environment handle.
pub const SQL_HANDLE_ENV: i16 = 1;

/// Handle-type discriminant naming a connection handle.
pub const SQL_HANDLE_DBC: i16 = 2;

/// Handle-type discriminant naming a statement handle.
pub const SQL_HANDLE_STMT: i16 = 3;

/// Return code meaning that a fetch found no further row.
pub const SQL_NO_DATA: i16 = 100;

/// Return code meaning that the driver does not recognise the handle.
pub const SQL_INVALID_HANDLE: i16 = -2;

/// Environment attribute selecting the requested connectivity version.
pub const SQL_ATTR_ODBC_VERSION: i64 = 200;

/// Attribute value requesting version-3 behaviour.
pub const SQL_OV_ODBC3: i64 = 3;

/// Column target-type tag asking for wide-character (UTF-16) data.
pub const SQL_C_WCHAR: i16 = -8;

/// Column target-type tag asking for raw binary data.
pub const SQL_C_BINARY: i16 = -2;

/// Option of the free-statement call that releases all column bindings.
pub const SQL_UNBIND: u16 = 2;

/// Capacity of one text column buffer in bytes: 1024 16-bit code units.
pub const TEXT_COLUMN_BYTES: usize = 2048;

/// Capacity of one binary column buffer in bytes.
pub const BINARY_COLUMN_BYTES: usize = 4096;

/// Largest number of 16-bit units kept of one diagnostic message.
pub const DIAG_MESSAGE_UNITS: usize = 1024;

/// A driver call succeeded exactly when its return code is nonnegative.
pub open spec fn succeeded(code: int) -> bool {
    code >= 0
}

} // verus!
