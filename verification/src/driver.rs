//! The driver interface: one method per entry point of the C-level
//! connectivity interface.
//!
//! A driver may answer anything; no method carries a contract. Every
//! guarantee of the library therefore holds for every implementation: the
//! scripted driver of [`crate::script`], or a process-wide table of
//! resolved entry points kept outside the library.

use vstd::prelude::*;

verus! {

/// What the driver wrote for one bound column during one fetch: the
/// reported length indicator and the bytes placed in the bound region.
#[derive(Debug)]
pub struct ColumnWrite {
    /// The driver's length indicator: the value's true length in bytes,
    /// which may exceed what was written, or a negative sentinel.
    pub indicator: i64,
    /// The bytes the driver wrote.
    pub bytes: Vec<u8>,
}

/// The answer to one fetch call: a return code and, on success, what the
/// driver wrote into each bound column, in column order.
#[derive(Debug)]
pub struct FetchReply {
    /// The return code: nonnegative for a row, the no-data sentinel at the
    /// end of the result set, negative on failure.
    pub code: i16,
    /// Per-column writes for the fetched row.
    pub columns: Vec<ColumnWrite>,
}

/// The answer to one diagnostic-record query.
#[derive(Debug, Clone)]
pub struct DiagReply {
    /// Zero when the queried record exists; any other code means there is
    /// no record at the queried index.
    pub code: i16,
    /// The state code, as 16-bit units.
    pub state: Vec<u16>,
    /// The native error code.
    pub native_error: i64,
    /// The message, as 16-bit units.
    pub message: Vec<u16>,
}

/// The fixed set of entry points the library requires of a driver.
///
/// Handles are opaque tokens chosen by the driver; the library never reads
/// into them. Strings cross the boundary as null-terminated UTF-16, as the
/// C interface mandates.
pub trait Driver {
    /// Allocate a handle of the given type under the given input handle;
    /// returns the code and the new token.
    fn alloc_handle(&mut self, handle_type: i16, input_handle: u64) -> (i16, u64);

    /// Release a handle.
    fn free_handle(&mut self, handle_type: i16, handle: u64) -> i16;

    /// Set an integer attribute on the environment.
    fn set_env_attr(&mut self, env: u64, attribute: i64, value: i64) -> i16;

    /// Connect with a null-terminated UTF-16 connection string, without a
    /// user-interaction dialog.
    fn driver_connect(&mut self, dbc: u64, connection_string: &Vec<u16>) -> i16;

    /// Close the connection's session.
    fn disconnect(&mut self, dbc: u64) -> i16;

    /// Execute null-terminated UTF-16 SQL text directly.
    fn exec_direct(&mut self, stmt: u64, sql: &Vec<u16>) -> i16;

    /// Query the column count of the statement's result set; returns the
    /// code and the driver-reported count.
    fn num_result_cols(&mut self, stmt: u64) -> (i16, i16);

    /// Bind a 1-indexed column to a caller-supplied region of the given
    /// byte length, under the given target-type tag.
    fn bind_col(&mut self, stmt: u64, column: u16, target_type: i16, buffer_len: i64) -> i16;

    /// Fetch the next row into the bound columns.
    fn fetch(&mut self, stmt: u64) -> FetchReply;

    /// Apply a free-statement option, such as releasing all bindings.
    fn free_stmt(&mut self, stmt: u64, option: u16) -> i16;

    /// Query the diagnostic record at a 1-based index for a handle.
    fn get_diag_rec(&mut self, handle_type: i16, handle: u64, record_index: i16) -> DiagReply;
}

} // verus!
