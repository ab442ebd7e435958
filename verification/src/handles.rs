//! The three-level handle hierarchy: environment, connection, statement.
//!
//! Each handle type owns the opaque token the driver assigned to it. A
//! token is released by a consuming `free`, so releasing twice is
//! unrepresentable: the value is gone after the call. Destruction order
//! follows the hierarchy — statements before their connection, the
//! connection disconnected before its release, the connection before its
//! environment — because each `free` consumes the value the next one
//! needs. Release is best-effort and surfaces no failure.

use vstd::prelude::*;
use checked_int_cast::CheckedIntCast;
use crate::binder::{
    fetch_binary_rows, fetch_text_rows, BinaryRowSink, ColumnBuffer, TextRowSink,
};
use crate::codes::{
    SQL_C_BINARY, SQL_C_WCHAR, SQL_HANDLE_DBC, SQL_HANDLE_ENV, SQL_HANDLE_STMT, SQL_UNBIND,
    BINARY_COLUMN_BYTES, TEXT_COLUMN_BYTES,
};
use crate::diag::sql_result;
use crate::driver::Driver;
use crate::error::{Error, OdbcResult};
use crate::utf16::to_u16s;

verus! {

/// The root handle of a session; configures driver-version attributes and
/// parents every connection.
#[derive(Debug)]
pub struct Env {
    pub(crate) handle: u64,
}

impl Env {
    /// Allocates the root environment handle. Diagnostics are not
    /// queryable before a handle exists, so a failed allocation carries
    /// the generic allocation-failure error.
    pub fn new<D: Driver>(driver: &mut D) -> (r: OdbcResult<Env>)
        ensures
            r matches Err(e) ==> e.kind is AllocationFailure,
    {
        let (code, handle) = driver.alloc_handle(SQL_HANDLE_ENV, 0);
        if code >= 0 {
            Ok(Env { handle })
        } else {
            Err(Error::allocation_failure())
        }
    }

    /// Sets a session-wide integer attribute, such as the requested
    /// connectivity version. A failing code surfaces the diagnostics
    /// collected against this handle.
    pub fn set_int_attr<D: Driver>(&self, driver: &mut D, attribute: i64, value: i64) -> (r:
        OdbcResult<()>)
        ensures
            r matches Err(e) ==> e.kind is DriverError,
    {
        let code = driver.set_env_attr(self.handle, attribute, value);
        sql_result(driver, (), code, SQL_HANDLE_ENV, self.handle)
    }

    /// Releases the handle back to the driver, consuming the value:
    /// exactly one release per allocation, by construction.
    pub fn free<D: Driver>(self, driver: &mut D) {
        driver.free_handle(SQL_HANDLE_ENV, self.handle);
    }
}

/// A live connection to a data source, child of one environment.
#[derive(Debug)]
pub struct Connection {
    pub(crate) handle: u64,
}

impl Connection {
    /// Allocates a connection handle under the given environment. A
    /// failing code surfaces diagnostics scoped to the environment, the
    /// only handle the driver can report on here.
    pub fn new<D: Driver>(driver: &mut D, env: &Env) -> (r: OdbcResult<Connection>)
        ensures
            r matches Err(e) ==> e.kind is DriverError,
    {
        let (code, handle) = driver.alloc_handle(SQL_HANDLE_DBC, env.handle);
        sql_result(driver, Connection { handle }, code, SQL_HANDLE_ENV, env.handle)
    }

    /// Connects with the given connection string, encoded as
    /// null-terminated UTF-16 and passed with the compute-the-length
    /// sentinel, requesting no user-interaction dialog. A failing code
    /// surfaces diagnostics scoped to this connection.
    pub fn connect<D: Driver>(&self, driver: &mut D, connection_string: &str) -> (r: OdbcResult<
        (),
    >)
        ensures
            r matches Err(e) ==> e.kind is DriverError,
    {
        let wide = to_u16s(connection_string);
        let code = driver.driver_connect(self.handle, &wide);
        sql_result(driver, (), code, SQL_HANDLE_DBC, self.handle)
    }

    /// Disconnects, then releases the handle; both best-effort, and the
    /// consuming receiver makes a second release unrepresentable.
    pub fn free<D: Driver>(self, driver: &mut D) {
        driver.disconnect(self.handle);
        driver.free_handle(SQL_HANDLE_DBC, self.handle);
    }
}

/// Relies on checked_int_cast's as_usize_checked for i16: `Some` exactly
/// for a nonnegative value, and it carries that value.
#[verifier::external_body]
fn i16_as_usize_checked(v: i16) -> (r: Option<usize>)
    ensures
        r is Some <==> v >= 0,
        r matches Some(u) ==> u == v,
{
    v.as_usize_checked()
}

/// The defensive clamp on a driver-reported column count: a negative or
/// overflowing count is treated as zero columns rather than an error.
pub fn column_count_to_usize(count: i16) -> (r: usize)
    ensures
        count >= 0 ==> r == count,
        count < 0 ==> r == 0,
        r <= 0x7FFF,
{
    match i16_as_usize_checked(count) {
        Some(u) => u,
        None => 0,
    }
}

/// An execution context for one SQL statement, child of one connection;
/// reusable across several direct executions.
#[derive(Debug)]
pub struct Statement {
    pub(crate) handle: u64,
}

impl Statement {
    /// Allocates a statement handle under the given connection. A failing
    /// code surfaces diagnostics scoped to the connection.
    pub fn new<D: Driver>(driver: &mut D, connection: &Connection) -> (r: OdbcResult<Statement>)
        ensures
            r matches Err(e) ==> e.kind is DriverError,
    {
        let (code, handle) = driver.alloc_handle(SQL_HANDLE_STMT, connection.handle);
        sql_result(driver, Statement { handle }, code, SQL_HANDLE_DBC, connection.handle)
    }

    /// Executes SQL text directly, encoded as null-terminated UTF-16 with
    /// the compute-the-length sentinel; no prepare or parameter step.
    pub fn exec_direct<D: Driver>(&mut self, driver: &mut D, sql: &str) -> (r: OdbcResult<()>)
        ensures
            r matches Err(e) ==> e.kind is DriverError,
    {
        let wide = to_u16s(sql);
        let code = driver.exec_direct(self.handle, &wide);
        sql_result(driver, (), code, SQL_HANDLE_STMT, self.handle)
    }

    /// Queries the column count of the current result set, clamping a
    /// negative driver-reported count to zero.
    pub fn num_result_cols<D: Driver>(&self, driver: &mut D) -> (r: OdbcResult<usize>)
        ensures
            r matches Ok(n) ==> n <= 0x7FFF,
            r matches Err(e) ==> e.kind is DriverError,
    {
        let (code, count) = driver.num_result_cols(self.handle);
        let n = column_count_to_usize(count);
        sql_result(driver, n, code, SQL_HANDLE_STMT, self.handle)
    }

    /// Runs a select and delivers each row to the sink as decoded text:
    /// execute, count columns, bind a text buffer per column, fetch until
    /// the no-more-rows sentinel, then release the bindings so the
    /// statement can serve a result set of another shape.
    pub fn run_string_select<D: Driver, S: TextRowSink>(
        &mut self,
        driver: &mut D,
        sql: &str,
        sink: &mut S,
    ) -> (r: OdbcResult<()>)
        ensures
            r matches Err(e) ==> (e.kind is DriverError || e.kind is BindingFailure),
    {
        let n = match self.prepare_columns(driver, sql, SQL_C_WCHAR, TEXT_COLUMN_BYTES) {
            Ok(n) => n,
            Err(e) => {
                return Err(e);
            },
        };
        let mut buffers: Vec<ColumnBuffer> = Vec::new();
        let mut i: usize = 0;
        while i < n
            invariant
                i <= n,
            decreases n - i,
        {
            buffers.push(ColumnBuffer::with_capacity(TEXT_COLUMN_BYTES));
            i += 1;
        }
        let (res, _codes) = fetch_text_rows(driver, self.handle, buffers, sink);
        match res {
            Ok(()) => {
                driver.free_stmt(self.handle, SQL_UNBIND);
                Ok(())
            },
            Err(e) => Err(e),
        }
    }

    /// Runs a select and delivers each row to the sink as clamped binary
    /// regions, copied out per row because the buffers are reused by the
    /// next fetch.
    pub fn run_binary_select<D: Driver, S: BinaryRowSink>(
        &mut self,
        driver: &mut D,
        sql: &str,
        sink: &mut S,
    ) -> (r: OdbcResult<()>)
        ensures
            r matches Err(e) ==> (e.kind is DriverError || e.kind is BindingFailure),
    {
        let n = match self.prepare_columns(driver, sql, SQL_C_BINARY, BINARY_COLUMN_BYTES) {
            Ok(n) => n,
            Err(e) => {
                return Err(e);
            },
        };
        let mut buffers: Vec<ColumnBuffer> = Vec::new();
        let mut i: usize = 0;
        while i < n
            invariant
                i <= n,
            decreases n - i,
        {
            buffers.push(ColumnBuffer::with_capacity(BINARY_COLUMN_BYTES));
            i += 1;
        }
        let (res, _codes) = fetch_binary_rows(driver, self.handle, buffers, sink);
        match res {
            Ok(()) => {
                driver.free_stmt(self.handle, SQL_UNBIND);
                Ok(())
            },
            Err(e) => Err(e),
        }
    }

    /// The shared front half of both selects: execute the SQL, count the
    /// columns, and bind each 1-indexed column to a region of the given
    /// byte capacity under the given target-type tag. A bind failure
    /// aborts the whole operation with the local binding-failure error.
    fn prepare_columns<D: Driver>(
        &mut self,
        driver: &mut D,
        sql: &str,
        target_type: i16,
        capacity: usize,
    ) -> (r: OdbcResult<usize>)
        requires
            capacity <= 0x7FFF_FFFF,
        ensures
            r matches Ok(n) ==> n <= 0x7FFF,
            r matches Err(e) ==> (e.kind is DriverError || e.kind is BindingFailure),
    {
        match self.exec_direct(driver, sql) {
            Ok(()) => (),
            Err(e) => {
                return Err(e);
            },
        }
        let n = match self.num_result_cols(driver) {
            Ok(n) => n,
            Err(e) => {
                return Err(e);
            },
        };
        let mut col: usize = 0;
        while col < n
            invariant
                n <= 0x7FFF,
                col <= n,
                capacity <= 0x7FFF_FFFF,
            decreases n - col,
        {
            let code = driver.bind_col(self.handle, (col + 1) as u16, target_type, capacity as i64);
            if code != 0 {
                return Err(Error::binding_failure());
            }
            col += 1;
        }
        Ok(n)
    }

    /// Releases the statement handle, consuming the value; bindings are
    /// invalidated with it.
    pub fn free<D: Driver>(self, driver: &mut D) {
        driver.free_handle(SQL_HANDLE_STMT, self.handle);
    }
}

} // verus!
