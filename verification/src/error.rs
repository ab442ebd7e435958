//! The error values of the library: structured diagnostic records, the
//! error carried by every fallible operation, and the loader's error.

use vstd::prelude::*;

verus! {

/// One diagnostic entry as the driver reports it after a failing call:
/// a state code, a native error code and a message.
#[derive(Debug)]
pub struct DiagnosticRecord {
    /// The five-character state code, decoded from UTF-16; empty when the
    /// driver's state did not decode.
    pub state: String,
    /// The driver's native error code.
    pub native_error: i64,
    /// The decoded message; a placeholder when it did not decode.
    pub message: String,
}

/// The mathematical value of a [`DiagnosticRecord`].
pub struct DiagnosticRecordView {
    /// The state code as a character sequence.
    pub state: Seq<char>,
    /// The native error code.
    pub native_error: int,
    /// The message as a character sequence.
    pub message: Seq<char>,
}

impl View for DiagnosticRecord {
    type V = DiagnosticRecordView;

    open spec fn view(&self) -> DiagnosticRecordView {
        DiagnosticRecordView {
            state: self.state@,
            native_error: self.native_error as int,
            message: self.message@,
        }
    }
}

/// Which of the failure families of the design an [`Error`] belongs to.
#[derive(Debug, Clone, Copy, PartialEq, Eq, Structural)]
pub enum ErrorKind {
    /// Handle allocation failed before any diagnostics were queryable.
    AllocationFailure,
    /// An operation on an allocated handle returned a negative code; the
    /// ordered diagnostic list is attached.
    DriverError,
    /// A column bind call failed while setting up a result binder.
    BindingFailure,
}

/// The error of every fallible operation on a handle: a failure family and
/// the ordered diagnostic records behind it.
#[derive(Debug)]
pub struct Error {
    /// The failure family.
    pub kind: ErrorKind,
    /// The diagnostic records, in ascending record-index order; a single
    /// synthetic record where none were queryable.
    pub records: Vec<DiagnosticRecord>,
}

impl Error {
    /// Error for a failed handle allocation; no handle exists yet, so a
    /// single generic record stands in for the unreachable diagnostics.
    pub fn allocation_failure() -> (r: Error)
        ensures
            r.kind is AllocationFailure,
            r.records@.len() == 1,
            r.records@[0]@.message == "Failed to allocate environment"@,
            r.records@[0]@.state.len() == 0,
            r.records@[0]@.native_error == 0,
    {
        let rec = DiagnosticRecord {
            state: String::new(),
            native_error: 0,
            message: "Failed to allocate environment".to_owned(),
        };
        let mut records: Vec<DiagnosticRecord> = Vec::new();
        records.push(rec);
        Error { kind: ErrorKind::AllocationFailure, records }
    }

    /// Error for a failed column bind: local to the binder, not derived
    /// from driver diagnostics.
    pub fn binding_failure() -> (r: Error)
        ensures
            r.kind is BindingFailure,
            r.records@.len() == 1,
            r.records@[0]@.message == "BindCol failed"@,
            r.records@[0]@.state.len() == 0,
            r.records@[0]@.native_error == 0,
    {
        let rec = DiagnosticRecord {
            state: String::new(),
            native_error: 0,
            message: "BindCol failed".to_owned(),
        };
        let mut records: Vec<DiagnosticRecord> = Vec::new();
        records.push(rec);
        Error { kind: ErrorKind::BindingFailure, records }
    }

    /// Error for the invalid-handle return code: the driver cannot report
    /// diagnostics for a handle it rejects, so one synthetic record stands.
    pub fn invalid_handle() -> (r: Error)
        ensures
            r.kind is DriverError,
            r.records@.len() == 1,
            r.records@[0]@.message == "Invalid handle"@,
            r.records@[0]@.state.len() == 0,
            r.records@[0]@.native_error == 0,
    {
        let rec = DiagnosticRecord {
            state: String::new(),
            native_error: 0,
            message: "Invalid handle".to_owned(),
        };
        let mut records: Vec<DiagnosticRecord> = Vec::new();
        records.push(rec);
        Error { kind: ErrorKind::DriverError, records }
    }

    /// Error carrying the diagnostic records collected for a failing call.
    pub fn driver_error(records: Vec<DiagnosticRecord>) -> (r: Error)
        ensures
            r.kind is DriverError,
            r.records == records,
    {
        Error { kind: ErrorKind::DriverError, records }
    }
}

/// The loader's error: a required driver entry point could not be resolved.
#[derive(Debug)]
pub enum LoadError {
    /// The named entry point is missing from the driver library.
    MissingSymbol(String),
}

/// The result type of every fallible operation of the library.
pub type OdbcResult<V> = Result<V, Error>;

} // verus!
