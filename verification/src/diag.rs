//! Diagnostic-record collection, and the shared completion step that turns
//! a driver return code into a result.
//!
//! After a failing call the driver holds an ordered list of diagnostic
//! records for the handle. [`collect_diagnostics`] drains it in ascending
//! record-index order, stopping exactly at the first index for which the
//! driver reports no record; its contract states that order over a ghost
//! transcript of the queries made.

use vstd::prelude::*;
use crate::codes::{succeeded, DIAG_MESSAGE_UNITS, SQL_INVALID_HANDLE};
use crate::driver::{DiagReply, Driver};
use crate::error::{DiagnosticRecord, DiagnosticRecordView, Error, OdbcResult};
use crate::utf16::{utf16_decode, utf16_to_string};

verus! {

/// A unit sequence cut to a capacity.
pub open spec fn clamped_units(units: Seq<u16>, cap: int) -> Seq<u16> {
    if units.len() <= cap {
        units
    } else {
        units.take(cap)
    }
}

/// The state code a record carries for the driver's units: their decoding,
/// or empty where they are not valid UTF-16.
pub open spec fn spec_state(units: Seq<u16>) -> Seq<char> {
    match utf16_decode(units) {
        Some(s) => s,
        None => Seq::<char>::empty(),
    }
}

/// The message a record carries for the driver's units: their decoding
/// after the defensive length clamp, or a placeholder where they are not
/// valid UTF-16.
pub open spec fn spec_message(units: Seq<u16>) -> Seq<char> {
    match utf16_decode(clamped_units(units, DIAG_MESSAGE_UNITS as int)) {
        Some(s) => s,
        None => "Invalid error string"@,
    }
}

/// The record value decoded from one driver reply.
pub open spec fn spec_record(state: Seq<u16>, native_error: int, message: Seq<u16>) -> DiagnosticRecordView {
    DiagnosticRecordView {
        state: spec_state(state),
        native_error: native_error,
        message: spec_message(message),
    }
}

/// Decodes one diagnostic reply into a record.
pub fn decode_record(reply: &DiagReply) -> (r: DiagnosticRecord)
    ensures
        r@ == spec_record(reply.state@, reply.native_error as int, reply.message@),
{
    let state = match utf16_to_string(&reply.state) {
        Some(s) => s,
        None => String::new(),
    };
    let limit = if reply.message.len() <= DIAG_MESSAGE_UNITS {
        reply.message.len()
    } else {
        DIAG_MESSAGE_UNITS
    };
    let mut clamped: Vec<u16> = Vec::new();
    let mut j: usize = 0;
    while j < limit
        invariant
            limit <= reply.message@.len(),
            j <= limit,
            clamped@ == reply.message@.take(j as int),
        decreases limit - j,
    {
        clamped.push(reply.message[j]);
        proof {
            assert(clamped@ =~= reply.message@.take(j as int + 1));
        }
        j += 1;
    }
    proof {
        assert(clamped@ =~= clamped_units(reply.message@, DIAG_MESSAGE_UNITS as int));
    }
    let message = match utf16_to_string(&clamped) {
        Some(s) => s,
        None => "Invalid error string".to_owned(),
    };
    DiagnosticRecord { state, native_error: reply.native_error, message }
}

/// One entry of the ghost transcript of [`collect_diagnostics`]: the index
/// queried, the code the driver answered, and the record fields it handed
/// back.
pub struct DiagProbe {
    /// The 1-based record index that was queried.
    pub index: int,
    /// The driver's return code for that index.
    pub code: int,
    /// The state units handed back.
    pub state: Seq<u16>,
    /// The native error code handed back.
    pub native_error: int,
    /// The message units handed back.
    pub message: Seq<u16>,
}

/// Drains the driver's diagnostic list for a handle.
///
/// The ghost transcript witnesses the collection order: indices are queried
/// ascending from 1; every answer but the last had code zero; collection
/// stops exactly at the first index the driver refuses (or when the index
/// space of the interface is exhausted); and the returned records are the
/// decodings of the successful answers, in query order. Infallible: an
/// empty list where the driver reports nothing.
pub fn collect_diagnostics<D: Driver>(driver: &mut D, handle_type: i16, handle: u64) -> (r: (
    Vec<DiagnosticRecord>,
    Ghost<Seq<DiagProbe>>,
))
    ensures
        ({
            let records = r.0;
            let probes = r.1@;
            &&& 1 <= probes.len() <= 0x7FFF
            &&& forall|j: int| 0 <= j < probes.len() ==> (#[trigger] probes[j].index) == j + 1
            &&& forall|j: int| 0 <= j < probes.len() - 1 ==> (#[trigger] probes[j].code) == 0
            &&& (probes.last().code == 0 ==> probes.len() == 0x7FFF)
            &&& records@.len() == (if probes.last().code == 0 {
                probes.len() as int
            } else {
                probes.len() - 1
            })
            &&& forall|j: int|
                0 <= j < records@.len() ==> (#[trigger] records@[j])@ == spec_record(
                    probes[j].state,
                    probes[j].native_error,
                    probes[j].message,
                )
        }),
{
    let mut records: Vec<DiagnosticRecord> = Vec::new();
    let ghost mut probes: Seq<DiagProbe> = Seq::empty();
    let mut record_index: i16 = 1;
    loop
        invariant_except_break
            record_index as int == probes.len() + 1,
            records@.len() == probes.len(),
            forall|j: int| 0 <= j < probes.len() ==> (#[trigger] probes[j].code) == 0,
        invariant
            1 <= record_index <= 0x7FFF,
            forall|j: int| 0 <= j < probes.len() ==> (#[trigger] probes[j].index) == j + 1,
            forall|j: int|
                0 <= j < records@.len() ==> (#[trigger] records@[j])@ == spec_record(
                    probes[j].state,
                    probes[j].native_error,
                    probes[j].message,
                ),
        ensures
            1 <= probes.len() <= 0x7FFF,
            forall|j: int| 0 <= j < probes.len() ==> (#[trigger] probes[j].index) == j + 1,
            forall|j: int| 0 <= j < probes.len() - 1 ==> (#[trigger] probes[j].code) == 0,
            probes.last().code == 0 ==> probes.len() == 0x7FFF,
            records@.len() == (if probes.last().code == 0 {
                probes.len() as int
            } else {
                probes.len() - 1
            }),
            forall|j: int|
                0 <= j < records@.len() ==> (#[trigger] records@[j])@ == spec_record(
                    probes[j].state,
                    probes[j].native_error,
                    probes[j].message,
                ),
        decreases 0x7FFF - record_index,
    {
        let reply = driver.get_diag_rec(handle_type, handle, record_index);
        proof {
            probes = probes.push(
                DiagProbe {
                    index: record_index as int,
                    code: reply.code as int,
                    state: reply.state@,
                    native_error: reply.native_error as int,
                    message: reply.message@,
                },
            );
        }
        if reply.code != 0 {
            break;
        }
        records.push(decode_record(&reply));
        if record_index == 0x7FFF {
            break;
        }
        record_index = record_index + 1;
    }
    (records, Ghost(probes))
}

/// Turns a driver return code into a result: the value where the code is
/// nonnegative; otherwise the error for the code, a single synthetic
/// record for the invalid-handle sentinel and the collected diagnostics
/// for every other failure.
pub fn sql_result<V, D: Driver>(
    driver: &mut D,
    value: V,
    code: i16,
    handle_type: i16,
    handle: u64,
) -> (r: OdbcResult<V>)
    ensures
        succeeded(code as int) ==> (r matches Ok(v) && v == value),
        !succeeded(code as int) ==> (r matches Err(e) && e.kind is DriverError),
        code == SQL_INVALID_HANDLE ==> (r matches Err(e) && e.records@.len() == 1
            && e.records@[0]@.message == "Invalid handle"@),
{
    if code >= 0 {
        Ok(value)
    } else if code == SQL_INVALID_HANDLE {
        Err(Error::invalid_handle())
    } else {
        let (records, _probes) = collect_diagnostics(driver, handle_type, handle);
        Err(Error::driver_error(records))
    }
}

} // verus!
