//! Column buffers and the generic fetch loop.
//!
//! Each result column is bound to a fixed-capacity byte region with a
//! length-indicator cell. The driver reports the value's true length
//! through the indicator, which may exceed what fits; every reader clamps
//! to the capacity before interpreting bytes, so a decoded value never
//! exceeds the buffer it came from, whatever the driver reported.
//!
//! Truncation unit: both modes clamp in bytes; the text mode then reads
//! whole 16-bit units, clamping the indicator divided by the unit size to
//! the buffer's unit capacity. A negative indicator yields an empty value.

use vstd::prelude::*;
use vstd::arithmetic::div_mod::lemma_fundamental_div_mod;
use crate::codes::{SQL_HANDLE_STMT, SQL_NO_DATA};
use crate::diag::sql_result;
use crate::driver::{ColumnWrite, Driver};
use crate::error::OdbcResult;
use crate::utf16::{lemma_utf16_round_trip, utf16_decode, utf16_encode, utf16_to_string};

verus! {

/// A fixed-capacity region one column is bound to, with its indicator
/// cell. The driver writes into the region on each fetch; bytes beyond
/// what it wrote keep their previous contents, as with a caller-supplied
/// C region.
pub struct ColumnBuffer {
    /// The bound region; its length is the declared capacity and never
    /// changes.
    pub data: Vec<u8>,
    /// The driver-reported length indicator for the current row.
    pub indicator: i64,
}

/// The byte length a reader may take from a buffer: the indicator clamped
/// to the capacity, and zero for a negative (null or unknown) indicator.
pub open spec fn spec_clamped_len(indicator: int, capacity: int) -> int {
    if indicator < 0 {
        0
    } else if indicator > capacity {
        capacity
    } else {
        indicator
    }
}

/// The clamp stays within the capacity whatever the driver reported:
/// larger than the capacity, negative, or ordinary.
pub proof fn lemma_clamp_within_capacity(indicator: int, capacity: int)
    requires
        capacity >= 0,
    ensures
        0 <= spec_clamped_len(indicator, capacity) <= capacity,
{
}

/// The number of whole 16-bit units a text reader may take: the indicator
/// in units, clamped to the buffer's unit capacity.
pub open spec fn spec_clamped_unit_len(indicator: int, capacity_bytes: int) -> int {
    let cap_units = capacity_bytes / 2;
    let want = if indicator < 0 {
        0
    } else {
        indicator / 2
    };
    if want > cap_units {
        cap_units
    } else {
        want
    }
}

/// The 16-bit units of a text buffer's clamped region, little-endian.
pub open spec fn spec_text_units(indicator: int, data: Seq<u8>) -> Seq<u16> {
    Seq::new(
        spec_clamped_unit_len(indicator, data.len() as int) as nat,
        |k: int| (data[2 * k] + data[2 * k + 1] * 0x100) as u16,
    )
}

/// The host string a text buffer decodes to: its clamped units read as
/// UTF-16, degrading to the empty string where they are not a valid
/// encoding.
pub open spec fn spec_text_value(indicator: int, data: Seq<u8>) -> Seq<char> {
    match utf16_decode(spec_text_units(indicator, data)) {
        Some(s) => s,
        None => Seq::<char>::empty(),
    }
}

/// The little-endian byte layout of a unit sequence: how a driver lays
/// wide text into a bound region.
pub open spec fn le_bytes_of(units: Seq<u16>) -> Seq<u8> {
    Seq::new(
        2 * units.len(),
        |i: int|
            if i % 2 == 0 {
                (units[i / 2] % 0x100) as u8
            } else {
                (units[i / 2] / 0x100) as u8
            },
    )
}

/// Reading a buffer that holds a unit sequence as little-endian bytes,
/// with the indicator at the sequence's byte length, gives the units
/// back, whatever follows them in the region.
pub proof fn lemma_text_units_of_le_bytes(units: Seq<u16>, pad: Seq<u8>)
    ensures
        spec_text_units(2 * units.len() as int, le_bytes_of(units) + pad) == units,
{
    let data = le_bytes_of(units) + pad;
    let ind = 2 * units.len() as int;
    assert(data.len() == 2 * units.len() + pad.len());
    assert(spec_clamped_unit_len(ind, data.len() as int) == units.len());
    assert forall|k: int| 0 <= k < units.len() implies #[trigger] spec_text_units(ind, data)[k]
        == units[k] by {
        assert((2 * k) % 2 == 0 && (2 * k) / 2 == k);
        assert((2 * k + 1) % 2 == 1 && (2 * k + 1) / 2 == k);
        assert(data[2 * k] == (units[k] % 0x100) as u8);
        assert(data[2 * k + 1] == (units[k] / 0x100) as u8);
        lemma_fundamental_div_mod(units[k] as int, 0x100);
    }
    assert(spec_text_units(ind, data) =~= units);
}

/// What a data source wrote as wide text is fetched back unchanged: with
/// the indicator at the encoding's byte length and a capacity of at least
/// that many bytes, the decoded column is exactly the source string.
pub proof fn lemma_text_value_round_trip(s: Seq<char>, pad: Seq<u8>)
    ensures
        spec_text_value(
            2 * utf16_encode(s).len() as int,
            le_bytes_of(utf16_encode(s)) + pad,
        ) == s,
{
    lemma_text_units_of_le_bytes(utf16_encode(s), pad);
    lemma_utf16_round_trip(s);
}

impl ColumnBuffer {
    /// A zeroed buffer of the given capacity.
    pub fn with_capacity(capacity: usize) -> (r: ColumnBuffer)
        ensures
            r.data@.len() == capacity,
            r.indicator == 0,
    {
        ColumnBuffer { data: vec![0u8; capacity], indicator: 0 }
    }

    /// The buffer after the driver wrote one column of one row: the bytes
    /// land at the front of the region, the rest keeps its previous
    /// contents, and the indicator cell takes the reported length.
    pub fn updated(self, write: &ColumnWrite) -> (r: ColumnBuffer)
        ensures
            r.data@.len() == self.data@.len(),
            r.indicator == write.indicator,
            forall|j: int|
                0 <= j < r.data@.len() ==> (#[trigger] r.data@[j]) == (if j < write.bytes@.len() {
                    write.bytes@[j]
                } else {
                    self.data@[j]
                }),
    {
        let mut data = self.data;
        let m = if write.bytes.len() <= data.len() {
            write.bytes.len()
        } else {
            data.len()
        };
        let ghost orig = data@;
        let mut j: usize = 0;
        while j < m
            invariant
                m <= write.bytes@.len(),
                m <= data@.len(),
                (m == write.bytes@.len() || m == data@.len()),
                j <= m,
                data@.len() == orig.len(),
                forall|k: int| 0 <= k < j ==> (#[trigger] data@[k]) == write.bytes@[k],
                forall|k: int| j <= k < data@.len() ==> (#[trigger] data@[k]) == orig[k],
            decreases m - j,
        {
            data[j] = write.bytes[j];
            j += 1;
        }
        ColumnBuffer { data, indicator: write.indicator }
    }

    /// The byte length a reader may take from this buffer; never more than
    /// the capacity.
    pub fn clamped_len(&self) -> (r: usize)
        ensures
            r as int == spec_clamped_len(self.indicator as int, self.data@.len() as int),
            r <= self.data@.len(),
    {
        if self.indicator < 0 {
            0
        } else {
            let cap = self.data.len();
            if (self.indicator as u64) > (cap as u64) {
                cap
            } else {
                self.indicator as usize
            }
        }
    }

    /// The clamped byte region, copied out for the caller.
    pub fn binary_value(&self) -> (r: Vec<u8>)
        ensures
            r@ == self.data@.take(spec_clamped_len(self.indicator as int, self.data@.len() as int)),
            r@.len() <= self.data@.len(),
    {
        let n = self.clamped_len();
        let mut out: Vec<u8> = Vec::new();
        let mut j: usize = 0;
        while j < n
            invariant
                n <= self.data@.len(),
                j <= n,
                out@ == self.data@.take(j as int),
            decreases n - j,
        {
            out.push(self.data[j]);
            proof {
                assert(out@ =~= self.data@.take(j as int + 1));
            }
            j += 1;
        }
        out
    }

    /// The buffer's clamped region decoded as UTF-16 text.
    pub fn text_value(&self) -> (r: String)
        ensures
            r@ == spec_text_value(self.indicator as int, self.data@),
    {
        let cap_bytes: usize = self.data.len();
        let cap_units: usize = cap_bytes / 2;
        let n: usize = if self.indicator < 0 {
            0
        } else {
            let w: i64 = self.indicator / 2;
            if (w as u64) >= (cap_units as u64) {
                cap_units
            } else {
                w as usize
            }
        };
        proof {
            assert(n as int == spec_clamped_unit_len(self.indicator as int, self.data@.len() as int));
        }
        let mut units: Vec<u16> = Vec::new();
        let mut k: usize = 0;
        while k < n
            invariant
                n as int == spec_clamped_unit_len(self.indicator as int, self.data@.len() as int),
                cap_bytes as int == self.data@.len(),
                2 * n <= self.data@.len(),
                k <= n,
                units@.len() == k,
                forall|j: int|
                    0 <= j < k ==> (#[trigger] units@[j]) == (self.data@[2 * j] + self.data@[2 * j
                        + 1] * 0x100) as u16,
            decreases n - k,
        {
            proof {
                assert(2 * k + 1 < self.data@.len());
            }
            let lo = self.data[2 * k];
            let hi = self.data[2 * k + 1];
            units.push(lo as u16 + (hi as u16) * 256);
            k += 1;
        }
        proof {
            assert(units@ =~= spec_text_units(self.indicator as int, self.data@));
        }
        match utf16_to_string(&units) {
            Some(s) => s,
            None => String::new(),
        }
    }
}

/// The buffers after the driver wrote one row: column `i` receives the
/// `i`-th write; columns beyond the driver's reply keep their state.
pub fn apply_row(buffers: Vec<ColumnBuffer>, columns: &Vec<ColumnWrite>) -> (r: Vec<ColumnBuffer>)
    ensures
        r@.len() == buffers@.len(),
        forall|i: int|
            0 <= i < r@.len() ==> (#[trigger] r@[i]).data@.len() == buffers@[i].data@.len(),
        forall|i: int|
            0 <= i < r@.len() && i < columns@.len() ==> (#[trigger] r@[i]).indicator
                == columns@[i].indicator,
        forall|i: int|
            0 <= i < r@.len() && columns@.len() <= i ==> (#[trigger] r@[i]) == buffers@[i],
{
    let mut rem = buffers;
    let mut out: Vec<ColumnBuffer> = Vec::new();
    let ghost orig = rem@;
    let total: usize = rem.len();
    let mut i: usize = 0;
    while rem.len() > 0
        invariant
            total as int == orig.len(),
            i as int == out@.len(),
            rem@ =~= orig.skip(i as int),
            i <= total,
            forall|k: int|
                0 <= k < out@.len() ==> (#[trigger] out@[k]).data@.len() == orig[k].data@.len(),
            forall|k: int|
                0 <= k < out@.len() && k < columns@.len() ==> (#[trigger] out@[k]).indicator
                    == columns@[k].indicator,
            forall|k: int|
                0 <= k < out@.len() && columns@.len() <= k ==> (#[trigger] out@[k]) == orig[k],
        decreases rem@.len(),
    {
        let b = rem.remove(0);
        proof {
            assert(rem@ =~= orig.skip(i as int + 1));
        }
        if i < columns.len() {
            out.push(b.updated(&columns[i]));
        } else {
            out.push(b);
        }
        i += 1;
    }
    proof {
        assert(orig.skip(i as int).len() == 0);
        assert(i as int == orig.len());
    }
    out
}

/// The decoded text row of a set of buffers.
pub fn decode_text_row(buffers: &Vec<ColumnBuffer>) -> (r: Vec<String>)
    ensures
        r@.len() == buffers@.len(),
        forall|i: int|
            0 <= i < r@.len() ==> (#[trigger] r@[i])@ == spec_text_value(
                buffers@[i].indicator as int,
                buffers@[i].data@,
            ),
{
    let mut out: Vec<String> = Vec::new();
    let mut i: usize = 0;
    while i < buffers.len()
        invariant
            i as int == out@.len(),
            i <= buffers@.len(),
            forall|k: int|
                0 <= k < out@.len() ==> (#[trigger] out@[k])@ == spec_text_value(
                    buffers@[k].indicator as int,
                    buffers@[k].data@,
                ),
        decreases buffers@.len() - i,
    {
        out.push(buffers[i].text_value());
        i += 1;
    }
    out
}

/// The decoded binary row of a set of buffers: each column's clamped byte
/// region, copied out so it survives the next fetch.
pub fn decode_binary_row(buffers: &Vec<ColumnBuffer>) -> (r: Vec<Vec<u8>>)
    ensures
        r@.len() == buffers@.len(),
        forall|i: int|
            0 <= i < r@.len() ==> (#[trigger] r@[i])@ == buffers@[i].data@.take(
                spec_clamped_len(buffers@[i].indicator as int, buffers@[i].data@.len() as int),
            ),
{
    let mut out: Vec<Vec<u8>> = Vec::new();
    let mut i: usize = 0;
    while i < buffers.len()
        invariant
            i as int == out@.len(),
            i <= buffers@.len(),
            forall|k: int|
                0 <= k < out@.len() ==> (#[trigger] out@[k])@ == buffers@[k].data@.take(
                    spec_clamped_len(buffers@[k].indicator as int, buffers@[k].data@.len() as int),
                ),
        decreases buffers@.len() - i,
    {
        out.push(buffers[i].binary_value());
        i += 1;
    }
    out
}

/// A consumer of decoded text rows; called once per fetched row, and never
/// able to abort the loop.
pub trait TextRowSink {
    /// Receive one decoded row.
    fn on_row(&mut self, row: Vec<String>);
}

/// A consumer of decoded binary rows.
pub trait BinaryRowSink {
    /// Receive one decoded row.
    fn on_row(&mut self, row: Vec<Vec<u8>>);
}

/// A sink that keeps every text row it is handed.
pub struct TextRows {
    /// The rows received, in delivery order.
    pub rows: Vec<Vec<String>>,
}

impl TextRows {
    /// An empty collector.
    pub fn new() -> (r: TextRows)
        ensures
            r.rows@.len() == 0,
    {
        TextRows { rows: Vec::new() }
    }
}

impl TextRowSink for TextRows {
    fn on_row(&mut self, row: Vec<String>) {
        self.rows.push(row);
    }
}

/// A sink that keeps every binary row it is handed.
pub struct BinaryRows {
    /// The rows received, in delivery order.
    pub rows: Vec<Vec<Vec<u8>>>,
}

impl BinaryRows {
    /// An empty collector.
    pub fn new() -> (r: BinaryRows)
        ensures
            r.rows@.len() == 0,
    {
        BinaryRows { rows: Vec::new() }
    }
}

impl BinaryRowSink for BinaryRows {
    fn on_row(&mut self, row: Vec<Vec<u8>>) {
        self.rows.push(row);
    }
}

/// Drives the fetch loop for a text result set.
///
/// The ghost transcript holds the fetch return codes in order. Every code
/// before the last named a delivered row; the loop ends without error on
/// exactly one no-more-rows sentinel, and a failing code aborts with the
/// diagnostic-derived error, delivering no further rows.
pub fn fetch_text_rows<D: Driver, S: TextRowSink>(
    driver: &mut D,
    stmt: u64,
    buffers: Vec<ColumnBuffer>,
    sink: &mut S,
) -> (r: (OdbcResult<()>, Ghost<Seq<int>>))
    ensures
        ({
            let res = r.0;
            let codes = r.1@;
            &&& codes.len() >= 1
            &&& forall|j: int|
                0 <= j < codes.len() - 1 ==> 0 <= (#[trigger] codes[j]) && codes[j] != SQL_NO_DATA as int
            &&& (res is Ok <==> codes.last() >= 0)
            &&& (res is Err <==> codes.last() < 0)
            &&& (res is Ok && codes.last() != SQL_NO_DATA as int ==> codes.len() == u64::MAX as int)
            &&& (res matches Err(e) ==> e.kind is DriverError)
        }),
{
    let mut bufs = buffers;
    let ghost mut codes: Seq<int> = Seq::empty();
    let mut outcome: OdbcResult<()> = Ok(());
    let mut rows: u64 = 0;
    loop
        invariant_except_break
            rows as int == codes.len(),
            rows < u64::MAX,
            forall|j: int|
                0 <= j < codes.len() ==> 0 <= (#[trigger] codes[j]) && codes[j] != SQL_NO_DATA as int,
        ensures
            codes.len() >= 1,
            forall|j: int|
                0 <= j < codes.len() - 1 ==> 0 <= (#[trigger] codes[j]) && codes[j] != SQL_NO_DATA as int,
            outcome is Ok <==> codes.last() >= 0,
            outcome is Err <==> codes.last() < 0,
            outcome is Ok && codes.last() != SQL_NO_DATA as int ==> codes.len() == u64::MAX as int,
            outcome matches Err(e) ==> e.kind is DriverError,
        decreases u64::MAX - rows,
    {
        let reply = driver.fetch(stmt);
        proof {
            codes = codes.push(reply.code as int);
        }
        if reply.code == SQL_NO_DATA {
            outcome = Ok(());
            break;
        }
        if reply.code < 0 {
            match sql_result(driver, (), reply.code, SQL_HANDLE_STMT, stmt) {
                // a negative code never completes as a value
                Ok(_) => {
                    proof {
                        assert(false);
                    }
                },
                Err(e) => {
                    outcome = Err(e);
                },
            }
            break;
        }
        bufs = apply_row(bufs, &reply.columns);
        let row = decode_text_row(&bufs);
        sink.on_row(row);
        if rows == u64::MAX - 1 {
            outcome = Ok(());
            break;
        }
        rows = rows + 1;
    }
    (outcome, Ghost(codes))
}

/// Drives the fetch loop for a binary result set; the transcript means
/// the same as for the text loop.
pub fn fetch_binary_rows<D: Driver, S: BinaryRowSink>(
    driver: &mut D,
    stmt: u64,
    buffers: Vec<ColumnBuffer>,
    sink: &mut S,
) -> (r: (OdbcResult<()>, Ghost<Seq<int>>))
    ensures
        ({
            let res = r.0;
            let codes = r.1@;
            &&& codes.len() >= 1
            &&& forall|j: int|
                0 <= j < codes.len() - 1 ==> 0 <= (#[trigger] codes[j]) && codes[j] != SQL_NO_DATA as int
            &&& (res is Ok <==> codes.last() >= 0)
            &&& (res is Err <==> codes.last() < 0)
            &&& (res is Ok && codes.last() != SQL_NO_DATA as int ==> codes.len() == u64::MAX as int)
            &&& (res matches Err(e) ==> e.kind is DriverError)
        }),
{
    let mut bufs = buffers;
    let ghost mut codes: Seq<int> = Seq::empty();
    let mut outcome: OdbcResult<()> = Ok(());
    let mut rows: u64 = 0;
    loop
        invariant_except_break
            rows as int == codes.len(),
            rows < u64::MAX,
            forall|j: int|
                0 <= j < codes.len() ==> 0 <= (#[trigger] codes[j]) && codes[j] != SQL_NO_DATA as int,
        ensures
            codes.len() >= 1,
            forall|j: int|
                0 <= j < codes.len() - 1 ==> 0 <= (#[trigger] codes[j]) && codes[j] != SQL_NO_DATA as int,
            outcome is Ok <==> codes.last() >= 0,
            outcome is Err <==> codes.last() < 0,
            outcome is Ok && codes.last() != SQL_NO_DATA as int ==> codes.len() == u64::MAX as int,
            outcome matches Err(e) ==> e.kind is DriverError,
        decreases u64::MAX - rows,
    {
        let reply = driver.fetch(stmt);
        proof {
            codes = codes.push(reply.code as int);
        }
        if reply.code == SQL_NO_DATA {
            outcome = Ok(());
            break;
        }
        if reply.code < 0 {
            match sql_result(driver, (), reply.code, SQL_HANDLE_STMT, stmt) {
                // a negative code never completes as a value
                Ok(_) => {
                    proof {
                        assert(false);
                    }
                },
                Err(e) => {
                    outcome = Err(e);
                },
            }
            break;
        }
        bufs = apply_row(bufs, &reply.columns);
        let row = decode_binary_row(&bufs);
        sink.on_row(row);
        if rows == u64::MAX - 1 {
            outcome = Ok(());
            break;
        }
        rows = rows + 1;
    }
    (outcome, Ghost(codes))
}

} // verus!
