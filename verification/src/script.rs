//! A scripted driver: a test double whose answers are programmed queues,
//! one per entry point.
//!
//! It implements [`Driver`] inside the library, so the fetch-loop and
//! diagnostic logic can be exercised without a data source; an exhausted
//! queue answers success (or no-more-rows for a fetch), and releases are
//! recorded so a caller can observe the destruction order.

use vstd::prelude::*;
use crate::driver::{DiagReply, Driver, FetchReply};

verus! {

/// A driver whose answers come from programmed queues, consumed front to
/// back; see the module description.
pub struct ScriptedDriver {
    /// Replies to handle allocation: code and token.
    pub alloc_replies: Vec<(i16, u64)>,
    /// Codes for setting an environment attribute.
    pub set_attr_codes: Vec<i16>,
    /// Codes for connecting.
    pub connect_codes: Vec<i16>,
    /// Codes for direct execution.
    pub exec_codes: Vec<i16>,
    /// Replies to the column-count query: code and count.
    pub col_count_replies: Vec<(i16, i16)>,
    /// Codes for binding a column.
    pub bind_codes: Vec<i16>,
    /// Replies to fetch calls.
    pub fetch_replies: Vec<FetchReply>,
    /// The diagnostic records of the scripted handle: the reply at
    /// position `i` answers record index `i + 1`.
    pub diag_replies: Vec<DiagReply>,
    /// Every release performed, as handle type and token, in order.
    pub freed: Vec<(i16, u64)>,
    /// Every disconnect performed, in order.
    pub disconnects: Vec<u64>,
    /// Every free-statement option applied, as token and option, in order.
    pub unbinds: Vec<(u64, u16)>,
}

impl ScriptedDriver {
    /// A driver with nothing scripted: every call succeeds emptily.
    pub fn new() -> (r: ScriptedDriver)
        ensures
            r.alloc_replies@.len() == 0,
            r.fetch_replies@.len() == 0,
            r.diag_replies@.len() == 0,
            r.freed@.len() == 0,
            r.disconnects@.len() == 0,
            r.unbinds@.len() == 0,
    {
        ScriptedDriver {
            alloc_replies: Vec::new(),
            set_attr_codes: Vec::new(),
            connect_codes: Vec::new(),
            exec_codes: Vec::new(),
            col_count_replies: Vec::new(),
            bind_codes: Vec::new(),
            fetch_replies: Vec::new(),
            diag_replies: Vec::new(),
            freed: Vec::new(),
            disconnects: Vec::new(),
            unbinds: Vec::new(),
        }
    }
}

/// The next code of a queue, or zero (success) when it is exhausted.
fn next_code(queue: &mut Vec<i16>) -> (r: i16) {
    if queue.len() > 0 {
        queue.remove(0)
    } else {
        0
    }
}

impl Driver for ScriptedDriver {
    fn alloc_handle(&mut self, handle_type: i16, input_handle: u64) -> (i16, u64) {
        if self.alloc_replies.len() > 0 {
            self.alloc_replies.remove(0)
        } else {
            (0, 1)
        }
    }

    fn free_handle(&mut self, handle_type: i16, handle: u64) -> i16 {
        self.freed.push((handle_type, handle));
        0
    }

    fn set_env_attr(&mut self, env: u64, attribute: i64, value: i64) -> i16 {
        next_code(&mut self.set_attr_codes)
    }

    fn driver_connect(&mut self, dbc: u64, connection_string: &Vec<u16>) -> i16 {
        next_code(&mut self.connect_codes)
    }

    fn disconnect(&mut self, dbc: u64) -> i16 {
        self.disconnects.push(dbc);
        0
    }

    fn exec_direct(&mut self, stmt: u64, sql: &Vec<u16>) -> i16 {
        next_code(&mut self.exec_codes)
    }

    fn num_result_cols(&mut self, stmt: u64) -> (i16, i16) {
        if self.col_count_replies.len() > 0 {
            self.col_count_replies.remove(0)
        } else {
            (0, 0)
        }
    }

    fn bind_col(&mut self, stmt: u64, column: u16, target_type: i16, buffer_len: i64) -> i16 {
        next_code(&mut self.bind_codes)
    }

    fn fetch(&mut self, stmt: u64) -> FetchReply {
        if self.fetch_replies.len() > 0 {
            self.fetch_replies.remove(0)
        } else {
            FetchReply { code: 100, columns: Vec::new() }
        }
    }

    fn free_stmt(&mut self, stmt: u64, option: u16) -> i16 {
        self.unbinds.push((stmt, option));
        0
    }

    fn get_diag_rec(&mut self, handle_type: i16, handle: u64, record_index: i16) -> DiagReply {
        if record_index >= 1 && ((record_index - 1) as usize) < self.diag_replies.len() {
            self.diag_replies[(record_index - 1) as usize].clone()
        } else {
            DiagReply { code: 100, state: Vec::new(), native_error: 0, message: Vec::new() }
        }
    }
}

} // verus!
