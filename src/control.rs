//! The state shared between the user interface and a poller: the latest
//! published snapshot and the control slots the interface fills.
//!
//! The interface fills slots under a brief lock; the poller drains them once
//! per cycle. A slot holds one value: posting again before the poller drains
//! it replaces the earlier value.

use vstd::prelude::*;
use crate::config::ReadRequest;
use crate::error::{PollError, poll_text};

verus! {

/// A value written to an S7 data block field.
#[derive(Clone, Copy, Debug, PartialEq, Eq, Structural)]
pub enum S7Value {
    Bool(bool),
    /// An IEEE-754 single given by its bit pattern.
    Real(u32),
    Int(i16),
}

/// A write addressed by S7 data block, byte offset and bit position.
#[derive(Clone, Copy, Debug, PartialEq, Eq, Structural)]
pub struct S7FieldWrite {
    pub data_block: i32,
    pub byte_offset: u32,
    /// Bit within the byte; used by `S7Value::Bool` alone.
    pub bit: u8,
    pub value: S7Value,
}

/// An outbound command for the device.
#[derive(Clone, Copy, Debug, PartialEq, Eq, Structural)]
pub enum WriteCommand {
    /// An IEEE-754 single, given by its bit pattern, into two registers
    /// starting at `register`, high word first.
    Float { register: u16, bits: u32 },
    /// One coil.
    Bool { register: u16, value: bool },
    /// One S7 field.
    Field(S7FieldWrite),
}

/// The pattern of the single 0.0.
pub const FLOAT_ZERO_BITS: u32 = 0x0000_0000;

/// The pattern of the single 1.0.
pub const FLOAT_ONE_BITS: u32 = 0x3F80_0000;

/// The command that flips the two-register float at `register` between 0.0
/// and 1.0, judged by the word at `register` in `data`: a nonzero word asks
/// for 0.0, a zero word for 1.0. No command when `data` is too short.
pub open spec fn toggle_spec(data: Seq<u16>, register: u16) -> Option<WriteCommand> {
    if register < data.len() {
        Some(WriteCommand::Float {
            register,
            bits: if data[register as int] > 0 { FLOAT_ZERO_BITS } else { FLOAT_ONE_BITS },
        })
    } else {
        None
    }
}

/// Builds the command that flips a 0.0/1.0 flag held as a float at `register`.
pub fn toggle_command(data: &Vec<u16>, register: u16) -> (r: Option<WriteCommand>)
    ensures
        r == toggle_spec(data@, register),
{
    if (register as usize) < data.len() {
        let bits = if data[register as usize] > 0 { FLOAT_ZERO_BITS } else { FLOAT_ONE_BITS };
        Some(WriteCommand::Float { register, bits })
    } else {
        None
    }
}

/// The control slots the interface fills and the poller drains.
#[derive(Debug)]
pub struct ControlSignal {
    /// A read definition to apply from the next cycle on.
    pub pending_config: Option<ReadRequest>,
    /// A command to send to the device.
    pub pending_write: Option<WriteCommand>,
    /// Failed attempts at the pending command so far.
    pub write_failures: u32,
    /// Cycles still to pass before the pending command is tried again.
    pub write_wait: u32,
    /// A request that the poller stop.
    pub terminate: bool,
}

/// The slots after the interface posts `cmd`: it replaces any command
/// still pending, whose failure count and wait go with it.
pub open spec fn posted_write(c: ControlSignal, cmd: WriteCommand) -> ControlSignal {
    ControlSignal { pending_write: Some(cmd), write_failures: 0, write_wait: 0, ..c }
}

/// The slots after the interface posts a new read definition.
pub open spec fn posted_config(c: ControlSignal, req: ReadRequest) -> ControlSignal {
    ControlSignal { pending_config: Some(req), ..c }
}

/// The slots after the interface asks the poller to stop.
pub open spec fn posted_terminate(c: ControlSignal) -> ControlSignal {
    ControlSignal { terminate: true, ..c }
}

impl ControlSignal {
    /// Empty slots.
    pub fn new() -> (r: ControlSignal)
        ensures
            r.pending_config is None,
            r.pending_write is None,
            r.write_failures == 0,
            r.write_wait == 0,
            !r.terminate,
    {
        ControlSignal {
            pending_config: None,
            pending_write: None,
            write_failures: 0,
            write_wait: 0,
            terminate: false,
        }
    }

    /// Posts a command; a command still pending is replaced.
    pub fn post_write(&mut self, cmd: WriteCommand)
        ensures
            *final(self) == posted_write(*old(self), cmd),
    {
        self.pending_write = Some(cmd);
        self.write_failures = 0;
        self.write_wait = 0;
    }

    /// Posts a read definition; one still pending is replaced.
    pub fn post_config(&mut self, req: ReadRequest)
        ensures
            *final(self) == posted_config(*old(self), req),
    {
        self.pending_config = Some(req);
    }

    /// Asks the poller to stop at its next drain.
    pub fn request_terminate(&mut self)
        ensures
            *final(self) == posted_terminate(*old(self)),
    {
        self.terminate = true;
    }
}

/// Of two commands posted one after the other before the poller drains,
/// only the second stays pending, with a fresh failure count and no wait.
pub proof fn lemma_last_write_wins(c: ControlSignal, first: WriteCommand, second: WriteCommand)
    ensures
        posted_write(posted_write(c, first), second) == posted_write(c, second),
        posted_write(posted_write(c, first), second).pending_write == Some(second),
{
}

/// The latest published read result with its diagnostics.
#[derive(Debug)]
pub struct PollSnapshot {
    /// The last block read successfully; index is the offset from the
    /// first register address.
    pub data: Vec<u16>,
    /// Wall-clock duration of the last successful read, in microseconds.
    pub achieved_scan_time_us: u128,
    /// The error of the latest cycle that failed, cleared by a successful
    /// read. While it is set, `data` may be stale.
    pub last_error: Option<PollError>,
}

impl PollSnapshot {
    /// A snapshot with no data yet.
    pub fn new() -> (r: PollSnapshot)
        ensures
            r.data@.len() == 0,
            r.achieved_scan_time_us == 0,
            r.last_error is None,
    {
        PollSnapshot { data: Vec::new(), achieved_scan_time_us: 0, last_error: None }
    }

    /// The operator's text for the last error, if any.
    pub fn error_text(&self) -> (r: Option<String>)
        ensures
            match self.last_error {
                Some(e) => r matches Some(s) && s@ == poll_text(e),
                None => r is None,
            },
    {
        match &self.last_error {
            Some(e) => Some(e.message()),
            None => None,
        }
    }
}

/// Everything guarded by the lock one poller shares with the interface.
#[derive(Debug)]
pub struct MutexData {
    pub snapshot: PollSnapshot,
    pub control: ControlSignal,
}

impl MutexData {
    /// A fresh store: no data, no error, empty slots.
    pub fn new() -> (r: MutexData)
        ensures
            r.snapshot.data@.len() == 0,
            r.snapshot.achieved_scan_time_us == 0,
            r.snapshot.last_error is None,
            r.control.pending_config is None,
            r.control.pending_write is None,
            r.control.write_failures == 0,
            r.control.write_wait == 0,
            !r.control.terminate,
    {
        MutexData { snapshot: PollSnapshot::new(), control: ControlSignal::new() }
    }
}

} // verus!
