//! The poller: the state machine that owns one device session.
//!
//! The machine decides; its driver acts. Each method takes what the driver
//! observed (a connection result, a wake-up with the store locked, a write
//! or read result), updates the poller and the shared store under the
//! driver's lock, and returns the next thing for the driver to do. A cycle
//! is: sleep, drain the control slots, send the pending command if any,
//! read one register block, publish.

use vstd::prelude::*;
use crate::config::{DeviceConfig, ReadRequest};
use crate::control::{ControlSignal, PollSnapshot, MutexData, WriteCommand, posted_write};
use crate::error::{ConnectError, PollError, ReadError, WriteError};
use crate::session::{ReadBlock, SessionPlan, block_of, check_read_range, plan_session, plan_spec, range_error};

verus! {

/// Attempts a command gets before it is dropped.
pub const MAX_WRITE_ATTEMPTS: u32 = 5;

/// Cycles a command waits after its `failures`-th failure before it is
/// tried again: the wait doubles, plus one, with each failure.
pub open spec fn retry_wait(failures: u32) -> u32 {
    ((1u32 << failures) - 1) as u32
}

/// Cycles a command waits after its `failures`-th failure.
pub fn retry_wait_cycles(failures: u32) -> (r: u32)
    requires
        failures < MAX_WRITE_ATTEMPTS,
    ensures
        r == retry_wait(failures),
{
    assert(1u32 << failures >= 1) by (bit_vector)
        requires
            failures < 5,
    ;
    (1u32 << failures) - 1
}

/// Where a poller stands. There is no way back from `Terminated`.
#[derive(Clone, Copy, Debug, PartialEq, Eq, Structural)]
pub enum Phase {
    Connecting,
    Polling,
    Terminated,
}

/// What the driver is to do next.
#[derive(Clone, Copy, Debug, PartialEq, Eq, Structural)]
pub enum Action {
    /// Sleep this many milliseconds, then lock the store and report a wake-up.
    Sleep(u64),
    /// Send this command, then report its result.
    Write(WriteCommand),
    /// Read this block, timing the read, then report its result.
    Read(ReadBlock),
    /// Stop: the poller has ended.
    Exit,
}

/// The working copy of one device's configuration and where its poller stands.
#[derive(Clone, Debug)]
pub struct Poller {
    pub device: DeviceConfig,
    pub request: ReadRequest,
    pub phase: Phase,
}

/// The store with `e` recorded as the latest error; the data stays.
pub open spec fn with_error(s: MutexData, e: PollError) -> MutexData {
    MutexData { snapshot: PollSnapshot { last_error: Some(e), ..s.snapshot }, ..s }
}

/// Opening a session: on success the poller starts sleeping its interval;
/// on failure the error is recorded and the poller ends.
pub open spec fn connect_step(p: Poller, s: MutexData, result: Result<(), ConnectError>) -> (
    Poller,
    MutexData,
    Action,
) {
    match result {
        Ok(()) => (Poller { phase: Phase::Polling, ..p }, s, Action::Sleep(p.request.scan_interval_ms)),
        Err(e) => (Poller { phase: Phase::Terminated, ..p }, with_error(s, PollError::Connect(e)), Action::Exit),
    }
}

/// Issuing the cycle's read: a block that cannot be asked for is recorded
/// as an error and the cycle ends without touching the wire.
pub open spec fn read_step(p: Poller, s: MutexData) -> (MutexData, Action) {
    match range_error(p.request.start_address, p.request.count) {
        Some(e) => (with_error(s, PollError::Read(e)), Action::Sleep(p.request.scan_interval_ms)),
        None => (s, Action::Read(block_of(p.request))),
    }
}

/// The control slots once the pending read definition is taken.
pub open spec fn config_taken(c: ControlSignal) -> ControlSignal {
    ControlSignal { pending_config: None, ..c }
}

/// The poller once the pending read definition, if any, is applied.
pub open spec fn config_applied(p: Poller, c: ControlSignal) -> Poller {
    match c.pending_config {
        Some(r) => Poller { request: r, ..p },
        None => p,
    }
}

/// Waking with the store locked: a stop request ends the poller before
/// anything else; otherwise a pending read definition is applied, then a
/// pending command is sent unless it is still waiting out a failure, in
/// which case one cycle of its wait passes and the read is issued.
pub open spec fn wake_step(p: Poller, s: MutexData) -> (Poller, MutexData, Action) {
    if s.control.terminate {
        (
            Poller { phase: Phase::Terminated, ..p },
            MutexData { control: ControlSignal { terminate: false, ..s.control }, ..s },
            Action::Exit,
        )
    } else {
        let applied = config_applied(p, s.control);
        let s1 = MutexData { control: config_taken(s.control), ..s };
        match s1.control.pending_write {
            Some(w) => if s1.control.write_wait == 0 {
                (applied, s1, Action::Write(w))
            } else {
                let s2 = MutexData {
                    control: ControlSignal { write_wait: (s1.control.write_wait - 1) as u32, ..s1.control },
                    ..s1
                };
                (applied, read_step(applied, s2).0, read_step(applied, s2).1)
            },
            None => (applied, read_step(applied, s1).0, read_step(applied, s1).1),
        }
    }
}

/// The store once a command's result is in. Success clears the command.
/// Failure records the error and leaves the command to be tried again
/// after `retry_wait` cycles, until the last allowed attempt fails: then
/// the command is dropped and the error says so. A command replaced meanwhile by a newer one leaves
/// the newer one alone.
pub open spec fn write_result_state(s: MutexData, cmd: WriteCommand, result: Result<(), WriteError>) -> MutexData {
    if s.control.pending_write != Some(cmd) {
        match result {
            Ok(()) => s,
            Err(e) => with_error(s, PollError::Write(e)),
        }
    } else {
        match result {
            Ok(()) => MutexData {
                control: ControlSignal { pending_write: None, write_failures: 0, write_wait: 0, ..s.control },
                ..s
            },
            Err(e) => if s.control.write_failures + 1 >= MAX_WRITE_ATTEMPTS {
                with_error(
                    MutexData {
                        control: ControlSignal { pending_write: None, write_failures: 0, write_wait: 0, ..s.control },
                        ..s
                    },
                    PollError::Write(WriteError::GaveUp),
                )
            } else {
                with_error(
                    MutexData {
                        control: ControlSignal {
                            write_failures: (s.control.write_failures + 1) as u32,
                            write_wait: retry_wait((s.control.write_failures + 1) as u32),
                            ..s.control
                        },
                        ..s
                    },
                    PollError::Write(e),
                )
            },
        }
    }
}

/// The store once a read's result is in: success replaces the data, the
/// scan time and clears the error; failure records the error and keeps the
/// earlier data.
pub open spec fn read_result_state(s: MutexData, result: Result<Vec<u16>, ReadError>, elapsed_us: u128) -> MutexData {
    match result {
        Ok(words) => MutexData {
            snapshot: PollSnapshot { data: words, achieved_scan_time_us: elapsed_us, last_error: None },
            ..s
        },
        Err(e) => with_error(s, PollError::Read(e)),
    }
}

impl Poller {
    /// A poller for `device` reading `request`, with the plan of the session
    /// its driver is to open; a transport without a session is refused.
    pub fn start(device: DeviceConfig, request: ReadRequest) -> (r: Result<(Poller, SessionPlan), ConnectError>)
        ensures
            device is EthernetIp <==> r is Err,
            r matches Err(e) ==> e is UnimplementedTransport,
            r matches Ok((p, plan)) ==> p.device == device && p.request == request && p.phase
                == Phase::Connecting && plan_spec(device) == Ok::<SessionPlan, ConnectError>(plan),
    {
        match plan_session(&device) {
            Ok(plan) => Ok((Poller { device, request, phase: Phase::Connecting }, plan)),
            Err(e) => Err(e),
        }
    }

    /// Reports whether the session opened.
    pub fn on_connect(&mut self, state: &mut MutexData, result: Result<(), ConnectError>) -> (r: Action)
        requires
            old(self).phase == Phase::Connecting,
        ensures
            (*final(self), *final(state), r) == connect_step(*old(self), *old(state), result),
    {
        match result {
            Ok(()) => {
                self.phase = Phase::Polling;
                Action::Sleep(self.request.scan_interval_ms)
            },
            Err(e) => {
                self.phase = Phase::Terminated;
                state.snapshot.last_error = Some(PollError::Connect(e));
                Action::Exit
            },
        }
    }

    /// Issues the cycle's read, or records why the block cannot be read.
    /// The driver calls this directly when the wake-up found the store's
    /// lock contended, so that control slots wait for the next cycle.
    pub fn issue_read(&self, state: &mut MutexData) -> (r: Action)
        requires
            self.phase == Phase::Polling,
        ensures
            (*final(state), r) == read_step(*self, *old(state)),
    {
        match check_read_range(self.request.start_address, self.request.count) {
            Some(e) => {
                state.snapshot.last_error = Some(PollError::Read(e));
                Action::Sleep(self.request.scan_interval_ms)
            },
            None => Action::Read(
                ReadBlock {
                    register_type: self.request.register_type,
                    start_address: self.request.start_address,
                    count: self.request.count,
                },
            ),
        }
    }

    /// Reports a wake-up with the store's lock held: drains the control slots.
    pub fn on_wake(&mut self, state: &mut MutexData) -> (r: Action)
        requires
            old(self).phase == Phase::Polling,
        ensures
            (*final(self), *final(state), r) == wake_step(*old(self), *old(state)),
            old(state).control.terminate ==> r == Action::Exit && final(self).phase
                == Phase::Terminated && final(state).snapshot == old(state).snapshot,
    {
        if state.control.terminate {
            state.control.terminate = false;
            self.phase = Phase::Terminated;
            return Action::Exit;
        }
        match state.control.pending_config {
            Some(req) => {
                self.request = req;
                state.control.pending_config = None;
            },
            None => {},
        }
        match state.control.pending_write {
            Some(w) => if state.control.write_wait == 0 {
                Action::Write(w)
            } else {
                state.control.write_wait = state.control.write_wait - 1;
                self.issue_read(state)
            },
            None => self.issue_read(state),
        }
    }

    /// Reports the result of sending `cmd`, then issues the cycle's read.
    pub fn on_write_done(&self, state: &mut MutexData, cmd: WriteCommand, result: Result<(), WriteError>) -> (r: Action)
        requires
            self.phase == Phase::Polling,
        ensures
            (*final(state), r) == read_step(*self, write_result_state(*old(state), cmd, result)),
    {
        let current = state.control.pending_write == Some(cmd);
        if !current {
            match result {
                Ok(()) => {},
                Err(e) => {
                    state.snapshot.last_error = Some(PollError::Write(e));
                },
            }
        } else {
            match result {
                Ok(()) => {
                    state.control.pending_write = None;
                    state.control.write_failures = 0;
                    state.control.write_wait = 0;
                },
                Err(e) => {
                    if state.control.write_failures >= MAX_WRITE_ATTEMPTS - 1 {
                        state.control.pending_write = None;
                        state.control.write_failures = 0;
                        state.control.write_wait = 0;
                        state.snapshot.last_error = Some(PollError::Write(WriteError::GaveUp));
                    } else {
                        let failures = state.control.write_failures + 1;
                        state.control.write_failures = failures;
                        state.control.write_wait = retry_wait_cycles(failures);
                        state.snapshot.last_error = Some(PollError::Write(e));
                    }
                },
            }
        }
        self.issue_read(state)
    }

    /// Reports the result of the cycle's read and how long it took, then
    /// sleeps the current interval.
    pub fn on_read_done(&self, state: &mut MutexData, result: Result<Vec<u16>, ReadError>, elapsed_us: u128) -> (r: Action)
        requires
            self.phase == Phase::Polling,
        ensures
            *final(state) == read_result_state(*old(state), result, elapsed_us),
            r == Action::Sleep(self.request.scan_interval_ms),
    {
        match result {
            Ok(words) => {
                state.snapshot.data = words;
                state.snapshot.achieved_scan_time_us = elapsed_us;
                state.snapshot.last_error = None;
            },
            Err(e) => {
                state.snapshot.last_error = Some(PollError::Read(e));
            },
        }
        Action::Sleep(self.request.scan_interval_ms)
    }
}

/// A stop request found at a wake-up ends the poller before any command or
/// read: the action is to exit, the snapshot stays as it was and the request
/// is cleared. No step is defined from `Terminated`, so nothing is published
/// after that.
pub proof fn lemma_terminate_honored(p: Poller, s: MutexData)
    requires
        s.control.terminate,
    ensures
        wake_step(p, s).2 == Action::Exit,
        wake_step(p, s).0.phase == Phase::Terminated,
        wake_step(p, s).1.snapshot == s.snapshot,
        !wake_step(p, s).1.control.terminate,
{
}

/// Of two commands posted before the poller drains, the wake-up sends the
/// second, and the first is no longer pending anywhere.
pub proof fn lemma_second_write_sent(p: Poller, s: MutexData, first: WriteCommand, second: WriteCommand)
    requires
        !s.control.terminate,
    ensures
        ({
            let posted = MutexData {
                control: posted_write(posted_write(s.control, first), second),
                ..s
            };
            &&& wake_step(p, posted).2 == Action::Write(second)
            &&& wake_step(p, posted).1.control.pending_write == Some(second)
        }),
{
}

/// The store after a run of read results, each published in turn.
pub open spec fn after_reads(s: MutexData, results: Seq<(Result<Vec<u16>, ReadError>, u128)>) -> MutexData
    decreases results.len(),
{
    if results.len() == 0 {
        s
    } else {
        let last = results.last();
        read_result_state(after_reads(s, results.drop_last()), last.0, last.1)
    }
}

/// The block of the latest successful read in a run, or `init` if none.
pub open spec fn latest_data(init: Vec<u16>, results: Seq<(Result<Vec<u16>, ReadError>, u128)>) -> Vec<u16>
    decreases results.len(),
{
    if results.len() == 0 {
        init
    } else {
        match results.last().0 {
            Ok(words) => words,
            Err(_) => latest_data(init, results.drop_last()),
        }
    }
}

/// After any run of reads the published data is that of the latest
/// successful read (the earlier data when none succeeded), and an error is
/// published exactly when the latest read failed.
pub proof fn lemma_stale_data_kept(s: MutexData, results: Seq<(Result<Vec<u16>, ReadError>, u128)>)
    ensures
        after_reads(s, results).snapshot.data == latest_data(s.snapshot.data, results),
        results.len() > 0 ==> (after_reads(s, results).snapshot.last_error is Some <==> results.last().0 is Err),
    decreases results.len(),
{
    if results.len() > 0 {
        lemma_stale_data_kept(s, results.drop_last());
    }
}

} // verus!
