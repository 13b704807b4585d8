//! Errors of a device session, and the text the operator sees for each.
//!
//! Each text starts with a code: `0x1` connection, `0x2` read, `0x3` address,
//! `0x4` write, `0x5` transport.

use vstd::prelude::*;
use vstd::string::StringExecFns;

verus! {

/// Why a session could not be opened. Fatal to the poller that met it.
#[derive(Clone, Debug)]
pub enum ConnectError {
    /// The host, port or address string does not parse.
    InvalidAddress,
    /// The transport refused or timed out; the text is the transport's own.
    Unreachable(String),
    /// No session exists for the configured transport.
    UnimplementedTransport,
}

/// Why a read of a register block failed. The poller records it and goes on.
#[derive(Clone, Debug)]
pub enum ReadError {
    /// The register count is outside what one read may ask for.
    InvalidRange,
    /// The block runs past the last register address.
    InvalidAddress,
    /// The device or the line failed; the text is the transport's own.
    Device(String),
}

/// Why a write command failed.
#[derive(Clone, Debug)]
pub enum WriteError {
    /// The device or the line failed; the text is the transport's own.
    Device(String),
    /// The command failed on every attempt allowed and was dropped.
    GaveUp,
}

/// The last error a poller met, as kept in the published snapshot.
#[derive(Clone, Debug)]
pub enum PollError {
    Connect(ConnectError),
    Read(ReadError),
    Write(WriteError),
}

/// The operator's text for a connection error.
pub open spec fn connect_text(e: ConnectError) -> Seq<char> {
    match e {
        ConnectError::InvalidAddress => "0x3: Error parsing the address IP."@,
        ConnectError::Unreachable(d) => "0x1: Could not connect to server. "@ + d@,
        ConnectError::UnimplementedTransport => "0x5: Transport not implemented."@,
    }
}

/// The operator's text for a read error.
pub open spec fn read_text(e: ReadError) -> Seq<char> {
    match e {
        ReadError::InvalidRange => "0x2: Could not read registers. Invalid register count."@,
        ReadError::InvalidAddress => "0x2: Could not read registers. Invalid register address."@,
        ReadError::Device(d) => "0x2: Could not read registers. "@ + d@,
    }
}

/// The operator's text for a write error.
pub open spec fn write_text(e: WriteError) -> Seq<char> {
    match e {
        WriteError::Device(d) => "0x4: Could not write command. "@ + d@,
        WriteError::GaveUp => "0x4: Could not write command. Gave up after repeated failures."@,
    }
}

/// The operator's text for any poller error.
pub open spec fn poll_text(e: PollError) -> Seq<char> {
    match e {
        PollError::Connect(c) => connect_text(c),
        PollError::Read(r) => read_text(r),
        PollError::Write(w) => write_text(w),
    }
}

impl ConnectError {
    /// The operator's text for this error.
    pub fn message(&self) -> (r: String)
        ensures
            r@ == connect_text(*self),
    {
        match self {
            ConnectError::InvalidAddress => "0x3: Error parsing the address IP.".to_owned(),
            ConnectError::Unreachable(d) => {
                let mut s = "0x1: Could not connect to server. ".to_owned();
                s.append(d.as_str());
                s
            },
            ConnectError::UnimplementedTransport => "0x5: Transport not implemented.".to_owned(),
        }
    }
}

impl ReadError {
    /// The operator's text for this error.
    pub fn message(&self) -> (r: String)
        ensures
            r@ == read_text(*self),
    {
        match self {
            ReadError::InvalidRange => "0x2: Could not read registers. Invalid register count.".to_owned(),
            ReadError::InvalidAddress => "0x2: Could not read registers. Invalid register address.".to_owned(),
            ReadError::Device(d) => {
                let mut s = "0x2: Could not read registers. ".to_owned();
                s.append(d.as_str());
                s
            },
        }
    }
}

impl WriteError {
    /// The operator's text for this error.
    pub fn message(&self) -> (r: String)
        ensures
            r@ == write_text(*self),
    {
        match self {
            WriteError::Device(d) => {
                let mut s = "0x4: Could not write command. ".to_owned();
                s.append(d.as_str());
                s
            },
            WriteError::GaveUp => "0x4: Could not write command. Gave up after repeated failures.".to_owned(),
        }
    }
}

impl PollError {
    /// The operator's text for this error.
    pub fn message(&self) -> (r: String)
        ensures
            r@ == poll_text(*self),
    {
        match self {
            PollError::Connect(c) => c.message(),
            PollError::Read(e) => e.message(),
            PollError::Write(w) => w.message(),
        }
    }
}

} // verus!
