//! What a device session needs decided before it touches the wire: the
//! transport to open for a configuration, whether a register block can be
//! asked for, and how S7 data blocks carry the register model.

use vstd::prelude::*;
use crate::config::{DeviceConfig, Parity, RegisterType, ReadRequest, MAX_REGISTER_COUNT};
use crate::control::{S7FieldWrite, S7Value, WriteCommand};
use crate::error::{ConnectError, ReadError};

verus! {

/// Timeout of a serial line, in milliseconds.
pub const SERIAL_TIMEOUT_MS: u64 = 1500;

/// Timeout of a TCP connection, in milliseconds.
pub const TCP_TIMEOUT_MS: u64 = 5000;

/// Rack by which an S7 controller is reached.
pub const S7_RACK: u16 = 5;

/// Slot by which an S7 controller is reached.
pub const S7_SLOT: u16 = 5;

/// Data block of an S7 controller that holds the register model.
pub const S7_DATA_BLOCK: i32 = 1;

/// Number of register addresses: a block may not run past the last one.
pub const ADDRESS_SPACE: u32 = 0x10000;

/// A register block to read.
#[derive(Clone, Copy, Debug, PartialEq, Eq, Structural)]
pub struct ReadBlock {
    pub register_type: RegisterType,
    pub start_address: u16,
    pub count: u16,
}

/// The block a read definition asks for.
pub open spec fn block_of(req: ReadRequest) -> ReadBlock {
    ReadBlock {
        register_type: req.register_type,
        start_address: req.start_address,
        count: req.count,
    }
}

/// The error of a read of `count` registers from `start`, if it cannot be
/// asked for: the count must be in 1 ..= 1000 and the block must end within
/// the address space.
pub open spec fn range_error(start: u16, count: u16) -> Option<ReadError> {
    if count < 1 || count > MAX_REGISTER_COUNT {
        Some(ReadError::InvalidRange)
    } else if start as int + count as int > ADDRESS_SPACE as int {
        Some(ReadError::InvalidAddress)
    } else {
        None
    }
}

/// Checks that a block of `count` registers from `start` can be asked for.
pub fn check_read_range(start: u16, count: u16) -> (r: Option<ReadError>)
    ensures
        r == range_error(start, count),
{
    if count < 1 || count > MAX_REGISTER_COUNT {
        Some(ReadError::InvalidRange)
    } else if start as u32 + count as u32 > ADDRESS_SPACE {
        Some(ReadError::InvalidAddress)
    } else {
        None
    }
}

/// How to open the session for one device.
#[derive(Clone, Debug)]
pub enum SessionPlan {
    Serial { port_name: String, baud_rate: u32, parity: Parity, slave: u8, timeout_ms: u64 },
    Tcp { host: String, port: u16, timeout_ms: u64 },
    S7 { host: String, rack: u16, slot: u16, timeout_ms: u64 },
}

/// The session a configuration asks for; a transport without a session
/// is refused.
pub open spec fn plan_spec(config: DeviceConfig) -> Result<SessionPlan, ConnectError> {
    match config {
        DeviceConfig::ModbusSerial(c) => Ok(
            SessionPlan::Serial {
                port_name: c.port,
                baud_rate: c.baudrate.rate(),
                parity: c.parity,
                slave: c.slave,
                timeout_ms: SERIAL_TIMEOUT_MS,
            },
        ),
        DeviceConfig::ModbusTcp(c) => Ok(
            SessionPlan::Tcp { host: c.ip_address, port: c.port, timeout_ms: TCP_TIMEOUT_MS },
        ),
        DeviceConfig::S7(c) => Ok(
            SessionPlan::S7 { host: c.ip, rack: S7_RACK, slot: S7_SLOT, timeout_ms: TCP_TIMEOUT_MS },
        ),
        DeviceConfig::EthernetIp => Err(ConnectError::UnimplementedTransport),
    }
}

/// Selects the session for a configuration; a transport without a session
/// is refused at once.
pub fn plan_session(config: &DeviceConfig) -> (r: Result<SessionPlan, ConnectError>)
    ensures
        r == plan_spec(*config),
{
    match config {
        DeviceConfig::ModbusSerial(c) => Ok(
            SessionPlan::Serial {
                port_name: c.port.clone(),
                baud_rate: c.baudrate.bits_per_second(),
                parity: c.parity,
                slave: c.slave,
                timeout_ms: SERIAL_TIMEOUT_MS,
            },
        ),
        DeviceConfig::ModbusTcp(c) => Ok(
            SessionPlan::Tcp { host: c.ip_address.clone(), port: c.port, timeout_ms: TCP_TIMEOUT_MS },
        ),
        DeviceConfig::S7(c) => Ok(
            SessionPlan::S7 {
                host: c.ip.clone(),
                rack: S7_RACK,
                slot: S7_SLOT,
                timeout_ms: TCP_TIMEOUT_MS,
            },
        ),
        DeviceConfig::EthernetIp => Err(ConnectError::UnimplementedTransport),
    }
}

/// The bytes of an S7 data block that hold a register block: two per
/// register, from twice the first address on.
pub fn s7_byte_range(block: &ReadBlock) -> (r: (u32, u32))
    ensures
        r.0 == 2 * block.start_address,
        r.1 == 2 * block.count,
{
    (2 * (block.start_address as u32), 2 * (block.count as u32))
}

/// The S7 field a command reaches; a register `n` is the two bytes from
/// offset `2 * n` of the register data block.
pub open spec fn s7_field_spec(cmd: WriteCommand) -> S7FieldWrite {
    match cmd {
        WriteCommand::Float { register, bits } => S7FieldWrite {
            data_block: S7_DATA_BLOCK,
            byte_offset: (2 * register) as u32,
            bit: 0,
            value: S7Value::Real(bits),
        },
        WriteCommand::Bool { register, value } => S7FieldWrite {
            data_block: S7_DATA_BLOCK,
            byte_offset: (2 * register) as u32,
            bit: 0,
            value: S7Value::Bool(value),
        },
        WriteCommand::Field(f) => f,
    }
}

/// The S7 field a command reaches.
pub fn s7_field(cmd: &WriteCommand) -> (r: S7FieldWrite)
    ensures
        r == s7_field_spec(*cmd),
{
    match cmd {
        WriteCommand::Float { register, bits } => S7FieldWrite {
            data_block: S7_DATA_BLOCK,
            byte_offset: 2 * (*register as u32),
            bit: 0,
            value: S7Value::Real(*bits),
        },
        WriteCommand::Bool { register, value } => S7FieldWrite {
            data_block: S7_DATA_BLOCK,
            byte_offset: 2 * (*register as u32),
            bit: 0,
            value: S7Value::Bool(*value),
        },
        WriteCommand::Field(f) => *f,
    }
}

/// Register words from the bytes of an S7 data block, two bytes each, high
/// byte first; an odd trailing byte is left out.
pub fn bytes_to_words(bytes: &Vec<u8>) -> (r: Vec<u16>)
    ensures
        r@.len() == bytes@.len() / 2,
        forall|i: int|
            0 <= i < r@.len() ==> #[trigger] r@[i] as int == bytes@[2 * i] as int * 256
                + bytes@[2 * i + 1] as int,
{
    let mut r: Vec<u16> = Vec::new();
    let mut j: usize = 0;
    while j + 1 < bytes.len()
        invariant
            j == 2 * r@.len(),
            j <= bytes@.len(),
            forall|k: int|
                0 <= k < r@.len() ==> #[trigger] r@[k] as int == bytes@[2 * k] as int * 256
                    + bytes@[2 * k + 1] as int,
        decreases bytes@.len() - j,
    {
        let hi = bytes[j];
        let lo = bytes[j + 1];
        let w: u16 = (hi as u16) * 256 + (lo as u16);
        r.push(w);
        j += 2;
    }
    r
}

} // verus!
