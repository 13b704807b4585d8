//! Device and read configuration: which transport reaches the field device,
//! and which register block the poller asks for on each cycle.

use vstd::prelude::*;

verus! {

/// Highest first register address a read definition may name.
pub const MAX_START_ADDRESS: u16 = 9999;

/// Most registers one read definition may ask for.
pub const MAX_REGISTER_COUNT: u16 = 1000;

/// Shortest scan interval a read definition may ask for, in milliseconds.
pub const MIN_SCAN_INTERVAL_MS: u64 = 200;

/// Longest scan interval a read definition may ask for, in milliseconds.
pub const MAX_SCAN_INTERVAL_MS: u64 = 10000;

/// One of the addressable register spaces of the Modbus model.
#[derive(Clone, Copy, Debug, PartialEq, Eq, Structural)]
pub enum RegisterType {
    Coils,
    Inputs,
    Holding,
}

impl RegisterType {
    /// The name shown for this register space.
    pub fn label(&self) -> (r: &'static str)
        ensures
            r@ == match *self {
                RegisterType::Coils => "Coils"@,
                RegisterType::Inputs => "Input registers"@,
                RegisterType::Holding => "Holding registers"@,
            },
    {
        match self {
            RegisterType::Coils => "Coils",
            RegisterType::Inputs => "Input registers",
            RegisterType::Holding => "Holding registers",
        }
    }
}

impl Default for RegisterType {
    fn default() -> (r: Self)
        ensures
            r == RegisterType::Holding,
    {
        RegisterType::Holding
    }
}

/// What the poller reads on each cycle, and how long it sleeps in between.
#[derive(Clone, Copy, Debug, PartialEq, Eq, Structural)]
pub struct ReadRequest {
    pub register_type: RegisterType,
    pub start_address: u16,
    pub count: u16,
    pub scan_interval_ms: u64,
}

impl ReadRequest {
    /// A read definition within the bounds the configuration accepts.
    pub open spec fn valid(&self) -> bool {
        &&& self.start_address <= MAX_START_ADDRESS
        &&& 1 <= self.count <= MAX_REGISTER_COUNT
        &&& MIN_SCAN_INTERVAL_MS <= self.scan_interval_ms <= MAX_SCAN_INTERVAL_MS
    }

    /// Whether this read definition is within the accepted bounds.
    pub fn is_valid(&self) -> (r: bool)
        ensures
            r == self.valid(),
    {
        self.start_address <= MAX_START_ADDRESS && 1 <= self.count && self.count
            <= MAX_REGISTER_COUNT && MIN_SCAN_INTERVAL_MS <= self.scan_interval_ms
            && self.scan_interval_ms <= MAX_SCAN_INTERVAL_MS
    }
}

impl Default for ReadRequest {
    fn default() -> (r: Self)
        ensures
            r == (ReadRequest {
                register_type: RegisterType::Holding,
                start_address: 0,
                count: 44,
                scan_interval_ms: 1000,
            }),
            r.valid(),
    {
        ReadRequest {
            register_type: RegisterType::Holding,
            start_address: 0,
            count: 44,
            scan_interval_ms: 1000,
        }
    }
}

/// Parity of a serial line.
#[derive(Clone, Copy, Debug, PartialEq, Eq, Structural)]
pub enum Parity {
    Even,
    Odd,
    NoneParity,
}

impl Parity {
    /// The name shown for this parity.
    pub fn label(&self) -> (r: &'static str)
        ensures
            r@ == match *self {
                Parity::Even => "Even"@,
                Parity::Odd => "Odd"@,
                Parity::NoneParity => "None"@,
            },
    {
        match self {
            Parity::Even => "Even",
            Parity::Odd => "Odd",
            Parity::NoneParity => "None",
        }
    }
}

impl Default for Parity {
    fn default() -> (r: Self)
        ensures
            r == Parity::NoneParity,
    {
        Parity::NoneParity
    }
}

/// Speed of a serial line.
#[derive(Clone, Copy, Debug, PartialEq, Eq, Structural)]
pub enum Baudrate {
    Baud38400,
    Baud9600,
}

impl Baudrate {
    /// Bits per second of this speed.
    pub open spec fn rate(&self) -> u32 {
        match *self {
            Baudrate::Baud38400 => 38400,
            Baudrate::Baud9600 => 9600,
        }
    }

    /// Bits per second of this speed.
    pub fn bits_per_second(&self) -> (r: u32)
        ensures
            r == self.rate(),
    {
        match self {
            Baudrate::Baud38400 => 38400,
            Baudrate::Baud9600 => 9600,
        }
    }

    /// The name shown for this speed.
    pub fn label(&self) -> (r: &'static str)
        ensures
            r@ == match *self {
                Baudrate::Baud38400 => "38400"@,
                Baudrate::Baud9600 => "9600"@,
            },
    {
        match self {
            Baudrate::Baud38400 => "38400",
            Baudrate::Baud9600 => "9600",
        }
    }
}

impl Default for Baudrate {
    fn default() -> (r: Self)
        ensures
            r == Baudrate::Baud38400,
    {
        Baudrate::Baud38400
    }
}

/// Parameters of a Modbus RTU device on a serial line.
#[derive(Clone, Debug)]
pub struct ModbusSerialConfig {
    pub port: String,
    pub baudrate: Baudrate,
    pub slave: u8,
    pub parity: Parity,
}

impl Default for ModbusSerialConfig {
    fn default() -> (r: Self)
        ensures
            r.port@ == Seq::<char>::empty(),
            r.baudrate == Baudrate::Baud38400,
            r.slave == 1,
            r.parity == Parity::NoneParity,
    {
        ModbusSerialConfig {
            port: String::new(),
            baudrate: Baudrate::Baud38400,
            slave: 1,
            parity: Parity::NoneParity,
        }
    }
}

/// Parameters of a Modbus TCP server.
#[derive(Clone, Debug)]
pub struct ModbusTcpConfig {
    pub ip_address: String,
    pub port: u16,
}

impl Default for ModbusTcpConfig {
    fn default() -> (r: Self)
        ensures
            r.ip_address@ == "192.168.0.1"@,
            r.port == 502,
    {
        ModbusTcpConfig { ip_address: "192.168.0.1".to_owned(), port: 502 }
    }
}

/// Parameters of a Siemens S7 controller.
#[derive(Clone, Debug)]
pub struct S7Config {
    pub ip: String,
}

impl Default for S7Config {
    fn default() -> (r: Self)
        ensures
            r.ip@ == "127.0.0.1"@,
    {
        S7Config { ip: "127.0.0.1".to_owned() }
    }
}

/// The transport that reaches a field device, with its parameters.
/// `EthernetIp` names a transport that no session is built for yet.
#[derive(Clone, Debug)]
pub enum DeviceConfig {
    ModbusTcp(ModbusTcpConfig),
    ModbusSerial(ModbusSerialConfig),
    EthernetIp,
    S7(S7Config),
}

impl Default for DeviceConfig {
    fn default() -> (r: Self)
        ensures
            r matches DeviceConfig::ModbusSerial(c) && c.port@ == Seq::<char>::empty()
                && c.baudrate == Baudrate::Baud38400 && c.slave == 1 && c.parity
                == Parity::NoneParity,
    {
        DeviceConfig::ModbusSerial(ModbusSerialConfig::default())
    }
}

/// The protocol an operator picks for the device.
#[derive(Clone, Copy, Debug, PartialEq, Eq, Structural)]
pub enum Protocol {
    ModbusTcpProtocol,
    ModbusRtuProtocol,
    EthernetIpProtocol,
    S7Protocol,
    Datascan,
}

impl Protocol {
    /// The name shown for this protocol.
    pub fn label(&self) -> (r: &'static str)
        ensures
            r@ == match *self {
                Protocol::ModbusTcpProtocol => "Modbus TCP"@,
                Protocol::ModbusRtuProtocol => "Modbus Serial"@,
                Protocol::EthernetIpProtocol => "Ethernet/IP"@,
                Protocol::S7Protocol => "Siemens S7"@,
                Protocol::Datascan => "Datascan"@,
            },
    {
        match self {
            Protocol::ModbusTcpProtocol => "Modbus TCP",
            Protocol::ModbusRtuProtocol => "Modbus Serial",
            Protocol::EthernetIpProtocol => "Ethernet/IP",
            Protocol::S7Protocol => "Siemens S7",
            Protocol::Datascan => "Datascan",
        }
    }
}

impl Default for Protocol {
    fn default() -> (r: Self)
        ensures
            r == Protocol::ModbusRtuProtocol,
    {
        Protocol::ModbusRtuProtocol
    }
}

/// The parameters an operator edits for each transport, kept side by side
/// so that switching protocol loses none of them.
#[derive(Clone, Debug)]
pub struct DeviceConfigBuffer {
    pub modbus_serial: ModbusSerialConfig,
    pub modbus_tcp: ModbusTcpConfig,
    pub s7: S7Config,
}

impl Default for DeviceConfigBuffer {
    fn default() -> (r: Self)
        ensures
            r.modbus_serial.port@ == Seq::<char>::empty(),
            r.modbus_serial.baudrate == Baudrate::Baud38400,
            r.modbus_serial.slave == 1,
            r.modbus_serial.parity == Parity::NoneParity,
            r.modbus_tcp.ip_address@ == "192.168.0.1"@,
            r.modbus_tcp.port == 502,
            r.s7.ip@ == "127.0.0.1"@,
    {
        DeviceConfigBuffer {
            modbus_serial: ModbusSerialConfig::default(),
            modbus_tcp: ModbusTcpConfig::default(),
            s7: S7Config::default(),
        }
    }
}

/// The device configuration a protocol selects from the edited parameters;
/// a protocol with no parameters selects none.
pub open spec fn selected_config(p: Protocol, b: DeviceConfigBuffer) -> Option<DeviceConfig> {
    match p {
        Protocol::ModbusTcpProtocol => Some(DeviceConfig::ModbusTcp(b.modbus_tcp)),
        Protocol::ModbusRtuProtocol => Some(DeviceConfig::ModbusSerial(b.modbus_serial)),
        Protocol::EthernetIpProtocol => Some(DeviceConfig::EthernetIp),
        Protocol::S7Protocol => Some(DeviceConfig::S7(b.s7)),
        Protocol::Datascan => None,
    }
}

impl DeviceConfigBuffer {
    /// The device configuration `protocol` selects from these parameters.
    pub fn select(&self, protocol: Protocol) -> (r: Option<DeviceConfig>)
        ensures
            r == selected_config(protocol, *self),
    {
        match protocol {
            Protocol::ModbusTcpProtocol => Some(
                DeviceConfig::ModbusTcp(
                    ModbusTcpConfig {
                        ip_address: self.modbus_tcp.ip_address.clone(),
                        port: self.modbus_tcp.port,
                    },
                ),
            ),
            Protocol::ModbusRtuProtocol => Some(
                DeviceConfig::ModbusSerial(
                    ModbusSerialConfig {
                        port: self.modbus_serial.port.clone(),
                        baudrate: self.modbus_serial.baudrate,
                        slave: self.modbus_serial.slave,
                        parity: self.modbus_serial.parity,
                    },
                ),
            ),
            Protocol::EthernetIpProtocol => Some(DeviceConfig::EthernetIp),
            Protocol::S7Protocol => Some(DeviceConfig::S7(S7Config { ip: self.s7.ip.clone() })),
            Protocol::Datascan => None,
        }
    }
}

} // verus!
