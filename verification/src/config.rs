use vstd::prelude::*;

verus! {

/// Network mode of the CH9120 port.
#[derive(Debug, Clone, Copy, PartialEq, Eq, Structural)]
pub enum Mode {
    TcpServer,
    TcpClient,
    UdpServer,
    UdpClient,
}

/// The byte by which the chip identifies each mode.
pub open spec fn mode_code(mode: Mode) -> u8 {
    match mode {
        Mode::TcpServer => 0,
        Mode::TcpClient => 1,
        Mode::UdpServer => 2,
        Mode::UdpClient => 3,
    }
}

impl Mode {
    /// The byte that the chip expects for this mode.
    pub fn code(self) -> (code: u8)
        ensures
            code == mode_code(self),
    {
        match self {
            Mode::TcpServer => 0,
            Mode::TcpClient => 1,
            Mode::UdpServer => 2,
            Mode::UdpClient => 3,
        }
    }
}

impl Default for Mode {
    fn default() -> (mode: Self)
        ensures
            mode == Mode::TcpServer,
    {
        Mode::TcpServer
    }
}

/// Everything that is written to the chip when a configuration is stored.
/// Addresses are kept as their four octets, most significant first.
#[derive(Debug, Clone, Copy)]
pub struct Ch9120Config {
    pub mode: Mode,
    pub local_ip: [u8; 4],
    pub gateway: [u8; 4],
    pub subnet_mask: [u8; 4],
    pub local_port: u16,
    pub target_ip: [u8; 4],
    pub target_port: u16,
    pub transport_baud_rate: u32,
    pub rx_timeout: u32,
}

impl Default for Ch9120Config {
    /// A TCP client at 192.168.1.200:2000 that talks to 192.168.1.100:1000
    /// through gateway 192.168.1.1 on a /24 network, at 9600 baud, with no
    /// receive timeout.
    fn default() -> (cfg: Self)
        ensures
            cfg.mode == Mode::TcpClient,
            cfg.local_ip@ == seq![192u8, 168u8, 1u8, 200u8],
            cfg.gateway@ == seq![192u8, 168u8, 1u8, 1u8],
            cfg.subnet_mask@ == seq![255u8, 255u8, 255u8, 0u8],
            cfg.local_port == 2000,
            cfg.target_ip@ == seq![192u8, 168u8, 1u8, 100u8],
            cfg.target_port == 1000,
            cfg.transport_baud_rate == 9600,
            cfg.rx_timeout == 0,
    {
        Ch9120Config {
            mode: Mode::TcpClient,
            local_ip: [192, 168, 1, 200],
            gateway: [192, 168, 1, 1],
            subnet_mask: [255, 255, 255, 0],
            local_port: 2000,
            target_ip: [192, 168, 1, 100],
            target_port: 1000,
            transport_baud_rate: 9600,
            rx_timeout: 0,
        }
    }
}

/// Why storing a configuration did not complete.
#[derive(Debug, Clone, Copy, PartialEq, Eq, Structural)]
pub enum ConfigStoreError {
    /// Driving the CFG or RST pin failed.
    PinAssert,
    /// The driver holds no configuration to store.
    MissingConfig,
}

impl ConfigStoreError {
    /// A human-readable description of the error.
    pub fn message(&self) -> (text: &'static str)
        ensures
            *self == ConfigStoreError::PinAssert ==> text@ == "Could not set cfg or rst pin"@,
            *self == ConfigStoreError::MissingConfig ==> text@ == "Missing config for CH9120"@,
    {
        match self {
            ConfigStoreError::PinAssert => "Could not set cfg or rst pin",
            ConfigStoreError::MissingConfig => "Missing config for CH9120",
        }
    }
}

/// A UART whose line speed can be changed at run time.
pub trait Baudrate {
    fn set_baudrate(&mut self, value: u32);
}

} // verus!
