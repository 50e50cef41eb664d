use vstd::prelude::*;

use crate::config::{mode_code, Ch9120Config, Mode};

verus! {

/// First byte of every command frame.
pub const FRAME_PREFIX_0: u8 = 0x57;

/// Second byte of every command frame.
pub const FRAME_PREFIX_1: u8 = 0xAB;

/// Length of the transmit buffer that holds one frame.
pub const MAX_FRAME_LEN: usize = 8;

/// The longest payload that fits behind the prefix and the command byte.
pub const MAX_PAYLOAD_LEN: usize = 5;

/// The byte with which the chip acknowledges a command.
pub const ACK_BYTE: u8 = 0xAA;

/// The configuration commands of the chip.
#[derive(Debug, Clone, Copy, PartialEq, Eq, Structural)]
pub enum Command {
    SetMode,
    SetLocalIp,
    SetSubnetMask,
    SetGateway,
    SetLocalPort,
    SetTargetIp,
    SetTargetPort,
    SetBaudRate,
    SetRxTimeout,
    /// Write the parameters to the chip's EEPROM.
    SaveConfig,
    /// Apply the parameters and restart the network module.
    ApplyConfig,
    /// Leave configuration mode.
    ExitConfig,
}

/// The command byte of each command.
pub open spec fn command_code(command: Command) -> u8 {
    match command {
        Command::SetMode => 0x10,
        Command::SetLocalIp => 0x11,
        Command::SetSubnetMask => 0x12,
        Command::SetGateway => 0x13,
        Command::SetLocalPort => 0x14,
        Command::SetTargetIp => 0x15,
        Command::SetTargetPort => 0x16,
        Command::SetBaudRate => 0x21,
        Command::SetRxTimeout => 0x23,
        Command::SaveConfig => 0x0d,
        Command::ApplyConfig => 0x0e,
        Command::ExitConfig => 0x5e,
    }
}

impl Command {
    /// The command byte that the chip expects.
    pub fn code(self) -> (code: u8)
        ensures
            code == command_code(self),
    {
        match self {
            Command::SetMode => 0x10,
            Command::SetLocalIp => 0x11,
            Command::SetSubnetMask => 0x12,
            Command::SetGateway => 0x13,
            Command::SetLocalPort => 0x14,
            Command::SetTargetIp => 0x15,
            Command::SetTargetPort => 0x16,
            Command::SetBaudRate => 0x21,
            Command::SetRxTimeout => 0x23,
            Command::SaveConfig => 0x0d,
            Command::ApplyConfig => 0x0e,
            Command::ExitConfig => 0x5e,
        }
    }
}

/// A frame on the wire: the two prefix bytes, the command byte, the payload.
pub open spec fn frame(command: u8, payload: Seq<u8>) -> Seq<u8> {
    seq![FRAME_PREFIX_0, FRAME_PREFIX_1, command] + payload
}

/// A 16-bit value, least significant byte first.
pub open spec fn u16_le(value: u16) -> Seq<u8> {
    seq![(value % 256) as u8, (value / 256) as u8]
}

/// A 32-bit value, least significant byte first.
pub open spec fn u32_le(value: u32) -> Seq<u8> {
    seq![
        (value % 256) as u8,
        (value / 256 % 256) as u8,
        (value / 65536 % 256) as u8,
        (value / 16777216) as u8,
    ]
}

/// The number that a little-endian byte string denotes.
pub open spec fn le_value(bytes: Seq<u8>) -> nat
    decreases bytes.len(),
{
    if bytes.len() == 0 {
        0
    } else {
        bytes[0] as nat + 256 * le_value(bytes.drop_first())
    }
}

/// What follows the command byte, for each command, under a configuration.
pub open spec fn payload(cfg: Ch9120Config, command: Command) -> Seq<u8> {
    match command {
        Command::SetMode => seq![mode_code(cfg.mode)],
        Command::SetLocalIp => cfg.local_ip@,
        Command::SetSubnetMask => cfg.subnet_mask@,
        Command::SetGateway => cfg.gateway@,
        Command::SetLocalPort => u16_le(cfg.local_port),
        Command::SetTargetIp => cfg.target_ip@,
        Command::SetTargetPort => u16_le(cfg.target_port),
        Command::SetBaudRate => u32_le(cfg.transport_baud_rate),
        Command::SetRxTimeout => u32_le(cfg.rx_timeout),
        Command::SaveConfig => seq![],
        Command::ApplyConfig => seq![],
        Command::ExitConfig => seq![],
    }
}

/// The two bytes of a port number, least significant first.
pub fn port_bytes(port: u16) -> (bytes: [u8; 2])
    ensures
        bytes@ == u16_le(port),
{
    let lo = (port & 0xff) as u8;
    let hi = (port >> 8) as u8;
    proof {
        assert(((port & 0xff) as u8) == port % 256) by (bit_vector);
        assert(((port >> 8) as u8) == port / 256) by (bit_vector);
    }
    let bytes = [lo, hi];
    assert(bytes@ =~= u16_le(port));
    bytes
}

/// The four bytes of a 32-bit value, least significant first.
pub fn word_bytes(value: u32) -> (bytes: [u8; 4])
    ensures
        bytes@ == u32_le(value),
{
    let b0 = (value & 0xff) as u8;
    let b1 = ((value >> 8) & 0xff) as u8;
    let b2 = ((value >> 16) & 0xff) as u8;
    let b3 = (value >> 24) as u8;
    proof {
        assert(((value & 0xff) as u8) == value % 256) by (bit_vector);
        assert((((value >> 8) & 0xff) as u8) == value / 256 % 256) by (bit_vector);
        assert((((value >> 16) & 0xff) as u8) == value / 65536 % 256) by (bit_vector);
        assert(((value >> 24) as u8) == value / 16777216) by (bit_vector);
    }
    let bytes = [b0, b1, b2, b3];
    assert(bytes@ =~= u32_le(value));
    bytes
}

/// Builds the frame that carries `command` with `data`: the prefix, the
/// command byte and the data, in a buffer of at most eight bytes.
pub fn encode_frame(command: u8, data: &[u8]) -> (bytes: Vec<u8>)
    requires
        data@.len() <= MAX_PAYLOAD_LEN,
    ensures
        bytes@ == frame(command, data@),
        bytes@.len() <= MAX_FRAME_LEN,
{
    let mut bytes: Vec<u8> = Vec::new();
    bytes.push(FRAME_PREFIX_0);
    bytes.push(FRAME_PREFIX_1);
    bytes.push(command);
    let n: usize = data.len();
    for i in 0..n
        invariant
            n == data@.len(),
            bytes@ =~= seq![FRAME_PREFIX_0, FRAME_PREFIX_1, command] + data@.take(i as int),
    {
        bytes.push(data[i]);
        assert(data@.take(i + 1) =~= data@.take(i as int).push(data@[i as int]));
    }
    assert(data@.take(n as int) =~= data@);
    bytes
}

/// The frame that selects the network mode whose byte is `mode`.
pub fn set_mode_frame(mode: u8) -> (bytes: Vec<u8>)
    ensures
        bytes@ == frame(command_code(Command::SetMode), seq![mode]),
{
    let data = [mode];
    assert(data@ =~= seq![mode]);
    encode_frame(Command::SetMode.code(), data.as_slice())
}

/// The frame that sets the chip's own address.
pub fn set_local_ip_frame(ip: &[u8]) -> (bytes: Vec<u8>)
    requires
        ip@.len() <= MAX_PAYLOAD_LEN,
    ensures
        bytes@ == frame(command_code(Command::SetLocalIp), ip@),
{
    encode_frame(Command::SetLocalIp.code(), ip)
}

/// The frame that sets the subnet mask.
pub fn set_subnet_mask_frame(mask: &[u8]) -> (bytes: Vec<u8>)
    requires
        mask@.len() <= MAX_PAYLOAD_LEN,
    ensures
        bytes@ == frame(command_code(Command::SetSubnetMask), mask@),
{
    encode_frame(Command::SetSubnetMask.code(), mask)
}

/// The frame that sets the gateway address.
pub fn set_gateway_frame(gateway: &[u8]) -> (bytes: Vec<u8>)
    requires
        gateway@.len() <= MAX_PAYLOAD_LEN,
    ensures
        bytes@ == frame(command_code(Command::SetGateway), gateway@),
{
    encode_frame(Command::SetGateway.code(), gateway)
}

/// The frame that sets the chip's own port.
pub fn set_local_port_frame(port: u16) -> (bytes: Vec<u8>)
    ensures
        bytes@ == frame(command_code(Command::SetLocalPort), u16_le(port)),
{
    let data = port_bytes(port);
    encode_frame(Command::SetLocalPort.code(), data.as_slice())
}

/// The frame that sets the address of the remote peer.
pub fn set_target_ip_frame(ip: &[u8]) -> (bytes: Vec<u8>)
    requires
        ip@.len() <= MAX_PAYLOAD_LEN,
    ensures
        bytes@ == frame(command_code(Command::SetTargetIp), ip@),
{
    encode_frame(Command::SetTargetIp.code(), ip)
}

/// The frame that sets the port of the remote peer.
pub fn set_target_port_frame(port: u16) -> (bytes: Vec<u8>)
    ensures
        bytes@ == frame(command_code(Command::SetTargetPort), u16_le(port)),
{
    let data = port_bytes(port);
    encode_frame(Command::SetTargetPort.code(), data.as_slice())
}

/// The frame that sets the serial speed used once configuration ends.
pub fn set_baud_rate_frame(baud: u32) -> (bytes: Vec<u8>)
    ensures
        bytes@ == frame(command_code(Command::SetBaudRate), u32_le(baud)),
{
    let data = word_bytes(baud);
    encode_frame(Command::SetBaudRate.code(), data.as_slice())
}

/// The frame that sets the serial receive timeout.
pub fn set_rx_timeout_frame(timeout: u32) -> (bytes: Vec<u8>)
    ensures
        bytes@ == frame(command_code(Command::SetRxTimeout), u32_le(timeout)),
{
    let data = word_bytes(timeout);
    encode_frame(Command::SetRxTimeout.code(), data.as_slice())
}

/// The frame of `command` for the configuration `cfg`.
pub fn command_frame(cfg: &Ch9120Config, command: Command) -> (bytes: Vec<u8>)
    ensures
        bytes@ == frame(command_code(command), payload(*cfg, command)),
        bytes@.len() <= MAX_FRAME_LEN,
{
    match command {
        Command::SetMode => set_mode_frame(cfg.mode.code()),
        Command::SetLocalIp => set_local_ip_frame(cfg.local_ip.as_slice()),
        Command::SetSubnetMask => set_subnet_mask_frame(cfg.subnet_mask.as_slice()),
        Command::SetGateway => set_gateway_frame(cfg.gateway.as_slice()),
        Command::SetLocalPort => set_local_port_frame(cfg.local_port),
        Command::SetTargetIp => set_target_ip_frame(cfg.target_ip.as_slice()),
        Command::SetTargetPort => set_target_port_frame(cfg.target_port),
        Command::SetBaudRate => set_baud_rate_frame(cfg.transport_baud_rate),
        Command::SetRxTimeout => set_rx_timeout_frame(cfg.rx_timeout),
        Command::SaveConfig | Command::ApplyConfig | Command::ExitConfig => {
            let none: [u8; 0] = [];
            assert(none@ =~= Seq::<u8>::empty());
            encode_frame(command.code(), none.as_slice())
        },
    }
}

/// Reading a port back from its two bytes gives the port.
pub proof fn lemma_u16_le_roundtrip(value: u16)
    ensures
        le_value(u16_le(value)) == value,
        u16_le(value).len() == 2,
{
    let s = u16_le(value);
    assert(s.drop_first().drop_first() =~= Seq::<u8>::empty());
    assert(le_value(s.drop_first().drop_first()) == 0);
    assert(le_value(s.drop_first()) == (value / 256) as nat);
}

/// Reading a 32-bit value back from its four bytes gives the value.
pub proof fn lemma_u32_le_roundtrip(value: u32)
    ensures
        le_value(u32_le(value)) == value,
        u32_le(value).len() == 4,
{
    let s = u32_le(value);
    let s1 = s.drop_first();
    let s2 = s1.drop_first();
    let s3 = s2.drop_first();
    assert(s3.drop_first() =~= Seq::<u8>::empty());
    assert(le_value(s3.drop_first()) == 0);
    let v = value as int;
    assert(le_value(s3) == v / 16777216);
    assert(le_value(s2) == v / 65536 % 256 + 256 * (v / 16777216));
    assert(le_value(s1) == v / 256 % 256 + 256 * (v / 65536 % 256 + 256 * (v / 16777216)));
    assert(v == v % 256 + 256 * (v / 256 % 256 + 256 * (v / 65536 % 256 + 256 * (v
        / 16777216)))) by (nonlinear_arith)
        requires
            0 <= v < 0x1_0000_0000,
    ;
}

/// Distinct modes are sent as distinct bytes.
pub proof fn lemma_mode_code_injective(a: Mode, b: Mode)
    ensures
        mode_code(a) == mode_code(b) <==> a == b,
{
}

/// Distinct commands are sent with distinct command bytes.
pub proof fn lemma_command_code_injective(a: Command, b: Command)
    ensures
        command_code(a) == command_code(b) <==> a == b,
{
}

/// Every payload fits in a frame.
pub proof fn lemma_payload_fits(cfg: Ch9120Config, command: Command)
    ensures
        payload(cfg, command).len() <= 4,
{
}

/// The payloads that are written determine the configuration: two
/// configurations that are written as the same bytes are the same.
pub proof fn lemma_payloads_determine_config(a: Ch9120Config, b: Ch9120Config)
    requires
        forall|c: Command| #[trigger] payload(a, c) == payload(b, c),
    ensures
        a.mode == b.mode,
        a.local_ip == b.local_ip,
        a.gateway == b.gateway,
        a.subnet_mask == b.subnet_mask,
        a.local_port == b.local_port,
        a.target_ip == b.target_ip,
        a.target_port == b.target_port,
        a.transport_baud_rate == b.transport_baud_rate,
        a.rx_timeout == b.rx_timeout,
{
    assert(payload(a, Command::SetMode) == payload(b, Command::SetMode));
    assert(payload(a, Command::SetMode)[0] == mode_code(a.mode));
    lemma_mode_code_injective(a.mode, b.mode);
    assert(payload(a, Command::SetLocalIp) == payload(b, Command::SetLocalIp));
    assert(payload(a, Command::SetGateway) == payload(b, Command::SetGateway));
    assert(payload(a, Command::SetSubnetMask) == payload(b, Command::SetSubnetMask));
    assert(payload(a, Command::SetTargetIp) == payload(b, Command::SetTargetIp));
    assert(payload(a, Command::SetLocalPort) == payload(b, Command::SetLocalPort));
    assert(payload(a, Command::SetTargetPort) == payload(b, Command::SetTargetPort));
    assert(payload(a, Command::SetBaudRate) == payload(b, Command::SetBaudRate));
    assert(payload(a, Command::SetRxTimeout) == payload(b, Command::SetRxTimeout));
    lemma_u16_le_roundtrip(a.local_port);
    lemma_u16_le_roundtrip(b.local_port);
    lemma_u16_le_roundtrip(a.target_port);
    lemma_u16_le_roundtrip(b.target_port);
    lemma_u32_le_roundtrip(a.transport_baud_rate);
    lemma_u32_le_roundtrip(b.transport_baud_rate);
    lemma_u32_le_roundtrip(a.rx_timeout);
    lemma_u32_le_roundtrip(b.rx_timeout);
    broadcast use vstd::array::axiom_array_ext_equal;
}

/// A frame is the two prefix bytes 0x57 0xAB, the command byte, and the
/// payload copied unchanged, nothing more.
pub proof fn lemma_frame_layout(command: u8, data: Seq<u8>)
    ensures
        frame(command, data).len() == 3 + data.len(),
        frame(command, data)[0] == 0x57u8,
        frame(command, data)[1] == 0xABu8,
        frame(command, data)[2] == command,
        forall|i: int| 0 <= i < data.len() ==> #[trigger] frame(command, data)[3 + i] == data[i],
{
}

/// The command bytes of the chip's datasheet.
pub proof fn lemma_command_codes()
    ensures
        command_code(Command::SetMode) == 0x10u8,
        command_code(Command::SetLocalIp) == 0x11u8,
        command_code(Command::SetSubnetMask) == 0x12u8,
        command_code(Command::SetGateway) == 0x13u8,
        command_code(Command::SetLocalPort) == 0x14u8,
        command_code(Command::SetTargetIp) == 0x15u8,
        command_code(Command::SetTargetPort) == 0x16u8,
        command_code(Command::SetBaudRate) == 0x21u8,
        command_code(Command::SetRxTimeout) == 0x23u8,
        command_code(Command::SaveConfig) == 0x0du8,
        command_code(Command::ApplyConfig) == 0x0eu8,
        command_code(Command::ExitConfig) == 0x5eu8,
{
}

/// The mode bytes: TCP server 0, TCP client 1, UDP server 2, UDP client 3.
pub proof fn lemma_mode_codes()
    ensures
        mode_code(Mode::TcpServer) == 0u8,
        mode_code(Mode::TcpClient) == 1u8,
        mode_code(Mode::UdpServer) == 2u8,
        mode_code(Mode::UdpClient) == 3u8,
{
}

/// Each command carries its own field of the configuration: the mode byte,
/// the four octets of each address as they stand, each port as its low then
/// its high byte, each 32-bit value from its lowest byte up; the last three
/// commands carry nothing.
pub proof fn lemma_payload_fields(cfg: Ch9120Config)
    ensures
        payload(cfg, Command::SetMode) == seq![mode_code(cfg.mode)],
        payload(cfg, Command::SetLocalIp) == cfg.local_ip@,
        payload(cfg, Command::SetSubnetMask) == cfg.subnet_mask@,
        payload(cfg, Command::SetGateway) == cfg.gateway@,
        payload(cfg, Command::SetTargetIp) == cfg.target_ip@,
        payload(cfg, Command::SetLocalPort) == seq![
            (cfg.local_port % 256) as u8,
            (cfg.local_port / 256) as u8,
        ],
        payload(cfg, Command::SetTargetPort) == seq![
            (cfg.target_port % 256) as u8,
            (cfg.target_port / 256) as u8,
        ],
        payload(cfg, Command::SetBaudRate) == seq![
            (cfg.transport_baud_rate % 256) as u8,
            (cfg.transport_baud_rate / 256 % 256) as u8,
            (cfg.transport_baud_rate / 65536 % 256) as u8,
            (cfg.transport_baud_rate / 16777216) as u8,
        ],
        payload(cfg, Command::SetRxTimeout) == seq![
            (cfg.rx_timeout % 256) as u8,
            (cfg.rx_timeout / 256 % 256) as u8,
            (cfg.rx_timeout / 65536 % 256) as u8,
            (cfg.rx_timeout / 16777216) as u8,
        ],
        payload(cfg, Command::SaveConfig).len() == 0,
        payload(cfg, Command::ApplyConfig).len() == 0,
        payload(cfg, Command::ExitConfig).len() == 0,
{
}

/// The frame that selects a mode carries that mode's byte.
pub proof fn lemma_mode_frame(mode: Mode)
    ensures
        frame(command_code(Command::SetMode), seq![mode_code(mode)]) == seq![
            0x57u8,
            0xABu8,
            0x10u8,
            mode_code(mode),
        ],
        frame(command_code(Command::SetMode), seq![mode_code(mode)])[3] == match mode {
            Mode::TcpServer => 0u8,
            Mode::TcpClient => 1u8,
            Mode::UdpServer => 2u8,
            Mode::UdpClient => 3u8,
        },
{
    assert(frame(command_code(Command::SetMode), seq![mode_code(mode)]) =~= seq![
        0x57u8,
        0xABu8,
        0x10u8,
        mode_code(mode),
    ]);
}

} // verus!
