use ch9120::protocol::{
    command_frame, encode_frame, port_bytes, set_baud_rate_frame, set_gateway_frame,
    set_local_ip_frame, set_local_port_frame, set_mode_frame, set_rx_timeout_frame,
    set_subnet_mask_frame, set_target_ip_frame, set_target_port_frame, word_bytes, Command,
};
use ch9120::{Ch9120Config, Mode};

#[test]
fn port_is_little_endian() {
    assert_eq!(port_bytes(0x1234), [0x34, 0x12]);
    assert_eq!(port_bytes(2000), [0xd0, 0x07]);
    assert_eq!(port_bytes(0), [0, 0]);
    assert_eq!(port_bytes(0xffff), [0xff, 0xff]);
}

#[test]
fn word_is_little_endian() {
    assert_eq!(word_bytes(0x1234_5678), [0x78, 0x56, 0x34, 0x12]);
    assert_eq!(word_bytes(9600), [0x80, 0x25, 0, 0]);
    assert_eq!(word_bytes(115200), [0x00, 0xc2, 0x01, 0x00]);
    assert_eq!(word_bytes(u32::MAX), [0xff, 0xff, 0xff, 0xff]);
}

#[test]
fn frame_is_prefix_command_payload() {
    assert_eq!(encode_frame(0x11, &[1, 2, 3, 4]), vec![0x57, 0xab, 0x11, 1, 2, 3, 4]);
    assert_eq!(encode_frame(0x0d, &[]), vec![0x57, 0xab, 0x0d]);
    assert_eq!(encode_frame(0x20, &[9, 8, 7, 6, 5]).len(), 8);
}

#[test]
fn setting_frames() {
    assert_eq!(set_mode_frame(1), vec![0x57, 0xab, 0x10, 1]);
    assert_eq!(set_local_ip_frame(&[192, 168, 50, 40]), vec![0x57, 0xab, 0x11, 192, 168, 50, 40]);
    assert_eq!(set_subnet_mask_frame(&[255, 255, 255, 0]), vec![0x57, 0xab, 0x12, 255, 255, 255, 0]);
    assert_eq!(set_gateway_frame(&[192, 168, 50, 1]), vec![0x57, 0xab, 0x13, 192, 168, 50, 1]);
    assert_eq!(set_local_port_frame(1000), vec![0x57, 0xab, 0x14, 0xe8, 0x03]);
    assert_eq!(set_target_ip_frame(&[192, 168, 50, 128]), vec![0x57, 0xab, 0x15, 192, 168, 50, 128]);
    assert_eq!(set_target_port_frame(2000), vec![0x57, 0xab, 0x16, 0xd0, 0x07]);
    assert_eq!(set_baud_rate_frame(9600), vec![0x57, 0xab, 0x21, 0x80, 0x25, 0, 0]);
    assert_eq!(set_rx_timeout_frame(0x0102_0304), vec![0x57, 0xab, 0x23, 4, 3, 2, 1]);
}

#[test]
fn command_codes() {
    let expected = [
        (Command::SetMode, 0x10),
        (Command::SetLocalIp, 0x11),
        (Command::SetSubnetMask, 0x12),
        (Command::SetGateway, 0x13),
        (Command::SetLocalPort, 0x14),
        (Command::SetTargetIp, 0x15),
        (Command::SetTargetPort, 0x16),
        (Command::SetBaudRate, 0x21),
        (Command::SetRxTimeout, 0x23),
        (Command::SaveConfig, 0x0d),
        (Command::ApplyConfig, 0x0e),
        (Command::ExitConfig, 0x5e),
    ];
    for (command, code) in expected {
        assert_eq!(command.code(), code);
    }
}

#[test]
fn frames_of_default_config() {
    let cfg = Ch9120Config::default();
    assert_eq!(command_frame(&cfg, Command::SetMode), vec![0x57, 0xab, 0x10, 1]);
    assert_eq!(command_frame(&cfg, Command::SetLocalIp), vec![0x57, 0xab, 0x11, 192, 168, 1, 200]);
    assert_eq!(command_frame(&cfg, Command::SetSubnetMask), vec![0x57, 0xab, 0x12, 255, 255, 255, 0]);
    assert_eq!(command_frame(&cfg, Command::SetGateway), vec![0x57, 0xab, 0x13, 192, 168, 1, 1]);
    assert_eq!(command_frame(&cfg, Command::SetLocalPort), vec![0x57, 0xab, 0x14, 0xd0, 0x07]);
    assert_eq!(command_frame(&cfg, Command::SetTargetIp), vec![0x57, 0xab, 0x15, 192, 168, 1, 100]);
    assert_eq!(command_frame(&cfg, Command::SetTargetPort), vec![0x57, 0xab, 0x16, 0xe8, 0x03]);
    assert_eq!(command_frame(&cfg, Command::SetBaudRate), vec![0x57, 0xab, 0x21, 0x80, 0x25, 0, 0]);
    assert_eq!(command_frame(&cfg, Command::SetRxTimeout), vec![0x57, 0xab, 0x23, 0, 0, 0, 0]);
    assert_eq!(command_frame(&cfg, Command::SaveConfig), vec![0x57, 0xab, 0x0d]);
    assert_eq!(command_frame(&cfg, Command::ApplyConfig), vec![0x57, 0xab, 0x0e]);
    assert_eq!(command_frame(&cfg, Command::ExitConfig), vec![0x57, 0xab, 0x5e]);
}

#[test]
fn frames_of_udp_config() {
    let mut cfg = Ch9120Config::default();
    cfg.mode = Mode::UdpClient;
    cfg.transport_baud_rate = 115200;
    cfg.local_port = 0xabcd;
    assert_eq!(command_frame(&cfg, Command::SetMode), vec![0x57, 0xab, 0x10, 3]);
    assert_eq!(command_frame(&cfg, Command::SetBaudRate), vec![0x57, 0xab, 0x21, 0x00, 0xc2, 0x01, 0x00]);
    assert_eq!(command_frame(&cfg, Command::SetLocalPort), vec![0x57, 0xab, 0x14, 0xcd, 0xab]);
}

/// Reading the written bytes back gives the configuration again.
#[test]
fn written_ports_and_rates_read_back() {
    let cfg = Ch9120Config {
        mode: Mode::UdpServer,
        local_ip: [10, 0, 0, 2],
        gateway: [10, 0, 0, 1],
        subnet_mask: [255, 0, 0, 0],
        local_port: 40000,
        target_ip: [10, 0, 0, 3],
        target_port: 12345,
        transport_baud_rate: 921600,
        rx_timeout: 70000,
    };
    let port = command_frame(&cfg, Command::SetLocalPort);
    assert_eq!(u16::from_le_bytes([port[3], port[4]]), 40000);
    let port = command_frame(&cfg, Command::SetTargetPort);
    assert_eq!(u16::from_le_bytes([port[3], port[4]]), 12345);
    let baud = command_frame(&cfg, Command::SetBaudRate);
    assert_eq!(u32::from_le_bytes([baud[3], baud[4], baud[5], baud[6]]), 921600);
    let timeout = command_frame(&cfg, Command::SetRxTimeout);
    assert_eq!(u32::from_le_bytes([timeout[3], timeout[4], timeout[5], timeout[6]]), 70000);
    assert_eq!(&command_frame(&cfg, Command::SetLocalIp)[3..], &cfg.local_ip);
    assert_eq!(&command_frame(&cfg, Command::SetTargetIp)[3..], &cfg.target_ip);
}
