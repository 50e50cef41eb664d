use ch9120::{Ch9120Config, ConfigStoreError, Mode};

#[test]
fn default_config_is_tcp_client_on_local_network() {
    let cfg = Ch9120Config::default();
    assert_eq!(cfg.mode, Mode::TcpClient);
    assert_eq!(cfg.local_ip, [192, 168, 1, 200]);
    assert_eq!(cfg.gateway, [192, 168, 1, 1]);
    assert_eq!(cfg.subnet_mask, [255, 255, 255, 0]);
    assert_eq!(cfg.local_port, 2000);
    assert_eq!(cfg.target_ip, [192, 168, 1, 100]);
    assert_eq!(cfg.target_port, 1000);
    assert_eq!(cfg.transport_baud_rate, 9600);
    assert_eq!(cfg.rx_timeout, 0);
}

#[test]
fn default_mode_is_tcp_server() {
    assert_eq!(Mode::default(), Mode::TcpServer);
}

#[test]
fn mode_codes_follow_datasheet() {
    assert_eq!(Mode::TcpServer.code(), 0);
    assert_eq!(Mode::TcpClient.code(), 1);
    assert_eq!(Mode::UdpServer.code(), 2);
    assert_eq!(Mode::UdpClient.code(), 3);
}

#[test]
fn error_messages() {
    assert_eq!(ConfigStoreError::PinAssert.message(), "Could not set cfg or rst pin");
    assert_eq!(ConfigStoreError::MissingConfig.message(), "Missing config for CH9120");
}
