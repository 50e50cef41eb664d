use ch9120::protocol::Command;
use ch9120::session::{
    action_at, classify_ack, command_in_order, AckStatus, Action, Feedback, Pin, StoreSession,
    SCRIPT_LEN,
};
use ch9120::{Ch9120Config, ConfigStoreError};

fn run_clean(session: &mut StoreSession) -> Vec<Action> {
    let mut actions = Vec::new();
    loop {
        let action = session.next(Feedback::Done);
        actions.push(action);
        if let Action::Finish(_) = action {
            return actions;
        }
    }
}

#[test]
fn missing_config_is_refused() {
    assert_eq!(StoreSession::begin(None).err(), Some(ConfigStoreError::MissingConfig));
}

#[test]
fn present_config_starts_a_store() {
    let cfg = Ch9120Config::default();
    let session = StoreSession::begin(Some(&cfg)).ok().unwrap();
    assert_eq!(session.config().local_port, 2000);
    assert!(!session.is_finished());
}

#[test]
fn clean_store_follows_the_procedure() {
    let mut cfg = Ch9120Config::default();
    cfg.transport_baud_rate = 115200;
    let mut session = StoreSession::new(cfg);
    let actions = run_clean(&mut session);
    assert_eq!(actions.len(), SCRIPT_LEN + 1);
    assert_eq!(actions[0], Action::SetBaudrate(9600));
    assert_eq!(actions[1], Action::SetPin { pin: Pin::Cfg, high: false });
    assert_eq!(actions[2], Action::SetPin { pin: Pin::Rst, high: true });
    assert_eq!(actions[3], Action::Delay { ms: 500 });
    let sent: Vec<Command> = actions
        .iter()
        .filter_map(|a| if let Action::Send(c) = a { Some(*c) } else { None })
        .collect();
    let order: Vec<Command> = (0..12).map(command_in_order).collect();
    assert_eq!(sent, order);
    assert_eq!(
        sent,
        vec![
            Command::SetMode,
            Command::SetLocalIp,
            Command::SetSubnetMask,
            Command::SetGateway,
            Command::SetLocalPort,
            Command::SetTargetIp,
            Command::SetTargetPort,
            Command::SetBaudRate,
            Command::SetRxTimeout,
            Command::SaveConfig,
            Command::ApplyConfig,
            Command::ExitConfig,
        ]
    );
    for k in 0..12 {
        let base = 4 + 5 * k;
        assert_eq!(actions[base], Action::Delay { ms: 10 });
        assert_eq!(actions[base + 2], Action::Delay { ms: 10 });
        assert_eq!(actions[base + 3], Action::AwaitAck { timeout_ms: 2000 });
        assert_eq!(actions[base + 4], Action::Delay { ms: 200 });
    }
    assert_eq!(actions[64], Action::SetPin { pin: Pin::Cfg, high: true });
    assert_eq!(actions[65], Action::SetBaudrate(115200));
    assert_eq!(actions[66], Action::Finish(Ok(())));
    assert!(session.is_finished());
    assert_eq!(session.next(Feedback::Done), Action::Finish(Ok(())));
    for i in 0..SCRIPT_LEN {
        assert_eq!(action_at(&cfg, i), actions[i]);
    }
}

#[test]
fn pin_failure_aborts_the_store() {
    let mut session = StoreSession::new(Ch9120Config::default());
    assert_eq!(session.next(Feedback::Done), Action::SetBaudrate(9600));
    assert_eq!(session.next(Feedback::Done), Action::SetPin { pin: Pin::Cfg, high: false });
    assert_eq!(
        session.next(Feedback::PinFailed),
        Action::Finish(Err(ConfigStoreError::PinAssert))
    );
    assert!(session.is_finished());
    assert_eq!(session.next(Feedback::Done), Action::Finish(Err(ConfigStoreError::PinAssert)));
}

#[test]
fn pin_failure_when_leaving_config_mode() {
    let mut session = StoreSession::new(Ch9120Config::default());
    let mut last = session.next(Feedback::Done);
    for _ in 0..64 {
        last = session.next(Feedback::Done);
    }
    assert_eq!(last, Action::SetPin { pin: Pin::Cfg, high: true });
    assert_eq!(
        session.next(Feedback::PinFailed),
        Action::Finish(Err(ConfigStoreError::PinAssert))
    );
}

#[test]
fn acknowledgements() {
    assert_eq!(classify_ack(Some(0xaa)), AckStatus::Accepted);
    assert_eq!(classify_ack(Some(0x00)), AckStatus::Rejected(0x00));
    assert_eq!(classify_ack(Some(0xab)), AckStatus::Rejected(0xab));
    assert_eq!(classify_ack(None), AckStatus::TimedOut);
}
