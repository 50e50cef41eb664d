use vstd::prelude::*;

use crate::config::{Ch9120Config, ConfigStoreError};
use crate::protocol::{Command, ACK_BYTE};

verus! {

/// Serial speed at which the chip accepts configuration commands.
pub const CONFIG_BAUD_RATE: u32 = 9600;

/// Time the chip needs after entering configuration mode.
pub const STARTUP_DELAY_MS: u32 = 500;

/// Quiet time on the line before and after each frame.
pub const FRAME_GUARD_MS: u32 = 10;

/// Time the chip needs to process a command.
pub const COMMAND_SETTLE_MS: u32 = 200;

/// How long to wait for the acknowledgement of a command.
pub const ACK_TIMEOUT_MS: u32 = 2000;

/// Number of commands written when a configuration is stored.
pub const COMMAND_COUNT: usize = 12;

/// Number of actions that each command takes.
pub const STEPS_PER_COMMAND: usize = 5;

/// Number of actions before the first command.
pub const PREAMBLE_LEN: usize = 4;

/// Number of actions of a complete store, the final report excluded.
pub const SCRIPT_LEN: usize = 66;

/// The control lines of the chip.
#[derive(Debug, Clone, Copy, PartialEq, Eq, Structural)]
pub enum Pin {
    /// Low selects configuration mode, high normal operation.
    Cfg,
    /// Low holds the chip in reset.
    Rst,
}

/// One piece of outside work that the caller performs for the session.
#[derive(Debug, Clone, Copy, PartialEq, Eq)]
pub enum Action {
    /// Switch the host UART to this speed.
    SetBaudrate(u32),
    /// Drive a control line high or low.
    SetPin { pin: Pin, high: bool },
    /// Wait this many milliseconds.
    Delay { ms: u32 },
    /// Write the frame of this command (see `protocol::command_frame`).
    Send(Command),
    /// Read one byte, giving up after this many milliseconds.
    AwaitAck { timeout_ms: u32 },
    /// The session is over, with this outcome.
    Finish(Result<(), ConfigStoreError>),
}

/// What the caller reports back about the action it last performed.
#[derive(Debug, Clone, Copy, PartialEq, Eq, Structural)]
pub enum Feedback {
    /// The action was carried out (or there was none yet).
    Done,
    /// Driving a control line failed.
    PinFailed,
}

/// The commands in the order in which they are written.
pub open spec fn command_at(k: int) -> Command {
    if k == 0 {
        Command::SetMode
    } else if k == 1 {
        Command::SetLocalIp
    } else if k == 2 {
        Command::SetSubnetMask
    } else if k == 3 {
        Command::SetGateway
    } else if k == 4 {
        Command::SetLocalPort
    } else if k == 5 {
        Command::SetTargetIp
    } else if k == 6 {
        Command::SetTargetPort
    } else if k == 7 {
        Command::SetBaudRate
    } else if k == 8 {
        Command::SetRxTimeout
    } else if k == 9 {
        Command::SaveConfig
    } else if k == 10 {
        Command::ApplyConfig
    } else {
        Command::ExitConfig
    }
}

/// The actions that surround the command at one position: a guard delay,
/// the frame, a guard delay, the acknowledgement, the settle delay.
pub open spec fn command_step(k: int, j: int) -> Action {
    if j == 0 {
        Action::Delay { ms: FRAME_GUARD_MS }
    } else if j == 1 {
        Action::Send(command_at(k))
    } else if j == 2 {
        Action::Delay { ms: FRAME_GUARD_MS }
    } else if j == 3 {
        Action::AwaitAck { timeout_ms: ACK_TIMEOUT_MS }
    } else {
        Action::Delay { ms: COMMAND_SETTLE_MS }
    }
}

/// The `i`-th action of storing `cfg`: switch to the configuration speed,
/// enter configuration mode (CFG low, RST high), wait for the chip, write
/// each command, leave configuration mode (CFG high), switch to the speed
/// just configured.
pub open spec fn script_action(cfg: Ch9120Config, i: int) -> Action {
    if i == 0 {
        Action::SetBaudrate(CONFIG_BAUD_RATE)
    } else if i == 1 {
        Action::SetPin { pin: Pin::Cfg, high: false }
    } else if i == 2 {
        Action::SetPin { pin: Pin::Rst, high: true }
    } else if i == 3 {
        Action::Delay { ms: STARTUP_DELAY_MS }
    } else if i < 64 {
        command_step((i - 4) / 5, (i - 4) % 5)
    } else if i == 64 {
        Action::SetPin { pin: Pin::Cfg, high: true }
    } else {
        Action::SetBaudrate(cfg.transport_baud_rate)
    }
}

/// The whole procedure that stores `cfg`.
pub open spec fn script(cfg: Ch9120Config) -> Seq<Action> {
    Seq::new(SCRIPT_LEN as nat, |i: int| script_action(cfg, i))
}

/// The state of a store: the configuration, how many actions of the
/// procedure have been handed out, and whether a pin failed.
#[derive(Debug, Clone, Copy)]
pub struct StoreState {
    pub config: Ch9120Config,
    pub pos: usize,
    pub failed: bool,
}

/// The state from which every store starts.
pub open spec fn initial_state(config: Ch9120Config) -> StoreState {
    StoreState { config, pos: 0, failed: false }
}

/// A state that a store can reach.
pub open spec fn state_wf(s: StoreState) -> bool {
    s.pos <= SCRIPT_LEN
}

/// One step: after a pin failure the store reports `PinAssert` for ever;
/// otherwise the next action of the procedure is handed out, and once the
/// procedure is done the store reports success.
pub open spec fn next_state(s: StoreState, feedback: Feedback) -> (StoreState, Action) {
    if s.failed {
        (s, Action::Finish(Err(ConfigStoreError::PinAssert)))
    } else if feedback == Feedback::PinFailed {
        (StoreState { failed: true, ..s }, Action::Finish(Err(ConfigStoreError::PinAssert)))
    } else if s.pos < SCRIPT_LEN {
        (StoreState { pos: (s.pos + 1) as usize, ..s }, script_action(s.config, s.pos as int))
    } else {
        (s, Action::Finish(Ok(())))
    }
}

/// The actions handed out for a sequence of feedbacks, and the final state.
pub open spec fn run(s: StoreState, feedbacks: Seq<Feedback>) -> (StoreState, Seq<Action>)
    decreases feedbacks.len(),
{
    if feedbacks.len() == 0 {
        (s, Seq::empty())
    } else {
        let (s1, a) = next_state(s, feedbacks[0]);
        let (s2, rest) = run(s1, feedbacks.drop_first());
        (s2, seq![a] + rest)
    }
}

/// The procedure that writes a configuration to the chip, driven one
/// action at a time by its caller.
pub struct StoreSession {
    state: StoreState,
}

impl View for StoreSession {
    type V = StoreState;

    closed spec fn view(&self) -> StoreState {
        self.state
    }
}

/// The command written at position `k` of the procedure.
pub fn command_in_order(k: usize) -> (command: Command)
    requires
        k < COMMAND_COUNT,
    ensures
        command == command_at(k as int),
{
    if k == 0 {
        Command::SetMode
    } else if k == 1 {
        Command::SetLocalIp
    } else if k == 2 {
        Command::SetSubnetMask
    } else if k == 3 {
        Command::SetGateway
    } else if k == 4 {
        Command::SetLocalPort
    } else if k == 5 {
        Command::SetTargetIp
    } else if k == 6 {
        Command::SetTargetPort
    } else if k == 7 {
        Command::SetBaudRate
    } else if k == 8 {
        Command::SetRxTimeout
    } else if k == 9 {
        Command::SaveConfig
    } else if k == 10 {
        Command::ApplyConfig
    } else {
        Command::ExitConfig
    }
}

/// The action at position `i` of the procedure that stores `cfg`.
pub fn action_at(cfg: &Ch9120Config, i: usize) -> (action: Action)
    requires
        i < SCRIPT_LEN,
    ensures
        action == script_action(*cfg, i as int),
{
    if i == 0 {
        Action::SetBaudrate(CONFIG_BAUD_RATE)
    } else if i == 1 {
        Action::SetPin { pin: Pin::Cfg, high: false }
    } else if i == 2 {
        Action::SetPin { pin: Pin::Rst, high: true }
    } else if i == 3 {
        Action::Delay { ms: STARTUP_DELAY_MS }
    } else if i < PREAMBLE_LEN + COMMAND_COUNT * STEPS_PER_COMMAND {
        let k = (i - PREAMBLE_LEN) / STEPS_PER_COMMAND;
        let j = (i - PREAMBLE_LEN) % STEPS_PER_COMMAND;
        if j == 0 {
            Action::Delay { ms: FRAME_GUARD_MS }
        } else if j == 1 {
            Action::Send(command_in_order(k))
        } else if j == 2 {
            Action::Delay { ms: FRAME_GUARD_MS }
        } else if j == 3 {
            Action::AwaitAck { timeout_ms: ACK_TIMEOUT_MS }
        } else {
            Action::Delay { ms: COMMAND_SETTLE_MS }
        }
    } else if i == 64 {
        Action::SetPin { pin: Pin::Cfg, high: true }
    } else {
        Action::SetBaudrate(cfg.transport_baud_rate)
    }
}

impl StoreSession {
    /// A store of `config` that has not started yet.
    pub fn new(config: Ch9120Config) -> (session: Self)
        ensures
            session@ == initial_state(config),
    {
        StoreSession { state: StoreState { config, pos: 0, failed: false } }
    }

    /// Starts storing the configuration that a driver holds: there is
    /// nothing to store when it holds none.
    pub fn begin(config: Option<&Ch9120Config>) -> (result: Result<Self, ConfigStoreError>)
        ensures
            config is None <==> result == Err::<Self, ConfigStoreError>(
                ConfigStoreError::MissingConfig,
            ),
            config is None ==> result is Err,
            config matches Some(c) ==> result matches Ok(s) && s@ == initial_state(*c),
    {
        match config {
            Some(c) => Ok(StoreSession::new(*c)),
            None => Err(ConfigStoreError::MissingConfig),
        }
    }

    /// The configuration being stored.
    pub fn config(&self) -> (cfg: &Ch9120Config)
        ensures
            *cfg == self@.config,
    {
        &self.state.config
    }

    /// Whether the session has nothing left to do but report its outcome.
    pub fn is_finished(&self) -> (done: bool)
        ensures
            done == (self@.failed || self@.pos >= SCRIPT_LEN),
    {
        self.state.failed || self.state.pos >= SCRIPT_LEN
    }

    /// Takes the outcome of the previous action and hands out the next one.
    pub fn next(&mut self, feedback: Feedback) -> (action: Action)
        ensures
            (final(self)@, action) == next_state(old(self)@, feedback),
    {
        if self.state.failed {
            Action::Finish(Err(ConfigStoreError::PinAssert))
        } else if feedback == Feedback::PinFailed {
            self.state.failed = true;
            Action::Finish(Err(ConfigStoreError::PinAssert))
        } else if self.state.pos < SCRIPT_LEN {
            let action = action_at(&self.state.config, self.state.pos);
            self.state.pos = self.state.pos + 1;
            action
        } else {
            Action::Finish(Ok(()))
        }
    }
}

/// How the chip answered a command.
#[derive(Debug, Clone, Copy, PartialEq, Eq, Structural)]
pub enum AckStatus {
    /// The chip answered with the acknowledgement byte.
    Accepted,
    /// The chip answered with another byte.
    Rejected(u8),
    /// The chip did not answer in time.
    TimedOut,
}

/// Classifies the answer to a command: `None` when the wait timed out,
/// otherwise the first byte of the receive buffer after the read returned.
pub fn classify_ack(reply: Option<u8>) -> (status: AckStatus)
    ensures
        reply is None <==> status == AckStatus::TimedOut,
        reply == Some(0xAAu8) <==> status == AckStatus::Accepted,
        forall|b: u8| reply == Some(b) && b != 0xAAu8 ==> status == AckStatus::Rejected(b),
{
    match reply {
        None => AckStatus::TimedOut,
        Some(b) => if b == ACK_BYTE {
            AckStatus::Accepted
        } else {
            AckStatus::Rejected(b)
        },
    }
}

/// After a pin failure nothing is done any more: every later step,
/// whatever is reported, leaves the state alone and reports `PinAssert`.
pub proof fn lemma_failure_is_final(s: StoreState, feedbacks: Seq<Feedback>)
    requires
        s.failed,
    ensures
        run(s, feedbacks).0 == s,
        run(s, feedbacks).1.len() == feedbacks.len(),
        forall|i: int|
            0 <= i < feedbacks.len() ==> #[trigger] run(s, feedbacks).1[i] == Action::Finish(
                Err(ConfigStoreError::PinAssert),
            ),
    decreases feedbacks.len(),
{
    if feedbacks.len() > 0 {
        lemma_failure_is_final(s, feedbacks.drop_first());
        let rest = run(s, feedbacks.drop_first()).1;
        assert forall|i: int| 0 <= i < feedbacks.len() implies #[trigger] run(
            s,
            feedbacks,
        ).1[i] == Action::Finish(Err(ConfigStoreError::PinAssert)) by {
            if i > 0 {
                assert(run(s, feedbacks).1[i] == rest[i - 1]);
            }
        }
    }
}

/// Every step keeps the store within its procedure and keeps its
/// configuration; a store never recovers from a failure.
pub proof fn lemma_next_preserves_wf(s: StoreState, feedback: Feedback)
    requires
        state_wf(s),
    ensures
        state_wf(next_state(s, feedback).0),
        next_state(s, feedback).0.config == s.config,
        s.failed ==> next_state(s, feedback).0.failed,
        next_state(s, feedback).0.pos >= s.pos,
{
}

/// The commands go out in this order: mode, local address, subnet mask,
/// gateway, local port, remote address, remote port, serial speed, receive
/// timeout, then save, apply and leave configuration mode.
pub proof fn lemma_command_order()
    ensures
        command_at(0) == Command::SetMode,
        command_at(1) == Command::SetLocalIp,
        command_at(2) == Command::SetSubnetMask,
        command_at(3) == Command::SetGateway,
        command_at(4) == Command::SetLocalPort,
        command_at(5) == Command::SetTargetIp,
        command_at(6) == Command::SetTargetPort,
        command_at(7) == Command::SetBaudRate,
        command_at(8) == Command::SetRxTimeout,
        command_at(9) == Command::SaveConfig,
        command_at(10) == Command::ApplyConfig,
        command_at(11) == Command::ExitConfig,
{
}

/// The procedure, position by position, for every configuration: 9600 baud,
/// CFG low, RST high, a 500 ms wait; then for the `k`-th command a 10 ms
/// wait, the frame, a 10 ms wait, the acknowledgement (2 s at most) and a
/// 200 ms wait; then CFG high and the configured speed.
pub proof fn lemma_script_positions(cfg: Ch9120Config, k: int)
    requires
        0 <= k < 12,
    ensures
        script(cfg).len() == 66,
        script(cfg)[0] == Action::SetBaudrate(9600),
        script(cfg)[1] == (Action::SetPin { pin: Pin::Cfg, high: false }),
        script(cfg)[2] == (Action::SetPin { pin: Pin::Rst, high: true }),
        script(cfg)[3] == (Action::Delay { ms: 500 }),
        script(cfg)[4 + 5 * k] == (Action::Delay { ms: 10 }),
        script(cfg)[4 + 5 * k + 1] == Action::Send(command_at(k)),
        script(cfg)[4 + 5 * k + 2] == (Action::Delay { ms: 10 }),
        script(cfg)[4 + 5 * k + 3] == (Action::AwaitAck { timeout_ms: 2000 }),
        script(cfg)[4 + 5 * k + 4] == (Action::Delay { ms: 200 }),
        script(cfg)[64] == (Action::SetPin { pin: Pin::Cfg, high: true }),
        script(cfg)[65] == Action::SetBaudrate(cfg.transport_baud_rate),
{
    assert((5 * k) / 5 == k && (5 * k) % 5 == 0) by (nonlinear_arith)
        requires
            0 <= k,
    ;
    assert((5 * k + 1) / 5 == k && (5 * k + 1) % 5 == 1) by (nonlinear_arith)
        requires
            0 <= k,
    ;
    assert((5 * k + 2) / 5 == k && (5 * k + 2) % 5 == 2) by (nonlinear_arith)
        requires
            0 <= k,
    ;
    assert((5 * k + 3) / 5 == k && (5 * k + 3) % 5 == 3) by (nonlinear_arith)
        requires
            0 <= k,
    ;
    assert((5 * k + 4) / 5 == k && (5 * k + 4) % 5 == 4) by (nonlinear_arith)
        requires
            0 <= k,
    ;
}

/// The procedure never ends early and never puts the chip back into reset:
/// none of its actions is a final report, and after RST is raised no action
/// drives it low; CFG is only raised by the action before the last.
pub proof fn lemma_script_runs_to_the_end(cfg: Ch9120Config)
    ensures
        forall|i: int| 0 <= i < SCRIPT_LEN ==> !(#[trigger] script(cfg)[i] is Finish),
        forall|i: int|
            0 <= i < SCRIPT_LEN ==> #[trigger] script(cfg)[i] != (Action::SetPin {
                pin: Pin::Rst,
                high: false,
            }),
        forall|i: int|
            0 <= i < SCRIPT_LEN && #[trigger] script(cfg)[i] == (Action::SetPin {
                pin: Pin::Cfg,
                high: true,
            }) ==> i == 64,
{
}

/// A failed pin ends the store at once with `PinAssert`, and the
/// procedure does not advance.
pub proof fn lemma_pin_failure_aborts(s: StoreState)
    ensures
        next_state(s, Feedback::PinFailed).1 == Action::Finish(Err(ConfigStoreError::PinAssert)),
        next_state(s, Feedback::PinFailed).0.failed,
        next_state(s, Feedback::PinFailed).0.pos == s.pos,
        next_state(s, Feedback::PinFailed).0.config == s.config,
{
}

/// Without failures the store hands out the rest of the procedure in
/// order, and then reports success for ever.
pub proof fn lemma_clean_run(s: StoreState, feedbacks: Seq<Feedback>)
    requires
        state_wf(s),
        !s.failed,
        forall|i: int| 0 <= i < feedbacks.len() ==> #[trigger] feedbacks[i] == Feedback::Done,
    ensures
        run(s, feedbacks).1.len() == feedbacks.len(),
        forall|i: int|
            0 <= i < feedbacks.len() ==> #[trigger] run(s, feedbacks).1[i] == (if s.pos + i
                < SCRIPT_LEN {
                script_action(s.config, s.pos + i)
            } else {
                Action::Finish(Ok(()))
            }),
        !run(s, feedbacks).0.failed,
        run(s, feedbacks).0.config == s.config,
        run(s, feedbacks).0.pos == if s.pos + feedbacks.len() < SCRIPT_LEN {
            s.pos + feedbacks.len()
        } else {
            SCRIPT_LEN as int
        },
    decreases feedbacks.len(),
{
    if feedbacks.len() > 0 {
        let (s1, a) = next_state(s, feedbacks[0]);
        let tail = feedbacks.drop_first();
        assert forall|i: int| 0 <= i < tail.len() implies #[trigger] tail[i]
            == Feedback::Done by {
            assert(tail[i] == feedbacks[i + 1]);
        }
        lemma_clean_run(s1, tail);
        let rest = run(s1, tail).1;
        assert forall|i: int| 0 <= i < feedbacks.len() implies #[trigger] run(s, feedbacks).1[i]
            == (if s.pos + i < SCRIPT_LEN {
            script_action(s.config, s.pos + i)
        } else {
            Action::Finish(Ok(()))
        }) by {
            if i > 0 {
                assert(run(s, feedbacks).1[i] == rest[i - 1]);
            }
        }
    }
}

/// A store that meets no failure hands out exactly the procedure, then
/// reports success.
pub proof fn lemma_store_performs_script(cfg: Ch9120Config, feedbacks: Seq<Feedback>)
    requires
        feedbacks.len() == SCRIPT_LEN + 1,
        forall|i: int| 0 <= i < feedbacks.len() ==> #[trigger] feedbacks[i] == Feedback::Done,
    ensures
        run(initial_state(cfg), feedbacks).1 == script(cfg).push(Action::Finish(Ok(()))),
{
    lemma_clean_run(initial_state(cfg), feedbacks);
    assert(run(initial_state(cfg), feedbacks).1 =~= script(cfg).push(Action::Finish(Ok(()))));
}

/// The shape of the procedure: configuration happens at the configuration
/// speed inside configuration mode; every command is written once, in
/// order, and its acknowledgement awaited; the port is finally switched to
/// the speed that was configured.
pub proof fn lemma_script_shape(cfg: Ch9120Config)
    ensures
        script(cfg).len() == SCRIPT_LEN,
        script(cfg)[0] == Action::SetBaudrate(CONFIG_BAUD_RATE),
        script(cfg)[1] == (Action::SetPin { pin: Pin::Cfg, high: false }),
        script(cfg)[2] == (Action::SetPin { pin: Pin::Rst, high: true }),
        script(cfg)[64] == (Action::SetPin { pin: Pin::Cfg, high: true }),
        script(cfg)[65] == Action::SetBaudrate(cfg.transport_baud_rate),
        forall|k: int|
            0 <= k < COMMAND_COUNT ==> #[trigger] script(cfg)[4 + 5 * k + 1] == Action::Send(
                command_at(k),
            ) && script(cfg)[4 + 5 * k + 3] == (Action::AwaitAck { timeout_ms: ACK_TIMEOUT_MS }),
        forall|i: int|
            0 <= i < SCRIPT_LEN && #[trigger] script(cfg)[i] is Send ==> 4 <= i < 64 && (i - 4) % 5
                == 1 && script(cfg)[i] == Action::Send(command_at((i - 4) / 5)),
{
    assert forall|k: int| 0 <= k < COMMAND_COUNT implies #[trigger] script(cfg)[4 + 5 * k + 1]
        == Action::Send(command_at(k)) && script(cfg)[4 + 5 * k + 3] == (Action::AwaitAck {
        timeout_ms: ACK_TIMEOUT_MS,
    }) by {
        assert((5 * k + 1) / 5 == k && (5 * k + 1) % 5 == 1) by (nonlinear_arith)
            requires
                0 <= k,
        ;
        assert((5 * k + 3) / 5 == k && (5 * k + 3) % 5 == 3) by (nonlinear_arith)
            requires
                0 <= k,
        ;
    }
}

/// Every command is among those written.
pub proof fn lemma_every_command_written(c: Command)
    ensures
        exists|k: int| 0 <= k < COMMAND_COUNT && #[trigger] command_at(k) == c,
{
    match c {
        Command::SetMode => assert(command_at(0) == c),
        Command::SetLocalIp => assert(command_at(1) == c),
        Command::SetSubnetMask => assert(command_at(2) == c),
        Command::SetGateway => assert(command_at(3) == c),
        Command::SetLocalPort => assert(command_at(4) == c),
        Command::SetTargetIp => assert(command_at(5) == c),
        Command::SetTargetPort => assert(command_at(6) == c),
        Command::SetBaudRate => assert(command_at(7) == c),
        Command::SetRxTimeout => assert(command_at(8) == c),
        Command::SaveConfig => assert(command_at(9) == c),
        Command::ApplyConfig => assert(command_at(10) == c),
        Command::ExitConfig => assert(command_at(11) == c),
    }
}

} // verus!
