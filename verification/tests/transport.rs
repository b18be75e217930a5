use led_controller::transport::{
    ack_anomalous, start_cycle, step, ACK_OK, CMD_APPLY_LEDS, CMD_UPDATE_LEDS,
    RETRY_READY_TIMEOUT_MS, SETTLE_DELAY_US, WAIT_READY_TIMEOUT_MS,
};
use led_controller::{Action, CycleOutcome, Event, Phase};

fn not_ready() -> Event {
    Event::ReadyWait { edge: false, level_high: false }
}

fn ready() -> Event {
    Event::ReadyWait { edge: true, level_high: true }
}

fn transfer_ok() -> Event {
    Event::Transfer { ok: true, broken_pipe: false }
}

fn command_ok() -> Event {
    Event::Command { ok: true, broken_pipe: false, ack: ACK_OK }
}

/// Run the machine over the given observations, collecting the actions
/// it emits and summing the waiting it asks for.
fn drive(events: &[Event]) -> (Vec<Action>, u32, Phase) {
    let (mut phase, first) = start_cycle();
    let mut actions = vec![first];
    let mut wait_ms = match first {
        Action::WaitReady { timeout_ms } => timeout_ms,
        _ => 0,
    };
    for &ev in events {
        let (next, action) = step(phase, ev);
        if let Action::WaitReady { timeout_ms } = action {
            wait_ms += timeout_ms;
        }
        actions.push(action);
        phase = next;
        if matches!(phase, Phase::Finished(_)) {
            break;
        }
    }
    (actions, wait_ms, phase)
}

#[test]
fn cycle_starts_with_the_long_wait() {
    let (phase, action) = start_cycle();
    assert_eq!(phase, Phase::AwaitFirstReady);
    assert_eq!(action, Action::WaitReady { timeout_ms: WAIT_READY_TIMEOUT_MS });
}

#[test]
fn never_ready_ends_after_both_timeouts() {
    let (actions, wait_ms, phase) = drive(&[not_ready(), transfer_ok(), not_ready()]);
    assert_eq!(wait_ms, WAIT_READY_TIMEOUT_MS + RETRY_READY_TIMEOUT_MS);
    assert_eq!(wait_ms, 55);
    assert_eq!(phase, Phase::Finished(CycleOutcome::SkippedUnresponsive));
    assert_eq!(
        actions,
        vec![
            Action::WaitReady { timeout_ms: WAIT_READY_TIMEOUT_MS },
            Action::TransferEmpty,
            Action::WaitReady { timeout_ms: RETRY_READY_TIMEOUT_MS },
            Action::Finish { outcome: CycleOutcome::SkippedUnresponsive },
        ],
    );
    assert!(!actions.iter().any(|a| matches!(a, Action::TransferFrame)));
}

#[test]
fn ready_after_recover_sends_one_recovery_then_the_frame() {
    let (actions, _, phase) = drive(&[
        not_ready(),
        transfer_ok(),
        ready(),
        command_ok(),
        Event::Elapsed,
        Event::Encoded,
        transfer_ok(),
        Event::Elapsed,
        ready(),
        command_ok(),
    ]);
    assert_eq!(phase, Phase::Finished(CycleOutcome::Sent));
    let recover_at = actions.iter().position(|a| matches!(a, Action::TransferEmpty));
    let frame_at = actions.iter().position(|a| matches!(a, Action::TransferFrame));
    assert_eq!(actions.iter().filter(|a| matches!(a, Action::TransferEmpty)).count(), 1);
    assert!(recover_at.unwrap() < frame_at.unwrap());
    assert_eq!(
        actions,
        vec![
            Action::WaitReady { timeout_ms: WAIT_READY_TIMEOUT_MS },
            Action::TransferEmpty,
            Action::WaitReady { timeout_ms: RETRY_READY_TIMEOUT_MS },
            Action::SendCommand { cmd: CMD_UPDATE_LEDS },
            Action::Settle { micros: SETTLE_DELAY_US },
            Action::Encode,
            Action::TransferFrame,
            Action::Settle { micros: SETTLE_DELAY_US },
            Action::WaitReady { timeout_ms: RETRY_READY_TIMEOUT_MS },
            Action::SendCommand { cmd: CMD_APPLY_LEDS },
            Action::Finish { outcome: CycleOutcome::Sent },
        ],
    );
}

#[test]
fn ready_at_once_skips_recovery() {
    let (actions, wait_ms, phase) = drive(&[
        ready(),
        command_ok(),
        Event::Elapsed,
        Event::Encoded,
        transfer_ok(),
        Event::Elapsed,
        ready(),
        command_ok(),
    ]);
    assert_eq!(phase, Phase::Finished(CycleOutcome::Sent));
    assert_eq!(wait_ms, WAIT_READY_TIMEOUT_MS + RETRY_READY_TIMEOUT_MS);
    assert!(!actions.iter().any(|a| matches!(a, Action::TransferEmpty)));
}

#[test]
fn level_high_on_timeout_counts_as_ready() {
    let (_, action) =
        step(Phase::AwaitFirstReady, Event::ReadyWait { edge: false, level_high: true });
    assert_eq!(action, Action::SendCommand { cmd: CMD_UPDATE_LEDS });
}

#[test]
fn consume_timeout_is_an_apply_failure() {
    let (_, _, phase) = drive(&[
        ready(),
        command_ok(),
        Event::Elapsed,
        Event::Encoded,
        transfer_ok(),
        Event::Elapsed,
        not_ready(),
    ]);
    assert_eq!(phase, Phase::Finished(CycleOutcome::ApplyTimeout));
}

#[test]
fn broken_pipe_on_frame_transfer_is_process_fatal() {
    let (_, _, phase) = drive(&[
        ready(),
        command_ok(),
        Event::Elapsed,
        Event::Encoded,
        Event::Transfer { ok: false, broken_pipe: true },
    ]);
    match phase {
        Phase::Finished(outcome) => {
            assert_eq!(outcome, CycleOutcome::TransferFailed { disconnected: true });
            assert!(outcome.is_process_fatal());
        }
        _ => panic!("cycle did not finish"),
    }
}

#[test]
fn plain_transfer_error_is_not_process_fatal() {
    let (_, _, phase) = drive(&[
        ready(),
        command_ok(),
        Event::Elapsed,
        Event::Encoded,
        Event::Transfer { ok: false, broken_pipe: false },
    ]);
    match phase {
        Phase::Finished(outcome) => {
            assert_eq!(outcome, CycleOutcome::TransferFailed { disconnected: false });
            assert!(!outcome.is_process_fatal());
        }
        _ => panic!("cycle did not finish"),
    }
    assert!(!CycleOutcome::SkippedUnresponsive.is_process_fatal());
    assert!(!CycleOutcome::ApplyTimeout.is_process_fatal());
    assert!(!CycleOutcome::Sent.is_process_fatal());
}

#[test]
fn recovery_transfer_failure_ends_the_cycle() {
    let (_, _, phase) = drive(&[not_ready(), Event::Transfer { ok: false, broken_pipe: false }]);
    assert_eq!(phase, Phase::Finished(CycleOutcome::TransferFailed { disconnected: false }));
}

#[test]
fn odd_acks_are_anomalies_but_tolerated() {
    assert!(!ack_anomalous(ACK_OK));
    assert!(ack_anomalous(0));
    assert!(ack_anomalous(2));
    // A cycle completes even when every ack byte is wrong.
    let odd = Event::Command { ok: true, broken_pipe: false, ack: 0 };
    let (_, _, phase) = drive(&[
        ready(),
        odd,
        Event::Elapsed,
        Event::Encoded,
        transfer_ok(),
        Event::Elapsed,
        ready(),
        odd,
    ]);
    assert_eq!(phase, Phase::Finished(CycleOutcome::Sent));
}
