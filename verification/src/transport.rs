//! The transfer protocol with the peripheral, as a state machine.
//!
//! One write cycle is a fixed exchange: wait for the ready line, recover
//! once from a missed handshake by sending an all-zero transfer, command
//! an update, settle, encode and transfer the frame, settle, confirm the
//! peripheral consumed it, and command the apply that latches the frame
//! to the LEDs.  The machine decides every step; the caller performs the
//! requested action on the hardware (a bounded wait, a bus transfer, a
//! delay) and feeds the observed result back as the next event.  Every
//! wait carries an explicit timeout, so a cycle against an unresponsive
//! peripheral ends after a bounded total wait instead of blocking, and
//! at most one recovery transfer is ever sent per cycle.

use vstd::prelude::*;

verus! {

/// Timeout of the first wait for the ready line.
pub const WAIT_READY_TIMEOUT_MS: u32 = 50;

/// Timeout of the short waits (after recovery, and when confirming the
/// peripheral consumed the frame).
pub const RETRY_READY_TIMEOUT_MS: u32 = 5;

/// Settle delay between protocol steps, in microseconds.
pub const SETTLE_DELAY_US: u32 = 200;

/// Command byte: receive a new frame into the peripheral's back buffer.
pub const CMD_UPDATE_LEDS: u8 = 1;

/// Command byte: swap buffers and latch the frame to the LEDs.
pub const CMD_APPLY_LEDS: u8 = 2;

/// The acknowledgment byte the peripheral should answer a command with.
pub const ACK_OK: u8 = 1;

/// How one write cycle ended.
#[derive(Clone, Copy, PartialEq, Eq, Structural, Debug)]
pub enum CycleOutcome {
    /// The frame was transferred and applied.
    Sent,
    /// The peripheral was not ready, even after the recovery transfer:
    /// nothing was sent and this tick's frame is dropped.  The caller
    /// logs and retries on the next scheduled cycle.
    SkippedUnresponsive,
    /// The frame was transferred but the peripheral never signalled
    /// that it consumed it: the apply step failed for this cycle.
    ApplyTimeout,
    /// A bus transfer itself failed.  With `disconnected` set the
    /// connection is gone (the broken-pipe class), which is
    /// unrecoverable for the process; otherwise the cycle failed and
    /// the next tick may try again.
    TransferFailed { disconnected: bool },
}

impl CycleOutcome {
    /// The propagation policy: only a broken connection is fatal to the
    /// process, every other failure is logged and the next cycle goes
    /// on.
    pub open spec fn spec_is_process_fatal(&self) -> bool {
        self matches CycleOutcome::TransferFailed { disconnected: true }
    }

    pub fn is_process_fatal(&self) -> (r: bool)
        ensures
            r == self.spec_is_process_fatal(),
    {
        match self {
            CycleOutcome::TransferFailed { disconnected } => *disconnected,
            _ => false,
        }
    }
}

/// What the machine is waiting to hear about.
#[derive(Clone, Copy, PartialEq, Eq, Structural, Debug)]
pub enum Phase {
    /// First wait for the ready line.
    AwaitFirstReady,
    /// Recovery transfer (all-zero frame) in flight.
    Recovering,
    /// Short wait for the ready line after recovery.
    AwaitRetryReady,
    /// Update command in flight.
    Updating,
    /// Settle delay before the frame transfer.
    SettlingBeforeFrame,
    /// The color pipeline is filling the write buffer.
    Encoding,
    /// Frame transfer in flight.
    SendingFrame,
    /// Settle delay after the frame transfer.
    SettlingAfterFrame,
    /// Short wait for the ready line confirming the frame was consumed.
    AwaitConsumeReady,
    /// Apply command in flight.
    Applying,
    /// The cycle is over.
    Finished(CycleOutcome),
}

/// What the caller observed while performing the last action.
#[derive(Clone, Copy, PartialEq, Eq, Structural, Debug)]
pub enum Event {
    /// A ready-line wait ended: an edge arrived, or it timed out, and
    /// the line reads high or low.
    ReadyWait { edge: bool, level_high: bool },
    /// A bus transfer ended.
    Transfer { ok: bool, broken_pipe: bool },
    /// A command byte was sent and one acknowledgment byte read back.
    Command { ok: bool, broken_pipe: bool, ack: u8 },
    /// A settle delay elapsed.
    Elapsed,
    /// The write buffer was filled by the color pipeline.
    Encoded,
}

/// What the caller must do next.
#[derive(Clone, Copy, PartialEq, Eq, Structural, Debug)]
pub enum Action {
    /// Wait for a rising edge on the ready line, at most `timeout_ms`.
    WaitReady { timeout_ms: u32 },
    /// Full-duplex transfer of the all-zero buffer (recovery).
    TransferEmpty,
    /// Send the command byte and read one acknowledgment byte.
    SendCommand { cmd: u8 },
    /// Sleep for `micros` microseconds.
    Settle { micros: u32 },
    /// Run the color pipeline into the write buffer.
    Encode,
    /// Full-duplex transfer of the write buffer.
    TransferFrame,
    /// The cycle is over with this outcome; no further action.
    Finish { outcome: CycleOutcome },
}

/// The event kind each phase expects from the caller.
pub open spec fn expects(phase: Phase, event: Event) -> bool {
    match phase {
        Phase::AwaitFirstReady => event is ReadyWait,
        Phase::Recovering => event is Transfer,
        Phase::AwaitRetryReady => event is ReadyWait,
        Phase::Updating => event is Command,
        Phase::SettlingBeforeFrame => event is Elapsed,
        Phase::Encoding => event is Encoded,
        Phase::SendingFrame => event is Transfer,
        Phase::SettlingAfterFrame => event is Elapsed,
        Phase::AwaitConsumeReady => event is ReadyWait,
        Phase::Applying => event is Command,
        Phase::Finished(_) => false,
    }
}

/// The ready line counts as asserted when an edge arrived or the level
/// reads high.
pub open spec fn spec_ready(edge: bool, level_high: bool) -> bool {
    edge || level_high
}

/// The transition relation of one write cycle.
pub open spec fn spec_step(phase: Phase, event: Event) -> (Phase, Action) {
    match (phase, event) {
        (Phase::AwaitFirstReady, Event::ReadyWait { edge, level_high }) => {
            if spec_ready(edge, level_high) {
                (Phase::Updating, Action::SendCommand { cmd: CMD_UPDATE_LEDS })
            } else {
                (Phase::Recovering, Action::TransferEmpty)
            }
        },
        (Phase::Recovering, Event::Transfer { ok, broken_pipe }) => {
            if ok {
                (Phase::AwaitRetryReady, Action::WaitReady { timeout_ms: RETRY_READY_TIMEOUT_MS })
            } else {
                let outcome = CycleOutcome::TransferFailed { disconnected: broken_pipe };
                (Phase::Finished(outcome), Action::Finish { outcome })
            }
        },
        (Phase::AwaitRetryReady, Event::ReadyWait { edge, level_high }) => {
            if spec_ready(edge, level_high) {
                (Phase::Updating, Action::SendCommand { cmd: CMD_UPDATE_LEDS })
            } else {
                let outcome = CycleOutcome::SkippedUnresponsive;
                (Phase::Finished(outcome), Action::Finish { outcome })
            }
        },
        (Phase::Updating, Event::Command { ok, broken_pipe, .. }) => {
            if ok {
                (Phase::SettlingBeforeFrame, Action::Settle { micros: SETTLE_DELAY_US })
            } else {
                let outcome = CycleOutcome::TransferFailed { disconnected: broken_pipe };
                (Phase::Finished(outcome), Action::Finish { outcome })
            }
        },
        (Phase::SettlingBeforeFrame, Event::Elapsed) => (Phase::Encoding, Action::Encode),
        (Phase::Encoding, Event::Encoded) => (Phase::SendingFrame, Action::TransferFrame),
        (Phase::SendingFrame, Event::Transfer { ok, broken_pipe }) => {
            if ok {
                (Phase::SettlingAfterFrame, Action::Settle { micros: SETTLE_DELAY_US })
            } else {
                let outcome = CycleOutcome::TransferFailed { disconnected: broken_pipe };
                (Phase::Finished(outcome), Action::Finish { outcome })
            }
        },
        (Phase::SettlingAfterFrame, Event::Elapsed) => (
            Phase::AwaitConsumeReady,
            Action::WaitReady { timeout_ms: RETRY_READY_TIMEOUT_MS },
        ),
        (Phase::AwaitConsumeReady, Event::ReadyWait { edge, level_high }) => {
            if spec_ready(edge, level_high) {
                (Phase::Applying, Action::SendCommand { cmd: CMD_APPLY_LEDS })
            } else {
                let outcome = CycleOutcome::ApplyTimeout;
                (Phase::Finished(outcome), Action::Finish { outcome })
            }
        },
        (Phase::Applying, Event::Command { ok, broken_pipe, .. }) => {
            if ok {
                let outcome = CycleOutcome::Sent;
                (Phase::Finished(outcome), Action::Finish { outcome })
            } else {
                let outcome = CycleOutcome::TransferFailed { disconnected: broken_pipe };
                (Phase::Finished(outcome), Action::Finish { outcome })
            }
        },
        _ => (phase, Action::Finish { outcome: CycleOutcome::SkippedUnresponsive }),
    }
}

/// How far the cycle still has to go; every step shrinks it.
pub open spec fn rank(phase: Phase) -> nat {
    match phase {
        Phase::AwaitFirstReady => 10,
        Phase::Recovering => 9,
        Phase::AwaitRetryReady => 8,
        Phase::Updating => 7,
        Phase::SettlingBeforeFrame => 6,
        Phase::Encoding => 5,
        Phase::SendingFrame => 4,
        Phase::SettlingAfterFrame => 3,
        Phase::AwaitConsumeReady => 2,
        Phase::Applying => 1,
        Phase::Finished(_) => 0,
    }
}

/// Begin a write cycle: wait for the ready line with the long timeout.
pub fn start_cycle() -> (r: (Phase, Action))
    ensures
        r.0 == Phase::AwaitFirstReady,
        r.1 == (Action::WaitReady { timeout_ms: WAIT_READY_TIMEOUT_MS }),
{
    (Phase::AwaitFirstReady, Action::WaitReady { timeout_ms: WAIT_READY_TIMEOUT_MS })
}

/// Advance the cycle by one observed event.  The caller must feed the
/// event kind the current phase awaits.  Every step moves strictly
/// toward `Finished`, so the caller's loop terminates.
pub fn step(phase: Phase, event: Event) -> (r: (Phase, Action))
    requires
        expects(phase, event),
    ensures
        r == spec_step(phase, event),
        rank(r.0) < rank(phase),
        (r.1 is Finish) == (r.0 is Finished),
{
    match (phase, event) {
        (Phase::AwaitFirstReady, Event::ReadyWait { edge, level_high }) => {
            if edge || level_high {
                (Phase::Updating, Action::SendCommand { cmd: CMD_UPDATE_LEDS })
            } else {
                (Phase::Recovering, Action::TransferEmpty)
            }
        },
        (Phase::Recovering, Event::Transfer { ok, broken_pipe }) => {
            if ok {
                (Phase::AwaitRetryReady, Action::WaitReady { timeout_ms: RETRY_READY_TIMEOUT_MS })
            } else {
                let outcome = CycleOutcome::TransferFailed { disconnected: broken_pipe };
                (Phase::Finished(outcome), Action::Finish { outcome })
            }
        },
        (Phase::AwaitRetryReady, Event::ReadyWait { edge, level_high }) => {
            if edge || level_high {
                (Phase::Updating, Action::SendCommand { cmd: CMD_UPDATE_LEDS })
            } else {
                let outcome = CycleOutcome::SkippedUnresponsive;
                (Phase::Finished(outcome), Action::Finish { outcome })
            }
        },
        (Phase::Updating, Event::Command { ok, broken_pipe, .. }) => {
            if ok {
                (Phase::SettlingBeforeFrame, Action::Settle { micros: SETTLE_DELAY_US })
            } else {
                let outcome = CycleOutcome::TransferFailed { disconnected: broken_pipe };
                (Phase::Finished(outcome), Action::Finish { outcome })
            }
        },
        (Phase::SettlingBeforeFrame, Event::Elapsed) => (Phase::Encoding, Action::Encode),
        (Phase::Encoding, Event::Encoded) => (Phase::SendingFrame, Action::TransferFrame),
        (Phase::SendingFrame, Event::Transfer { ok, broken_pipe }) => {
            if ok {
                (Phase::SettlingAfterFrame, Action::Settle { micros: SETTLE_DELAY_US })
            } else {
                let outcome = CycleOutcome::TransferFailed { disconnected: broken_pipe };
                (Phase::Finished(outcome), Action::Finish { outcome })
            }
        },
        (Phase::SettlingAfterFrame, Event::Elapsed) => (
            Phase::AwaitConsumeReady,
            Action::WaitReady { timeout_ms: RETRY_READY_TIMEOUT_MS },
        ),
        (Phase::AwaitConsumeReady, Event::ReadyWait { edge, level_high }) => {
            if edge || level_high {
                (Phase::Applying, Action::SendCommand { cmd: CMD_APPLY_LEDS })
            } else {
                let outcome = CycleOutcome::ApplyTimeout;
                (Phase::Finished(outcome), Action::Finish { outcome })
            }
        },
        (Phase::Applying, Event::Command { ok, broken_pipe, .. }) => {
            if ok {
                let outcome = CycleOutcome::Sent;
                (Phase::Finished(outcome), Action::Finish { outcome })
            } else {
                let outcome = CycleOutcome::TransferFailed { disconnected: broken_pipe };
                (Phase::Finished(outcome), Action::Finish { outcome })
            }
        },
        _ => (phase, Action::Finish { outcome: CycleOutcome::SkippedUnresponsive }),
    }
}

/// The peripheral answered a command with an unexpected byte: a
/// protocol anomaly.  The peripheral's firmware returns no reliable
/// acknowledgment for these commands, so anomalies are logged and
/// tolerated, never fatal.
pub fn ack_anomalous(ack: u8) -> (r: bool)
    ensures
        r == (ack != ACK_OK),
{
    ack != ACK_OK
}

/// The actions one cycle emits from `phase` when the caller observes
/// `events`, in order.  The run stops when the cycle is finished or the
/// caller stops feeding events.
pub open spec fn spec_run(phase: Phase, events: Seq<Event>) -> Seq<Action>
    decreases events.len(),
{
    if events.len() == 0 || phase is Finished || !expects(phase, events[0]) {
        seq![]
    } else {
        let next = spec_step(phase, events[0]);
        seq![next.1] + spec_run(next.0, events.drop_first())
    }
}

/// The wait an action asks of the caller, in milliseconds.
pub open spec fn wait_ms(a: Action) -> int {
    match a {
        Action::WaitReady { timeout_ms } => timeout_ms as int,
        _ => 0,
    }
}

/// The total bounded waiting a list of actions asks of the caller.
pub open spec fn total_wait_ms(actions: Seq<Action>) -> int
    decreases actions.len(),
{
    if actions.len() == 0 {
        0
    } else {
        wait_ms(actions[0]) + total_wait_ms(actions.drop_first())
    }
}

/// How many recovery transfers a list of actions contains.
pub open spec fn recover_count(actions: Seq<Action>) -> int
    decreases actions.len(),
{
    if actions.len() == 0 {
        0
    } else {
        (if actions[0] is TransferEmpty {
            1int
        } else {
            0int
        }) + recover_count(actions.drop_first())
    }
}

/// The most waiting the rest of a cycle can still ask for, from each
/// phase.
pub open spec fn wait_budget(phase: Phase) -> int {
    match phase {
        Phase::AwaitFirstReady => 10,
        Phase::Recovering => 10,
        Phase::AwaitRetryReady => 5,
        Phase::Updating => 5,
        Phase::SettlingBeforeFrame => 5,
        Phase::Encoding => 5,
        Phase::SendingFrame => 5,
        Phase::SettlingAfterFrame => 5,
        Phase::AwaitConsumeReady => 0,
        Phase::Applying => 0,
        Phase::Finished(_) => 0,
    }
}

/// How many recovery transfers the rest of a cycle can still emit.
pub open spec fn recover_budget(phase: Phase) -> int {
    match phase {
        Phase::AwaitFirstReady => 1,
        _ => 0,
    }
}

proof fn lemma_run_unfold(a: Action, rest: Seq<Action>)
    ensures
        total_wait_ms(seq![a] + rest) == wait_ms(a) + total_wait_ms(rest),
        recover_count(seq![a] + rest) == (if a is TransferEmpty {
            1int
        } else {
            0int
        }) + recover_count(rest),
{
    assert((seq![a] + rest).len() == 1 + rest.len());
    assert((seq![a] + rest)[0] == a);
    assert((seq![a] + rest).drop_first() =~= rest);
}

/// Whatever the peripheral does and however long the caller keeps
/// feeding events, one cycle never asks for more bounded waiting than
/// the phase's budget allows, and never emits more recovery transfers
/// than the budget allows.
pub proof fn lemma_run_within_budget(phase: Phase, events: Seq<Event>)
    ensures
        total_wait_ms(spec_run(phase, events)) <= wait_budget(phase),
        0 <= recover_count(spec_run(phase, events)) <= recover_budget(phase),
    decreases events.len(),
{
    if events.len() == 0 || phase is Finished || !expects(phase, events[0]) {
    } else {
        let next = spec_step(phase, events[0]);
        lemma_run_within_budget(next.0, events.drop_first());
        lemma_run_unfold(next.1, spec_run(next.0, events.drop_first()));
    }
}

/// A full write cycle, its opening wait included, never blocks the
/// caller for more than the configured timeouts in total
/// (50 + 5 + 5 milliseconds of bounded waiting), and sends at most one
/// recovery transfer, whatever the peripheral does.
pub proof fn lemma_cycle_bounded(events: Seq<Event>)
    ensures
        WAIT_READY_TIMEOUT_MS + total_wait_ms(spec_run(Phase::AwaitFirstReady, events)) <= 60,
        0 <= recover_count(spec_run(Phase::AwaitFirstReady, events)) <= 1,
{
    lemma_run_within_budget(Phase::AwaitFirstReady, events);
}

/// Against a peripheral that never asserts ready (every wait times out
/// with the line low, the recovery transfer itself goes through), the
/// cycle ends after exactly the two configured timeouts —
/// 50 + 5 = 55 milliseconds of bounded waiting — with the frame
/// dropped: one recovery transfer is sent and the frame itself never
/// is.
pub proof fn lemma_never_ready_cycle()
    ensures
        ({
            let not_ready = Event::ReadyWait { edge: false, level_high: false };
            let transfer_ok = Event::Transfer { ok: true, broken_pipe: false };
            let actions = spec_run(
                Phase::AwaitFirstReady,
                seq![not_ready, transfer_ok, not_ready],
            );
            &&& actions =~= seq![
                Action::TransferEmpty,
                Action::WaitReady { timeout_ms: RETRY_READY_TIMEOUT_MS },
                Action::Finish { outcome: CycleOutcome::SkippedUnresponsive },
            ]
            &&& WAIT_READY_TIMEOUT_MS + total_wait_ms(actions) == 55
            &&& recover_count(actions) == 1
            &&& forall|i: int| 0 <= i < actions.len() ==> !((#[trigger] actions[i]) is TransferFrame)
        }),
{
    reveal_with_fuel(spec_run, 5);
    reveal_with_fuel(total_wait_ms, 5);
    reveal_with_fuel(recover_count, 5);
    let not_ready = Event::ReadyWait { edge: false, level_high: false };
    let transfer_ok = Event::Transfer { ok: true, broken_pipe: false };
    let evs = seq![not_ready, transfer_ok, not_ready];
    assert(evs.drop_first() =~= seq![transfer_ok, not_ready]);
    assert(evs.drop_first().drop_first() =~= seq![not_ready]);
    assert(evs.drop_first().drop_first().drop_first() =~= Seq::<Event>::empty());
    let actions = spec_run(Phase::AwaitFirstReady, evs);
    assert(actions =~= seq![
        Action::TransferEmpty,
        Action::WaitReady { timeout_ms: RETRY_READY_TIMEOUT_MS },
        Action::Finish { outcome: CycleOutcome::SkippedUnresponsive },
    ]);
    assert(actions.drop_first() =~= seq![
        Action::WaitReady { timeout_ms: RETRY_READY_TIMEOUT_MS },
        Action::Finish { outcome: CycleOutcome::SkippedUnresponsive },
    ]);
    assert(actions.drop_first().drop_first() =~= seq![
        Action::Finish { outcome: CycleOutcome::SkippedUnresponsive },
    ]);
    assert(actions.drop_first().drop_first().drop_first() =~= Seq::<Action>::empty());
}

/// Against a peripheral that asserts ready only after the recovery
/// transfer, exactly one recovery transfer (the all-zero buffer) is
/// sent before the main payload, and the cycle then completes: the
/// frame is transferred and applied.
pub proof fn lemma_ready_after_recover_cycle()
    ensures
        ({
            let actions = spec_run(Phase::AwaitFirstReady, ready_after_recover_events());
            &&& actions =~= seq![
                Action::TransferEmpty,
                Action::WaitReady { timeout_ms: RETRY_READY_TIMEOUT_MS },
                Action::SendCommand { cmd: CMD_UPDATE_LEDS },
                Action::Settle { micros: SETTLE_DELAY_US },
                Action::Encode,
                Action::TransferFrame,
                Action::Settle { micros: SETTLE_DELAY_US },
                Action::WaitReady { timeout_ms: RETRY_READY_TIMEOUT_MS },
                Action::SendCommand { cmd: CMD_APPLY_LEDS },
                Action::Finish { outcome: CycleOutcome::Sent },
            ]
            &&& recover_count(actions) == 1
            &&& actions[0] is TransferEmpty
            &&& actions[5] is TransferFrame
            &&& forall|i: int|
                0 < i < actions.len() ==> !((#[trigger] actions[i]) is TransferEmpty)
        }),
{
    let evs = ready_after_recover_events();
    let actions = spec_run(Phase::AwaitFirstReady, evs);
    assert(actions =~= seq![
        Action::TransferEmpty,
        Action::WaitReady { timeout_ms: RETRY_READY_TIMEOUT_MS },
        Action::SendCommand { cmd: CMD_UPDATE_LEDS },
        Action::Settle { micros: SETTLE_DELAY_US },
        Action::Encode,
        Action::TransferFrame,
        Action::Settle { micros: SETTLE_DELAY_US },
        Action::WaitReady { timeout_ms: RETRY_READY_TIMEOUT_MS },
        Action::SendCommand { cmd: CMD_APPLY_LEDS },
        Action::Finish { outcome: CycleOutcome::Sent },
    ]) by {
        lemma_run_step_by_step();
    }
    lemma_recover_counts(actions);
}

/// The caller's observations in the recover-then-ready scenario: the
/// first wait times out with the line low, every transfer and command
/// goes through, and every later wait sees the line ready.
pub open spec fn ready_after_recover_events() -> Seq<Event> {
    seq![
        Event::ReadyWait { edge: false, level_high: false },
        Event::Transfer { ok: true, broken_pipe: false },
        Event::ReadyWait { edge: true, level_high: true },
        Event::Command { ok: true, broken_pipe: false, ack: ACK_OK },
        Event::Elapsed,
        Event::Encoded,
        Event::Transfer { ok: true, broken_pipe: false },
        Event::Elapsed,
        Event::ReadyWait { edge: true, level_high: true },
        Event::Command { ok: true, broken_pipe: false, ack: ACK_OK },
    ]
}

proof fn lemma_run_step_by_step()
    ensures
        spec_run(Phase::AwaitFirstReady, ready_after_recover_events()) =~= seq![
            Action::TransferEmpty,
            Action::WaitReady { timeout_ms: RETRY_READY_TIMEOUT_MS },
            Action::SendCommand { cmd: CMD_UPDATE_LEDS },
            Action::Settle { micros: SETTLE_DELAY_US },
            Action::Encode,
            Action::TransferFrame,
            Action::Settle { micros: SETTLE_DELAY_US },
            Action::WaitReady { timeout_ms: RETRY_READY_TIMEOUT_MS },
            Action::SendCommand { cmd: CMD_APPLY_LEDS },
            Action::Finish { outcome: CycleOutcome::Sent },
        ],
{
    reveal_with_fuel(spec_run, 12);
    let evs = ready_after_recover_events();
    assert(evs.drop_first() =~= evs.subrange(1, 10));
    assert(evs.subrange(1, 10).drop_first() =~= evs.subrange(2, 10));
    assert(evs.subrange(2, 10).drop_first() =~= evs.subrange(3, 10));
    assert(evs.subrange(3, 10).drop_first() =~= evs.subrange(4, 10));
    assert(evs.subrange(4, 10).drop_first() =~= evs.subrange(5, 10));
    assert(evs.subrange(5, 10).drop_first() =~= evs.subrange(6, 10));
    assert(evs.subrange(6, 10).drop_first() =~= evs.subrange(7, 10));
    assert(evs.subrange(7, 10).drop_first() =~= evs.subrange(8, 10));
    assert(evs.subrange(8, 10).drop_first() =~= evs.subrange(9, 10));
    assert(evs.subrange(9, 10).drop_first() =~= Seq::<Event>::empty());
}

proof fn lemma_recover_counts(actions: Seq<Action>)
    requires
        actions.len() == 10,
        actions[0] is TransferEmpty,
        forall|i: int| 0 < i < actions.len() ==> !((#[trigger] actions[i]) is TransferEmpty),
    ensures
        recover_count(actions) == 1,
{
    lemma_recover_count_none(actions.drop_first());
    assert(recover_count(actions) == 1 + recover_count(actions.drop_first()));
}

proof fn lemma_recover_count_none(actions: Seq<Action>)
    requires
        forall|i: int| 0 <= i < actions.len() ==> !((#[trigger] actions[i]) is TransferEmpty),
    ensures
        recover_count(actions) == 0,
    decreases actions.len(),
{
    if actions.len() == 0 {
    } else {
        lemma_recover_count_none(actions.drop_first());
    }
}

} // verus!
