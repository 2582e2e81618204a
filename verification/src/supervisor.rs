//! The per-device connection supervisor.
//!
//! One supervisor owns one device's configuration and serial connection and
//! drives the open → read → dispatch loop forever. The runtime performs each
//! `SupervisorAction` (the I/O and the backoff sleep) and reports the outcome
//! back as a `SerialEvent`; `handle_event` takes every decision. Any open or
//! read failure is answered with one backoff sleep and then a fresh open
//! attempt — retries are unbounded, and no failure of one device ever
//! reaches another device's supervisor.

use vstd::prelude::*;
use crate::config::SerialDeviceConfig;
use crate::dispatch::{dispatch, dispatch_post, DispatchDecision};
use crate::serial::SerialConnection;

verus! {

/// Seconds slept between a failed attempt and the next retry.
pub const BACKOFF_SECONDS: u64 = 5;

/// Where the supervisor stands in its open → read → fail → retry cycle.
#[derive(Copy, Clone, PartialEq, Eq, Structural, Debug)]
pub enum SupervisorPhase {
    /// No live port; the next step is an open attempt (after any backoff).
    Disconnected,
    /// An open attempt is under way.
    Connecting,
    /// The port is live; the supervisor reads and dispatches.
    Connected,
}

/// What the runtime reports back after performing an action.
pub enum SerialEvent {
    /// The port is open (a fresh open succeeded, or the held handle was live).
    OpenSucceeded,
    /// The open attempt failed (missing device, permission, busy, parameters).
    OpenFailed,
    /// One read completed, yielding `payload` — possibly empty, never framed.
    ReadSucceeded { payload: Vec<u8> },
    /// The read failed at the hardware level; the handle is stale.
    ReadFailed,
    /// The backoff sleep after a failure has elapsed.
    BackoffElapsed,
    /// The dispatch decision has been acted on.
    DispatchCompleted,
}

/// What the supervisor asks the runtime to do next.
pub enum SupervisorAction {
    /// Probe the held handle and open the port if required.
    EnsureOpen,
    /// Perform one read on the open port.
    ReadPort,
    /// Act on the routing decision for one payload.
    Dispatch { decision: DispatchDecision },
    /// Sleep one backoff interval.
    Backoff,
}

/// The events the supervisor answers with a fresh open attempt.
pub open spec fn emits_open_attempt(event: SerialEvent) -> bool {
    event is BackoffElapsed || event is DispatchCompleted
}

/// The failure events the supervisor answers with a backoff sleep.
pub open spec fn emits_backoff(event: SerialEvent) -> bool {
    event is OpenFailed || event is ReadFailed
}

/// The per-device control loop: the device's configuration, its exclusively
/// owned serial connection, and the phase of the cycle.
pub struct Supervisor {
    pub config: SerialDeviceConfig,
    pub connection: SerialConnection,
    pub phase: SupervisorPhase,
}

impl Supervisor {
    /// The connection belongs to the configured device: same port path and
    /// baud rate.
    pub open spec fn wf(self) -> bool {
        &&& self.connection.device_path@ == self.config.port@
        &&& self.connection.baud_rate == self.config.baud_rate
    }

    /// A supervisor starts disconnected, with a closed connection on the
    /// device's configured port and baud rate.
    pub fn new(config: SerialDeviceConfig) -> (sup: Supervisor)
        ensures
            sup.config == config,
            !sup.connection.open,
            sup.phase is Disconnected,
            sup.wf(),
    {
        let connection = SerialConnection::new(config.port.as_str(), config.baud_rate);
        Supervisor { config, connection, phase: SupervisorPhase::Disconnected }
    }

    /// The first step of the loop: ensure the port is open.
    pub fn initial_action(&self) -> (action: SupervisorAction)
        ensures
            action is EnsureOpen,
    {
        SupervisorAction::EnsureOpen
    }

    /// Takes the one decision of each loop step: given the outcome of the
    /// previous action, move the state machine and say what to do next.
    ///
    /// A successful open leads to a read; a successful read leads to the
    /// dispatch decision for its payload; a completed dispatch and an elapsed
    /// backoff both lead back to `EnsureOpen`; every failure closes the
    /// connection and is answered with exactly one backoff sleep.
    pub fn handle_event(&mut self, event: SerialEvent) -> (action: SupervisorAction)
        ensures
            final(self).config == old(self).config,
            final(self).connection.device_path@ == old(self).connection.device_path@,
            final(self).connection.baud_rate == old(self).connection.baud_rate,
            old(self).wf() ==> final(self).wf(),
            event is OpenSucceeded ==> final(self).phase is Connected
                && final(self).connection.open && action is ReadPort,
            event is OpenFailed ==> final(self).phase is Disconnected
                && !final(self).connection.open && action is Backoff,
            (event matches SerialEvent::ReadSucceeded { payload } ==> final(self).phase
                is Connected && final(self).connection.open == old(self).connection.open
                && (action matches SupervisorAction::Dispatch { decision }
                && dispatch_post(old(self).config@, payload@, decision))),
            event is ReadFailed ==> final(self).phase is Disconnected
                && !final(self).connection.open && action is Backoff,
            event is BackoffElapsed ==> final(self).phase is Connecting
                && final(self).connection == old(self).connection && action is EnsureOpen,
            event is DispatchCompleted ==> final(self).phase == old(self).phase
                && final(self).connection == old(self).connection && action is EnsureOpen,
            action is EnsureOpen <==> emits_open_attempt(event),
            action is Backoff <==> emits_backoff(event),
    {
        match event {
            SerialEvent::OpenSucceeded => {
                self.connection.record_open_result(true);
                self.phase = SupervisorPhase::Connected;
                SupervisorAction::ReadPort
            },
            SerialEvent::OpenFailed => {
                self.connection.record_open_result(false);
                self.phase = SupervisorPhase::Disconnected;
                SupervisorAction::Backoff
            },
            SerialEvent::ReadSucceeded { payload } => {
                self.connection.record_read_result(true);
                self.phase = SupervisorPhase::Connected;
                let decision = dispatch(&self.config, payload);
                SupervisorAction::Dispatch { decision }
            },
            SerialEvent::ReadFailed => {
                self.connection.record_read_result(false);
                self.phase = SupervisorPhase::Disconnected;
                SupervisorAction::Backoff
            },
            SerialEvent::BackoffElapsed => {
                self.phase = SupervisorPhase::Connecting;
                SupervisorAction::EnsureOpen
            },
            SerialEvent::DispatchCompleted => { SupervisorAction::EnsureOpen },
        }
    }
}

/// The events seen by a supervisor whose open attempts fail `failures`
/// times and then succeed: each failure is followed by the elapse of its
/// backoff sleep, after which the supervisor makes the next attempt.
pub open spec fn retry_events(failures: nat) -> Seq<SerialEvent>
    decreases failures,
{
    if failures == 0 {
        seq![SerialEvent::OpenSucceeded]
    } else {
        seq![SerialEvent::OpenFailed, SerialEvent::BackoffElapsed] + retry_events(
            (failures - 1) as nat,
        )
    }
}

/// How many events in `events` the supervisor answers with a fresh open
/// attempt.
pub open spec fn open_attempt_count(events: Seq<SerialEvent>) -> nat
    decreases events.len(),
{
    if events.len() == 0 {
        0
    } else {
        (if emits_open_attempt(events[0]) {
            1nat
        } else {
            0nat
        }) + open_attempt_count(events.skip(1))
    }
}

proof fn lemma_open_attempt_count_concat(a: Seq<SerialEvent>, b: Seq<SerialEvent>)
    ensures
        open_attempt_count(a + b) == open_attempt_count(a) + open_attempt_count(b),
    decreases a.len(),
{
    if a.len() == 0 {
        assert(a + b =~= b);
    } else {
        assert((a + b).skip(1) =~= a.skip(1) + b);
        lemma_open_attempt_count_concat(a.skip(1), b);
    }
}

/// A serial connection whose open fails `failures` consecutive times and
/// then succeeds costs the supervisor exactly `failures + 1` open attempts:
/// the initial attempt, plus one per elapsed backoff sleep.
pub proof fn lemma_retry_until_success_attempts(failures: nat)
    ensures
        1 + open_attempt_count(retry_events(failures)) == failures + 1,
    decreases failures,
{
    let events = retry_events(failures);
    assert(open_attempt_count(Seq::<SerialEvent>::empty()) == 0);
    if failures == 0 {
        assert(events.skip(1) =~= Seq::<SerialEvent>::empty());
        assert(open_attempt_count(events) == 0);
    } else {
        let prefix = seq![SerialEvent::OpenFailed, SerialEvent::BackoffElapsed];
        lemma_open_attempt_count_concat(prefix, retry_events((failures - 1) as nat));
        lemma_retry_until_success_attempts((failures - 1) as nat);
        let tail = seq![SerialEvent::BackoffElapsed];
        assert(tail.skip(1) =~= Seq::<SerialEvent>::empty());
        assert(open_attempt_count(tail) == 1);
        assert(prefix.skip(1) =~= tail);
        assert(open_attempt_count(prefix) == 1);
    }
}

/// In a retry run of `failures` failed attempts, every failure stands at an
/// even index and is answered with a backoff sleep, the event right after it
/// is the elapse of that sleep — answered with the next open attempt — and
/// the run ends with the successful open: a backoff-interval delay stands
/// between each failed attempt and the next.
pub proof fn lemma_backoff_between_attempts(failures: nat)
    ensures
        retry_events(failures).len() == 2 * failures + 1,
        forall|k: int|
            0 <= k < failures ==> emits_backoff(#[trigger] retry_events(failures)[2 * k])
                && emits_open_attempt(retry_events(failures)[2 * k + 1]),
        retry_events(failures)[2 * failures as int] is OpenSucceeded,
    decreases failures,
{
    if failures == 0 {
    } else {
        let prefix = seq![SerialEvent::OpenFailed, SerialEvent::BackoffElapsed];
        let rest = retry_events((failures - 1) as nat);
        lemma_backoff_between_attempts((failures - 1) as nat);
        assert forall|k: int|
            0 <= k < failures implies emits_backoff(
            #[trigger] retry_events(failures)[2 * k],
        ) && emits_open_attempt(retry_events(failures)[2 * k + 1]) by {
            if k == 0 {
                assert(retry_events(failures)[0] == prefix[0]);
                assert(retry_events(failures)[1] == prefix[1]);
            } else {
                assert(retry_events(failures)[2 * k] == rest[2 * (k - 1)]);
                assert(retry_events(failures)[2 * k + 1] == rest[2 * (k - 1) + 1]);
            }
        }
        assert(retry_events(failures)[2 * failures as int] == rest[2 * (failures - 1)]);
    }
}

} // verus!
