//! The decisions of the broadcast engine: which commands a worker obeys, how long
//! it waits before reconnecting, what becomes of an interrupted track, and when
//! the manager accepts a start, skip or microphone request.
use vstd::prelude::*;
use vstd::string::StringExecFns;

use crate::broadcast::preflight::BroadcastPreflight;
use crate::text::{decimal, decimal_string, lit, trim, trim_spec};

verus! {

/// A request sent from the UI to the running worker.
#[derive(Debug, Clone, Copy, PartialEq, Eq)]
pub enum WorkerCommand {
    Stop,
    Skip,
    SetMicrophoneLive(bool),
}

/// What a poll of the command channel yields.
#[derive(Debug, Clone, Copy, PartialEq, Eq)]
pub enum ReceivedCommand {
    Command(WorkerCommand),
    /// Nothing is waiting.
    Empty,
    /// The manager dropped its end of the channel.
    Disconnected,
}

/// What the worker must do after draining its commands.
#[derive(Debug, Clone, Copy, PartialEq, Eq)]
pub enum WorkerAction {
    /// Keep playing.
    Proceed,
    Stop,
    Skip,
}

/// One step of draining the command channel.
#[derive(Debug, Clone, Copy, PartialEq, Eq)]
pub enum PollStep {
    /// Stop draining; this is the action.
    Finish(WorkerAction),
    /// Keep draining with this action so far; apply the microphone request if any.
    Continue(WorkerAction, Option<bool>),
}

/// Folds one received command into the action gathered so far: a stop request
/// or a closed channel stops at once, a skip is remembered, a microphone request
/// is passed on, and an empty channel ends the poll.
pub fn poll_step(action: WorkerAction, received: ReceivedCommand) -> (r: PollStep)
    ensures
        received == ReceivedCommand::Command(WorkerCommand::Stop) ==> r == PollStep::Finish(
            WorkerAction::Stop,
        ),
        received == ReceivedCommand::Disconnected ==> r == PollStep::Finish(WorkerAction::Stop),
        received == ReceivedCommand::Empty ==> r == PollStep::Finish(action),
        received == ReceivedCommand::Command(WorkerCommand::Skip) ==> r == PollStep::Continue(
            WorkerAction::Skip,
            None,
        ),
        forall|live: bool|
            received == ReceivedCommand::Command(WorkerCommand::SetMicrophoneLive(live)) ==> r
                == PollStep::Continue(action, Some(live)),
{
    match received {
        ReceivedCommand::Command(WorkerCommand::Stop) => PollStep::Finish(WorkerAction::Stop),
        ReceivedCommand::Disconnected => PollStep::Finish(WorkerAction::Stop),
        ReceivedCommand::Command(WorkerCommand::Skip) => PollStep::Continue(
            WorkerAction::Skip,
            None,
        ),
        ReceivedCommand::Command(WorkerCommand::SetMicrophoneLive(live)) => PollStep::Continue(
            action,
            Some(live),
        ),
        ReceivedCommand::Empty => PollStep::Finish(action),
    }
}

/// The action of draining a whole queue of commands, ending with an empty
/// channel or the first stop.
pub open spec fn drained_action(received: Seq<ReceivedCommand>, action: WorkerAction) -> WorkerAction
    decreases received.len(),
{
    if received.len() == 0 {
        action
    } else {
        match received[0] {
            ReceivedCommand::Command(WorkerCommand::Stop) => WorkerAction::Stop,
            ReceivedCommand::Disconnected => WorkerAction::Stop,
            ReceivedCommand::Empty => action,
            ReceivedCommand::Command(WorkerCommand::Skip) => drained_action(
                received.drop_first(),
                WorkerAction::Skip,
            ),
            ReceivedCommand::Command(WorkerCommand::SetMicrophoneLive(_)) => drained_action(
                received.drop_first(),
                action,
            ),
        }
    }
}

/// A stop request is never lost: once one is received, the poll ends in a stop,
/// whatever was received before it.
pub proof fn lemma_stop_wins(before: Seq<ReceivedCommand>, after: Seq<ReceivedCommand>, action: WorkerAction)
    requires
        forall|i: int|
            0 <= i < before.len() ==> #[trigger] before[i] != ReceivedCommand::Empty
                && before[i] != ReceivedCommand::Disconnected,
    ensures
        drained_action(
            before + seq![ReceivedCommand::Command(WorkerCommand::Stop)] + after,
            action,
        ) == WorkerAction::Stop,
    decreases before.len(),
{
    let all = before + seq![ReceivedCommand::Command(WorkerCommand::Stop)] + after;
    if before.len() > 0 {
        assert(all.drop_first() =~= before.drop_first() + seq![
            ReceivedCommand::Command(WorkerCommand::Stop),
        ] + after);
        match before[0] {
            ReceivedCommand::Command(WorkerCommand::Skip) => {
                lemma_stop_wins(before.drop_first(), after, WorkerAction::Skip);
            },
            _ => {
                lemma_stop_wins(before.drop_first(), after, action);
            },
        }
    }
}

/// `2^min(attempt, 3)` seconds, within 1 to 15.
pub open spec fn reconnect_delay_spec(attempt: u32) -> u64 {
    if attempt == 0 {
        1
    } else if attempt == 1 {
        2
    } else if attempt == 2 {
        4
    } else {
        8
    }
}

/// Seconds to wait before the next reconnection attempt: doubling from one
/// second and capped at eight.
pub fn reconnect_delay_seconds(attempt: u32) -> (r: u64)
    ensures
        r == reconnect_delay_spec(attempt),
        1 <= r <= 15,
{
    let exponent = if attempt < 3 {
        attempt
    } else {
        3
    };
    let mut seconds: u64 = 1;
    let mut k: u32 = 0;
    while k < exponent
        invariant
            k <= exponent <= 3,
            exponent == (if attempt < 3 {
                attempt
            } else {
                3
            }),
            seconds == (if k == 0 {
                1u64
            } else if k == 1 {
                2
            } else if k == 2 {
                4
            } else {
                8
            }),
        decreases exponent - k,
    {
        seconds = seconds * 2;
        k = k + 1;
    }
    if seconds < 1 {
        1
    } else if seconds > 15 {
        15
    } else {
        seconds
    }
}

/// The wait never shrinks as failures accumulate.
pub proof fn lemma_reconnect_delay_monotonic(a: u32, b: u32)
    requires
        a <= b,
    ensures
        reconnect_delay_spec(a) <= reconnect_delay_spec(b),
{
}

/// The status message while waiting to reconnect.
pub fn reconnect_message(seconds: u64, reason: &str) -> (r: String)
    ensures
        r@ == "Icecast desconectado. Reintentando en "@ + decimal(seconds as nat) + "s: "@
            + reason@,
{
    lit("Icecast desconectado. Reintentando en ").concat(decimal_string(seconds).as_str()).concat(
        "s: ",
    ).concat(reason)
}

/// Where the broadcast worker's main loop stands.
#[derive(Debug, Clone, Copy, PartialEq, Eq)]
pub enum LoopPhase {
    /// About to drain the command channel.
    Polling,
    /// About to start the FFmpeg publisher.
    Connecting,
    /// About to play the next queue entry, or a silence chunk when the queue is
    /// empty.
    Serving,
    /// Waiting before the next connection attempt.
    Waiting,
    /// The loop has ended.
    Finished,
}

/// The state of the worker loop: its phase, whether a publisher is connected,
/// and how many connection failures came in a row.
#[derive(Debug, Clone, Copy, PartialEq, Eq)]
pub struct WorkerLoop {
    pub phase: LoopPhase,
    pub connected: bool,
    pub reconnect_attempt: u32,
}

/// How serving one entry or one silence chunk ended.
#[derive(Debug, Clone, Copy, PartialEq, Eq)]
pub enum ServeOutcome {
    /// The entry played, was skipped or failed, or the silence chunk was sent.
    Continue,
    /// The operator stopped the radio while an entry played.
    Stop,
    /// Writing to the publisher failed.
    PublisherFailed,
    /// The queue could not be read.
    QueueError,
}

/// What the loop's last action came back with.
#[derive(Debug, Clone, Copy, PartialEq, Eq)]
pub enum LoopEvent {
    /// The command channel was drained with this result.
    Polled(WorkerAction),
    /// The publisher started.
    Connected,
    /// The publisher could not be started.
    ConnectFailed,
    /// Serving ended this way.
    Served(ServeOutcome),
    /// The wait before reconnecting ended: `false` when a stop came meanwhile.
    WaitEnded(bool),
}

/// What the loop asks its runner to do next.
#[derive(Debug, Clone, Copy, PartialEq, Eq)]
pub enum LoopAction {
    /// Drain the command channel.
    PollCommands,
    /// Start the publisher.
    SpawnPublisher,
    /// Play the next queue entry or send silence; first report the radio live
    /// when `announce_live` is set.
    Serve { announce_live: bool },
    /// Drop the publisher when `drop_publisher` is set, report the reconnection
    /// and wait `seconds`, draining commands `polls` times meanwhile.
    Reconnect { seconds: u64, polls: u64, drop_publisher: bool },
    /// Log the queue error, pause half a second, then drain the commands.
    PauseThenPoll,
    /// Stop the publisher and the microphone and report the radio stopped.
    Shutdown,
}

/// The loop when it starts: nothing connected, no failure yet.
pub open spec fn loop_start_spec() -> WorkerLoop {
    WorkerLoop { phase: LoopPhase::Polling, connected: false, reconnect_attempt: 0 }
}

/// The action a phase asks for.
pub open spec fn phase_action(s: WorkerLoop) -> LoopAction {
    match s.phase {
        LoopPhase::Polling => LoopAction::PollCommands,
        LoopPhase::Connecting => LoopAction::SpawnPublisher,
        LoopPhase::Serving => LoopAction::Serve { announce_live: false },
        LoopPhase::Waiting => LoopAction::Reconnect {
            seconds: reconnect_delay_spec(s.reconnect_attempt),
            polls: (reconnect_delay_spec(s.reconnect_attempt) * 4) as u64,
            drop_publisher: false,
        },
        LoopPhase::Finished => LoopAction::Shutdown,
    }
}

/// One more failure in a row, counted without overflow.
pub open spec fn next_attempt(attempt: u32) -> u32 {
    if attempt == u32::MAX {
        attempt
    } else {
        (attempt + 1) as u32
    }
}

/// A failure: the publisher is gone and the loop waits before reconnecting.
pub open spec fn after_failure(s: WorkerLoop, drop_publisher: bool) -> (WorkerLoop, LoopAction) {
    let attempt = next_attempt(s.reconnect_attempt);
    (
        WorkerLoop { phase: LoopPhase::Waiting, connected: false, reconnect_attempt: attempt },
        LoopAction::Reconnect {
            seconds: reconnect_delay_spec(attempt),
            polls: (reconnect_delay_spec(attempt) * 4) as u64,
            drop_publisher,
        },
    )
}

/// The transitions of the worker loop. An event that does not answer the
/// phase's action changes nothing and the action is asked again.
pub open spec fn loop_step_spec(s: WorkerLoop, e: LoopEvent) -> (WorkerLoop, LoopAction) {
    match (s.phase, e) {
        (LoopPhase::Polling, LoopEvent::Polled(WorkerAction::Stop)) => (
            WorkerLoop { phase: LoopPhase::Finished, ..s },
            LoopAction::Shutdown,
        ),
        (LoopPhase::Polling, LoopEvent::Polled(_)) => if s.connected {
            (WorkerLoop { phase: LoopPhase::Serving, ..s }, LoopAction::Serve { announce_live: false })
        } else {
            (WorkerLoop { phase: LoopPhase::Connecting, ..s }, LoopAction::SpawnPublisher)
        },
        (LoopPhase::Connecting, LoopEvent::Connected) => (
            WorkerLoop { phase: LoopPhase::Serving, connected: true, reconnect_attempt: 0 },
            LoopAction::Serve { announce_live: true },
        ),
        (LoopPhase::Connecting, LoopEvent::ConnectFailed) => after_failure(s, false),
        (LoopPhase::Serving, LoopEvent::Served(ServeOutcome::Continue)) => (
            WorkerLoop { phase: LoopPhase::Polling, ..s },
            LoopAction::PollCommands,
        ),
        (LoopPhase::Serving, LoopEvent::Served(ServeOutcome::Stop)) => (
            WorkerLoop { phase: LoopPhase::Finished, ..s },
            LoopAction::Shutdown,
        ),
        (LoopPhase::Serving, LoopEvent::Served(ServeOutcome::PublisherFailed)) => after_failure(s, true),
        (LoopPhase::Serving, LoopEvent::Served(ServeOutcome::QueueError)) => (
            WorkerLoop { phase: LoopPhase::Polling, ..s },
            LoopAction::PauseThenPoll,
        ),
        (LoopPhase::Waiting, LoopEvent::WaitEnded(true)) => (
            WorkerLoop { phase: LoopPhase::Polling, ..s },
            LoopAction::PollCommands,
        ),
        (LoopPhase::Waiting, LoopEvent::WaitEnded(false)) => (
            WorkerLoop { phase: LoopPhase::Finished, ..s },
            LoopAction::Shutdown,
        ),
        _ => (s, phase_action(s)),
    }
}

/// The loop's invariant: it serves only with a connected publisher, and it
/// connects or waits only without one.
pub open spec fn loop_wf(s: WorkerLoop) -> bool {
    &&& s.phase == LoopPhase::Serving ==> s.connected
    &&& (s.phase == LoopPhase::Connecting || s.phase == LoopPhase::Waiting) ==> !s.connected
}

impl WorkerLoop {
    /// The loop when the worker starts, with its first action.
    pub fn start() -> (r: (WorkerLoop, LoopAction))
        ensures
            r.0 == loop_start_spec(),
            r.1 == LoopAction::PollCommands,
            loop_wf(r.0),
    {
        (WorkerLoop { phase: LoopPhase::Polling, connected: false, reconnect_attempt: 0 }, LoopAction::PollCommands)
    }

    fn failure(self, drop_publisher: bool) -> (r: (WorkerLoop, LoopAction))
        ensures
            r == after_failure(self, drop_publisher),
    {
        let attempt = self.reconnect_attempt.saturating_add(1);
        let seconds = reconnect_delay_seconds(attempt);
        (
            WorkerLoop { phase: LoopPhase::Waiting, connected: false, reconnect_attempt: attempt },
            LoopAction::Reconnect { seconds, polls: seconds * 4, drop_publisher },
        )
    }

    /// Takes the outcome of the last action and gives the next state and action.
    pub fn step(self, event: LoopEvent) -> (r: (WorkerLoop, LoopAction))
        ensures
            r == loop_step_spec(self, event),
            loop_wf(self) ==> loop_wf(r.0),
    {
        match (self.phase, event) {
            (LoopPhase::Polling, LoopEvent::Polled(WorkerAction::Stop)) => (
                WorkerLoop { phase: LoopPhase::Finished, ..self },
                LoopAction::Shutdown,
            ),
            (LoopPhase::Polling, LoopEvent::Polled(_)) => if self.connected {
                (WorkerLoop { phase: LoopPhase::Serving, ..self }, LoopAction::Serve { announce_live: false })
            } else {
                (WorkerLoop { phase: LoopPhase::Connecting, ..self }, LoopAction::SpawnPublisher)
            },
            (LoopPhase::Connecting, LoopEvent::Connected) => (
                WorkerLoop { phase: LoopPhase::Serving, connected: true, reconnect_attempt: 0 },
                LoopAction::Serve { announce_live: true },
            ),
            (LoopPhase::Connecting, LoopEvent::ConnectFailed) => self.failure(false),
            (LoopPhase::Serving, LoopEvent::Served(ServeOutcome::Continue)) => (
                WorkerLoop { phase: LoopPhase::Polling, ..self },
                LoopAction::PollCommands,
            ),
            (LoopPhase::Serving, LoopEvent::Served(ServeOutcome::Stop)) => (
                WorkerLoop { phase: LoopPhase::Finished, ..self },
                LoopAction::Shutdown,
            ),
            (LoopPhase::Serving, LoopEvent::Served(ServeOutcome::PublisherFailed)) => self.failure(true),
            (LoopPhase::Serving, LoopEvent::Served(ServeOutcome::QueueError)) => (
                WorkerLoop { phase: LoopPhase::Polling, ..self },
                LoopAction::PauseThenPoll,
            ),
            (LoopPhase::Waiting, LoopEvent::WaitEnded(true)) => (
                WorkerLoop { phase: LoopPhase::Polling, ..self },
                LoopAction::PollCommands,
            ),
            (LoopPhase::Waiting, LoopEvent::WaitEnded(false)) => (
                WorkerLoop { phase: LoopPhase::Finished, ..self },
                LoopAction::Shutdown,
            ),
            _ => {
                let seconds = reconnect_delay_seconds(self.reconnect_attempt);
                let action = match self.phase {
                    LoopPhase::Polling => LoopAction::PollCommands,
                    LoopPhase::Connecting => LoopAction::SpawnPublisher,
                    LoopPhase::Serving => LoopAction::Serve { announce_live: false },
                    LoopPhase::Waiting => LoopAction::Reconnect { seconds, polls: seconds * 4, drop_publisher: false },
                    LoopPhase::Finished => LoopAction::Shutdown,
                };
                (self, action)
            },
        }
    }
}

/// A stopped loop stays stopped: whatever comes back, it asks for nothing but
/// the shutdown.
pub proof fn lemma_finished_is_final(s: WorkerLoop, e: LoopEvent)
    requires
        s.phase == LoopPhase::Finished,
    ensures
        loop_step_spec(s, e).0 == s,
        loop_step_spec(s, e).1 == LoopAction::Shutdown,
{
}

/// A stop drained from the channel ends the loop at once.
pub proof fn lemma_polled_stop_finishes(s: WorkerLoop)
    requires
        s.phase == LoopPhase::Polling,
    ensures
        loop_step_spec(s, LoopEvent::Polled(WorkerAction::Stop)).0.phase == LoopPhase::Finished,
        loop_step_spec(s, LoopEvent::Polled(WorkerAction::Stop)).1 == LoopAction::Shutdown,
{
}

/// A successful connection clears the failure count: the next broken connection
/// waits two seconds again, as the first failure did.
pub proof fn lemma_connection_resets_backoff(s: WorkerLoop)
    requires
        s.phase == LoopPhase::Connecting,
    ensures
        loop_step_spec(s, LoopEvent::Connected).0.reconnect_attempt == 0,
        loop_step_spec(s, LoopEvent::Connected).0.connected,
        loop_step_spec(loop_step_spec(s, LoopEvent::Connected).0, LoopEvent::Served(
            ServeOutcome::PublisherFailed,
        )).1 == (LoopAction::Reconnect { seconds: 2, polls: 8, drop_publisher: true }),
{
}

/// Each failure in a row waits at least as long as the one before.
pub proof fn lemma_failures_never_shorten_the_wait(s: WorkerLoop, drop_publisher: bool)
    ensures
        reconnect_delay_spec(s.reconnect_attempt) <= reconnect_delay_spec(
            after_failure(s, drop_publisher).0.reconnect_attempt,
        ),
{
    lemma_reconnect_delay_monotonic(s.reconnect_attempt, next_attempt(s.reconnect_attempt));
}

/// Icecast keeps one continuous source connection: while the publisher is
/// connected, no step asks for a new one.
pub proof fn lemma_connected_publisher_is_kept(s: WorkerLoop, e: LoopEvent)
    requires
        loop_wf(s),
        s.connected,
    ensures
        loop_step_spec(s, e).1 != LoopAction::SpawnPublisher,
{
}

/// How each end of a playback comes about: it plays only when the decoder, at
/// the end of its stream, exits successfully; it is skipped or stopped only by
/// the command drained between chunks; a broken publisher only by a failed
/// write; a decoder failure only by a failed read or a failed exit.
pub proof fn lemma_playback_ends(p: PlaybackPhase, e: PlaybackEvent)
    requires
        !(p is Done),
    ensures
        playback_step_spec(p, e).0 == PlaybackPhase::Done(PlayEnd::Played) ==> p
            == PlaybackPhase::Exiting && e == PlaybackEvent::Exited(true),
        playback_step_spec(p, e).0 == PlaybackPhase::Done(PlayEnd::Skipped) ==> p
            == PlaybackPhase::Polling && e == PlaybackEvent::Polled(WorkerAction::Skip),
        playback_step_spec(p, e).0 == PlaybackPhase::Done(PlayEnd::Stopped) ==> p
            == PlaybackPhase::Polling && e == PlaybackEvent::Polled(WorkerAction::Stop),
        playback_step_spec(p, e).0 == PlaybackPhase::Done(PlayEnd::PublisherFailed) ==> (p is Writing
            && e == PlaybackEvent::Written(false)),
        playback_step_spec(p, e).0 == PlaybackPhase::Done(PlayEnd::DecoderFailed) ==> ((p
            == PlaybackPhase::Reading && e == PlaybackEvent::ReadFailed) || (p
            == PlaybackPhase::Exiting && e == PlaybackEvent::Exited(false))),
        p == PlaybackPhase::Reading ==> (playback_step_spec(p, PlaybackEvent::Read(0)).0
            == PlaybackPhase::Exiting),
        forall|n: usize|
            n > 0 && p == PlaybackPhase::Reading ==> #[trigger] playback_step_spec(
                p,
                PlaybackEvent::Read(n),
            ).1 == PlaybackAction::Forward(n),
{
}

/// How the worker loop ends and connects: it finishes only on a stop (drained,
/// during playback, or while waiting to reconnect), and a successful connection
/// always serves next with the failure count cleared.
pub proof fn lemma_loop_finishes_only_on_stop(s: WorkerLoop, e: LoopEvent)
    requires
        s.phase != LoopPhase::Finished,
    ensures
        loop_step_spec(s, e).0.phase == LoopPhase::Finished ==> (e == LoopEvent::Polled(
            WorkerAction::Stop,
        ) || e == LoopEvent::Served(ServeOutcome::Stop) || e == LoopEvent::WaitEnded(false)),
        loop_step_spec(s, e).1 == LoopAction::Shutdown <==> loop_step_spec(s, e).0.phase
            == LoopPhase::Finished,
        s.phase == LoopPhase::Connecting && e == LoopEvent::Connected ==> loop_step_spec(s, e).0
            == (WorkerLoop { phase: LoopPhase::Serving, connected: true, reconnect_attempt: 0 }),
        s.phase == LoopPhase::Connecting && e == LoopEvent::ConnectFailed ==> {
            let n = loop_step_spec(s, e).0;
            &&& !n.connected
            &&& n.reconnect_attempt >= s.reconnect_attempt
            &&& (s.reconnect_attempt < u32::MAX ==> n.reconnect_attempt == s.reconnect_attempt + 1)
        },
{
}

/// How playing one queue entry ended.
#[derive(Debug, Clone, Copy, PartialEq, Eq)]
pub enum PlayEnd {
    /// The decoder reached the end and exited successfully.
    Played,
    /// The decoder could not be started, read, or exited with an error.
    DecoderFailed,
    /// The operator skipped the track.
    Skipped,
    /// The operator stopped the radio.
    Stopped,
    /// The connection to Icecast broke while the track played.
    PublisherFailed,
}

/// The queue status an entry is left in.
pub open spec fn entry_status_after_spec(end: PlayEnd) -> Seq<char> {
    match end {
        PlayEnd::Played => "played"@,
        PlayEnd::DecoderFailed => "failed"@,
        PlayEnd::Skipped => "skipped"@,
        PlayEnd::Stopped => "queued"@,
        PlayEnd::PublisherFailed => "queued"@,
    }
}

/// Only a track that played to its end is marked played; a decoder failure is
/// marked failed, a skip skipped, and an interrupted track is queued again.
pub proof fn lemma_entry_status_meanings(end: PlayEnd)
    ensures
        (entry_status_after_spec(end) == "played"@) <==> end == PlayEnd::Played,
        end == PlayEnd::DecoderFailed ==> entry_status_after_spec(end) == "failed"@,
        end == PlayEnd::Skipped ==> entry_status_after_spec(end) == "skipped"@,
        (entry_status_after_spec(end) == "queued"@) <==> (end == PlayEnd::Stopped || end
            == PlayEnd::PublisherFailed),
{
    reveal_strlit("played");
    reveal_strlit("failed");
    reveal_strlit("skipped");
    reveal_strlit("queued");
    assert("failed"@[0] != "played"@[0]);
    assert("skipped"@[0] != "played"@[0]);
    assert("queued"@[0] != "played"@[0]);
    assert("failed"@[0] != "queued"@[0]);
    assert("skipped"@[0] != "queued"@[0]);
    match end {
        PlayEnd::Played => {
            assert(entry_status_after_spec(end) == "played"@);
        },
        PlayEnd::DecoderFailed => {
            assert(entry_status_after_spec(end) == "failed"@);
            assert(entry_status_after_spec(end) != "played"@);
            assert(entry_status_after_spec(end) != "queued"@);
        },
        PlayEnd::Skipped => {
            assert(entry_status_after_spec(end) == "skipped"@);
            assert(entry_status_after_spec(end) != "played"@);
            assert(entry_status_after_spec(end) != "queued"@);
        },
        _ => {
            assert(entry_status_after_spec(end) == "queued"@);
            assert(entry_status_after_spec(end) != "played"@);
        },
    }
}

/// The queue status an entry takes when playing it ends: a track interrupted by a
/// stop or a broken Icecast connection goes back to the queue.
pub fn entry_status_after(end: PlayEnd) -> (r: String)
    ensures
        r@ == entry_status_after_spec(end),
        (r@ == "played"@) <==> end == PlayEnd::Played,
        end == PlayEnd::DecoderFailed ==> r@ == "failed"@,
        end == PlayEnd::Skipped ==> r@ == "skipped"@,
        (r@ == "queued"@) <==> (end == PlayEnd::Stopped || end == PlayEnd::PublisherFailed),
{
    proof {
        lemma_entry_status_meanings(end);
    }
    match end {
        PlayEnd::Played => lit("played"),
        PlayEnd::DecoderFailed => lit("failed"),
        PlayEnd::Skipped => lit("skipped"),
        PlayEnd::Stopped => lit("queued"),
        PlayEnd::PublisherFailed => lit("queued"),
    }
}

/// Where the playback of one queue entry stands.
#[derive(Debug, Clone, Copy, PartialEq, Eq)]
pub enum PlaybackPhase {
    /// About to drain the command channel.
    Polling,
    /// About to read decoded audio.
    Reading,
    /// About to mix and send the first `n` bytes read.
    Writing(usize),
    /// The decoder reached the end; about to wait for its exit.
    Exiting,
    /// Playback ended this way.
    Done(PlayEnd),
}

/// What the playback's last action came back with.
#[derive(Debug, Clone, Copy, PartialEq, Eq)]
pub enum PlaybackEvent {
    /// The command channel was drained with this result.
    Polled(WorkerAction),
    /// This many bytes were read; zero at the end of the stream.
    Read(usize),
    /// Reading the decoder's output failed.
    ReadFailed,
    /// The chunk was sent to the publisher, or not.
    Written(bool),
    /// The decoder exited, successfully or not.
    Exited(bool),
}

/// What the playback asks its runner to do next.
#[derive(Debug, Clone, Copy, PartialEq, Eq)]
pub enum PlaybackAction {
    /// Drain the command channel.
    Poll,
    /// Read the next chunk of decoded audio.
    Read,
    /// Mix the microphone into the first `n` bytes read and send them.
    Forward(usize),
    /// Wait for the decoder to exit.
    Wait,
    /// Stop the decoder if it runs and leave the entry in
    /// `entry_status_after_spec(end)`.
    Finish(PlayEnd),
}

/// The action a playback phase asks for.
pub open spec fn playback_phase_action(p: PlaybackPhase) -> PlaybackAction {
    match p {
        PlaybackPhase::Polling => PlaybackAction::Poll,
        PlaybackPhase::Reading => PlaybackAction::Read,
        PlaybackPhase::Writing(n) => PlaybackAction::Forward(n),
        PlaybackPhase::Exiting => PlaybackAction::Wait,
        PlaybackPhase::Done(end) => PlaybackAction::Finish(end),
    }
}

/// The transitions of a playback: between chunks the commands are drained (a
/// stop or a skip ends it at once), each chunk read is forwarded, the end of
/// the stream waits for the decoder, and any failure ends it. An event that
/// does not answer the phase's action changes nothing.
pub open spec fn playback_step_spec(p: PlaybackPhase, e: PlaybackEvent) -> (PlaybackPhase, PlaybackAction) {
    let next = match (p, e) {
        (PlaybackPhase::Polling, PlaybackEvent::Polled(WorkerAction::Stop)) => PlaybackPhase::Done(
            PlayEnd::Stopped,
        ),
        (PlaybackPhase::Polling, PlaybackEvent::Polled(WorkerAction::Skip)) => PlaybackPhase::Done(
            PlayEnd::Skipped,
        ),
        (PlaybackPhase::Polling, PlaybackEvent::Polled(WorkerAction::Proceed)) => PlaybackPhase::Reading,
        (PlaybackPhase::Reading, PlaybackEvent::Read(n)) => if n == 0 {
            PlaybackPhase::Exiting
        } else {
            PlaybackPhase::Writing(n)
        },
        (PlaybackPhase::Reading, PlaybackEvent::ReadFailed) => PlaybackPhase::Done(
            PlayEnd::DecoderFailed,
        ),
        (PlaybackPhase::Writing(_), PlaybackEvent::Written(ok)) => if ok {
            PlaybackPhase::Polling
        } else {
            PlaybackPhase::Done(PlayEnd::PublisherFailed)
        },
        (PlaybackPhase::Exiting, PlaybackEvent::Exited(ok)) => if ok {
            PlaybackPhase::Done(PlayEnd::Played)
        } else {
            PlaybackPhase::Done(PlayEnd::DecoderFailed)
        },
        _ => p,
    };
    (next, playback_phase_action(next))
}

/// Takes the outcome of the last playback action and gives the next phase and
/// action.
pub fn playback_step(phase: PlaybackPhase, event: PlaybackEvent) -> (r: (PlaybackPhase, PlaybackAction))
    ensures
        r == playback_step_spec(phase, event),
{
    let next = match (phase, event) {
        (PlaybackPhase::Polling, PlaybackEvent::Polled(WorkerAction::Stop)) => PlaybackPhase::Done(
            PlayEnd::Stopped,
        ),
        (PlaybackPhase::Polling, PlaybackEvent::Polled(WorkerAction::Skip)) => PlaybackPhase::Done(
            PlayEnd::Skipped,
        ),
        (PlaybackPhase::Polling, PlaybackEvent::Polled(WorkerAction::Proceed)) => PlaybackPhase::Reading,
        (PlaybackPhase::Reading, PlaybackEvent::Read(n)) => if n == 0 {
            PlaybackPhase::Exiting
        } else {
            PlaybackPhase::Writing(n)
        },
        (PlaybackPhase::Reading, PlaybackEvent::ReadFailed) => PlaybackPhase::Done(
            PlayEnd::DecoderFailed,
        ),
        (PlaybackPhase::Writing(_), PlaybackEvent::Written(ok)) => if ok {
            PlaybackPhase::Polling
        } else {
            PlaybackPhase::Done(PlayEnd::PublisherFailed)
        },
        (PlaybackPhase::Exiting, PlaybackEvent::Exited(ok)) => if ok {
            PlaybackPhase::Done(PlayEnd::Played)
        } else {
            PlaybackPhase::Done(PlayEnd::DecoderFailed)
        },
        _ => phase,
    };
    let action = match next {
        PlaybackPhase::Polling => PlaybackAction::Poll,
        PlaybackPhase::Reading => PlaybackAction::Read,
        PlaybackPhase::Writing(n) => PlaybackAction::Forward(n),
        PlaybackPhase::Exiting => PlaybackAction::Wait,
        PlaybackPhase::Done(end) => PlaybackAction::Finish(end),
    };
    (next, action)
}

/// How the worker loop sees the end of a playback.
pub open spec fn serve_outcome_spec(end: PlayEnd) -> ServeOutcome {
    match end {
        PlayEnd::Stopped => ServeOutcome::Stop,
        PlayEnd::PublisherFailed => ServeOutcome::PublisherFailed,
        _ => ServeOutcome::Continue,
    }
}

/// A stop ends the worker, a broken publisher makes it reconnect, and any other
/// end moves on to the next entry.
pub fn serve_outcome(end: PlayEnd) -> (r: ServeOutcome)
    ensures
        r == serve_outcome_spec(end),
{
    match end {
        PlayEnd::Stopped => ServeOutcome::Stop,
        PlayEnd::PublisherFailed => ServeOutcome::PublisherFailed,
        PlayEnd::Played => ServeOutcome::Continue,
        PlayEnd::DecoderFailed => ServeOutcome::Continue,
        PlayEnd::Skipped => ServeOutcome::Continue,
    }
}

/// A finished playback stays finished.
pub proof fn lemma_playback_done_is_final(end: PlayEnd, e: PlaybackEvent)
    ensures
        playback_step_spec(PlaybackPhase::Done(end), e) == (
            PlaybackPhase::Done(end),
            PlaybackAction::Finish(end),
        ),
{
}

/// A track that is interrupted, by a stop or by a broken connection, goes back to
/// the queue, and the worker stops or reconnects; no other end requeues it.
pub proof fn lemma_interrupted_tracks_are_requeued(s: WorkerLoop, end: PlayEnd)
    requires
        s.phase == LoopPhase::Serving,
    ensures
        (entry_status_after_spec(end) == "queued"@) <==> (end == PlayEnd::Stopped || end
            == PlayEnd::PublisherFailed),
        end == PlayEnd::Stopped ==> loop_step_spec(s, LoopEvent::Served(serve_outcome_spec(end))).0.phase
            == LoopPhase::Finished,
        end == PlayEnd::PublisherFailed ==> loop_step_spec(
            s,
            LoopEvent::Served(serve_outcome_spec(end)),
        ).0.phase == LoopPhase::Waiting,
{
    reveal_strlit("queued");
    reveal_strlit("played");
    reveal_strlit("failed");
    reveal_strlit("skipped");
    assert("played"@ != "queued"@) by { assert("played"@[0] != "queued"@[0]); }
    assert("failed"@ != "queued"@) by { assert("failed"@[0] != "queued"@[0]); }
    assert("skipped"@ != "queued"@) by { assert("skipped"@[0] != "queued"@[0]); }
}

/// A running broadcast refuses a second start.
pub fn ensure_no_worker(worker_running: bool) -> (r: Result<(), String>)
    ensures
        r is Err <==> worker_running,
        r matches Err(e) ==> e@ == "El broadcast ya esta iniciado o deteniendose."@,
{
    if worker_running {
        return Err(lit("El broadcast ya esta iniciado o deteniendose."));
    }
    Ok(())
}

/// Skip and microphone requests need a running broadcast.
pub fn require_worker(worker_running: bool) -> (r: Result<(), String>)
    ensures
        r is Err <==> !worker_running,
        r matches Err(e) ==> e@ == "La radio no esta transmitiendo."@,
{
    if !worker_running {
        return Err(lit("La radio no esta transmitiendo."));
    }
    Ok(())
}

/// The first reason, if any, why a broadcast cannot start.
pub open spec fn start_refusal(
    password: Option<Seq<char>>,
    preflight_ready: bool,
    preflight_message: Seq<char>,
    microphone_enabled: bool,
    microphone_input_available: bool,
) -> Option<Seq<char>> {
    if password is None || trim_spec(password.unwrap()).len() == 0 {
        Some("Configura la contraseña source de Icecast."@)
    } else if !preflight_ready {
        Some(preflight_message)
    } else if microphone_enabled && !microphone_input_available {
        Some("FFmpeg no incluye la entrada AVFoundation requerida para el micrófono."@)
    } else {
        None
    }
}

/// Checks what a start needs once the profile is loaded: a source password that
/// is not blank, a ready FFmpeg, and the AVFoundation input when the microphone
/// is enabled. The password to use is returned.
pub fn check_start_requirements(
    password: Option<String>,
    preflight: &BroadcastPreflight,
    microphone_enabled: bool,
) -> (r: Result<String, String>)
    ensures
        ({
            let refusal = start_refusal(
                crate::broadcast::profile::opt_view(password),
                preflight.ready,
                preflight.message@,
                microphone_enabled,
                preflight.microphone_input_available,
            );
            &&& r matches Ok(p) ==> refusal is None && Some(p@) == crate::broadcast::profile::opt_view(
                password,
            )
            &&& r matches Err(e) ==> refusal == Some(e@)
        }),
{
    let password = match password {
        Some(p) => {
            if trim(p.as_str()).is_empty() {
                return Err(lit("Configura la contraseña source de Icecast."));
            }
            p
        },
        None => {
            return Err(lit("Configura la contraseña source de Icecast."));
        },
    };
    if !preflight.ready {
        return Err(preflight.message.clone());
    }
    if microphone_enabled && !preflight.microphone_input_available {
        return Err(lit("FFmpeg no incluye la entrada AVFoundation requerida para el micrófono."));
    }
    Ok(password)
}

/// The status message while the first connection is made.
pub fn connecting_message(host: &str, port: u16, mount: &str) -> (r: String)
    ensures
        r@ == "Conectando con "@ + host@ + ":"@ + decimal(port as nat) + mount@ + "..."@,
{
    lit("Conectando con ").concat(host).concat(":").concat(decimal_string(port as u64).as_str()).concat(
        mount,
    ).concat("...")
}

} // verus!
