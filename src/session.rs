//! The supervisor: the lifecycle of one run attempt, as a state machine from
//! the current session and an event to the next session and a step to take.
//!
//! The surrounding program owns the source (a spawned process or an open
//! serial link) and the clock. It hands each event to the session together
//! with the current time in milliseconds, performs the command of the step
//! that comes back, and forwards the outcome, when one comes, to the place
//! where results are kept. Every decision is taken here.
use vstd::prelude::*;

use crate::text::{concat, contains, lemma_concat_take_step};
use crate::watcher::{
    feed_post, found_after, lemma_reported_exactly_once, reported_at, SentinelWatcher,
};

verus! {

/// How long a running session waits for output before it gives up.
pub const DEFAULT_READ_TIMEOUT_MS: u64 = 120_000;

/// How long a process may take to stop on its own once asked to.
pub const DEFAULT_GRACE_PERIOD_MS: u64 = 30_000;

/// Where a session's output comes from.
#[derive(Clone, Copy, PartialEq, Eq, Debug, Structural)]
pub enum SourceKind {
    /// A spawned command, which can be asked to stop and can be killed.
    Process,
    /// An open serial device, which can only be closed.
    Serial,
}

/// The lifecycle of a session.
#[derive(Clone, Copy, PartialEq, Eq, Debug, Structural)]
pub enum State {
    Created,
    Running,
    Cancelling,
    Completed,
    Failed,
    TimedOut,
    Terminated,
}

/// What the surrounding program must do to the source after a step.
#[derive(Clone, Copy, PartialEq, Eq, Debug, Structural)]
pub enum Command {
    /// Nothing.
    Idle,
    /// Ask the process to stop, and report when it has.
    GracefulStop,
    /// Kill the process and stop waiting for it.
    ForceKill,
    /// Stop reading and close the serial device.
    CloseHandle,
}

/// Why a session failed.
#[derive(Debug)]
pub enum FailReason {
    /// The command could not be started.
    SpawnFailure(String),
    /// The serial device could not be opened.
    ConnectionFailure(String),
    /// The source ended before the marker appeared, with the exit code of
    /// the process where there was one.
    UnexpectedEnd(Option<i32>),
    /// The run was cancelled before it reached an outcome.
    Cancelled,
}

/// The single terminal result of a session, with the captured output.
#[derive(Debug)]
pub enum Outcome {
    Completed(Vec<u8>),
    Failed(Vec<u8>, FailReason),
    TimedOut(Vec<u8>),
}

/// One item of output from the source.
#[derive(Debug)]
pub enum OutputEvent {
    /// A complete line (or the last, unterminated, piece of the stream).
    Line(Vec<u8>),
    /// The source ended, with the process's exit code where there is one.
    SourceEnded(Option<i32>),
    /// The source could not be opened.
    SpawnFailed(String),
}

/// What a session asks for after handling an event.
#[derive(Debug)]
pub struct Step {
    pub outcome: Option<Outcome>,
    pub command: Command,
}

pub enum ReasonModel {
    SpawnFailure(Seq<char>),
    ConnectionFailure(Seq<char>),
    UnexpectedEnd(Option<i32>),
    Cancelled,
}

pub enum OutcomeModel {
    Completed(Seq<u8>),
    Failed(Seq<u8>, ReasonModel),
    TimedOut(Seq<u8>),
}

pub enum EventModel {
    Line(Seq<u8>),
    SourceEnded(Option<i32>),
    SpawnFailed(Seq<char>),
}

pub struct StepModel {
    pub outcome: Option<OutcomeModel>,
    pub command: Command,
}

/// A session as a mathematical value.
pub struct SessionModel {
    pub kind: SourceKind,
    pub state: State,
    pub sentinel: Seq<u8>,
    /// Everything read from the source while running, in order.
    pub captured: Seq<u8>,
    pub read_timeout: int,
    pub grace_period: int,
    /// When the session started or last received output.
    pub last_activity: int,
    /// When cancellation was first requested.
    pub cancelled_at: int,
}

impl View for FailReason {
    type V = ReasonModel;

    open spec fn view(&self) -> ReasonModel {
        match self {
            FailReason::SpawnFailure(s) => ReasonModel::SpawnFailure(s@),
            FailReason::ConnectionFailure(s) => ReasonModel::ConnectionFailure(s@),
            FailReason::UnexpectedEnd(c) => ReasonModel::UnexpectedEnd(*c),
            FailReason::Cancelled => ReasonModel::Cancelled,
        }
    }
}

impl View for Outcome {
    type V = OutcomeModel;

    open spec fn view(&self) -> OutcomeModel {
        match self {
            Outcome::Completed(t) => OutcomeModel::Completed(t@),
            Outcome::Failed(t, r) => OutcomeModel::Failed(t@, r@),
            Outcome::TimedOut(t) => OutcomeModel::TimedOut(t@),
        }
    }
}

impl View for OutputEvent {
    type V = EventModel;

    open spec fn view(&self) -> EventModel {
        match self {
            OutputEvent::Line(t) => EventModel::Line(t@),
            OutputEvent::SourceEnded(c) => EventModel::SourceEnded(*c),
            OutputEvent::SpawnFailed(s) => EventModel::SpawnFailed(s@),
        }
    }
}

impl View for Step {
    type V = StepModel;

    open spec fn view(&self) -> StepModel {
        StepModel {
            outcome: match self.outcome {
                Some(o) => Some(o@),
                None => None,
            },
            command: self.command,
        }
    }
}

/// A step that neither reports nor asks for anything.
pub open spec fn quiet() -> StepModel {
    StepModel { outcome: None, command: Command::Idle }
}

/// The state reached once the source is to be let go: a process is asked to
/// stop and given its grace period; a serial device is closed at once.
pub open spec fn teardown(m: SessionModel, now: int) -> (SessionModel, Command) {
    match m.kind {
        SourceKind::Process => (
            SessionModel { state: State::Cancelling, cancelled_at: now, ..m },
            Command::GracefulStop,
        ),
        SourceKind::Serial => (SessionModel { state: State::Terminated, ..m }, Command::CloseHandle),
    }
}

/// Starting a created session sets it running; anything else is ignored.
pub open spec fn start_spec(m: SessionModel, now: int) -> (SessionModel, StepModel) {
    if m.state == State::Created {
        (SessionModel { state: State::Running, last_activity: now, ..m }, quiet())
    } else {
        (m, quiet())
    }
}

/// A line received while running is captured; the session completes when
/// the captured text first contains the marker. Lines in any other state are
/// not processed.
pub open spec fn line_spec(m: SessionModel, text: Seq<u8>, now: int) -> (SessionModel, StepModel) {
    if m.state == State::Running {
        let captured = m.captured + text;
        if contains(captured, m.sentinel) {
            (
                SessionModel { state: State::Completed, captured, last_activity: now, ..m },
                StepModel { outcome: Some(OutcomeModel::Completed(captured)), command: Command::Idle },
            )
        } else {
            (SessionModel { captured, last_activity: now, ..m }, quiet())
        }
    } else {
        (m, quiet())
    }
}

/// A source that ends while running fails the session, with its exit code;
/// one that ends while cancelling has confirmed that it stopped.
pub open spec fn ended_spec(m: SessionModel, code: Option<i32>) -> (SessionModel, StepModel) {
    if m.state == State::Running {
        (
            SessionModel { state: State::Failed, ..m },
            StepModel {
                outcome: Some(OutcomeModel::Failed(m.captured, ReasonModel::UnexpectedEnd(code))),
                command: Command::Idle,
            },
        )
    } else if m.state == State::Cancelling {
        (SessionModel { state: State::Terminated, ..m }, quiet())
    } else {
        (m, quiet())
    }
}

/// A source that cannot be opened fails a running session at once.
pub open spec fn open_failed_spec(m: SessionModel, reason: Seq<char>) -> (SessionModel, StepModel) {
    if m.state == State::Running {
        let why = match m.kind {
            SourceKind::Process => ReasonModel::SpawnFailure(reason),
            SourceKind::Serial => ReasonModel::ConnectionFailure(reason),
        };
        (
            SessionModel { state: State::Failed, ..m },
            StepModel {
                outcome: Some(OutcomeModel::Failed(m.captured, why)),
                command: Command::Idle,
            },
        )
    } else {
        (m, quiet())
    }
}

pub open spec fn output_spec(m: SessionModel, ev: EventModel, now: int) -> (SessionModel, StepModel) {
    match ev {
        EventModel::Line(t) => line_spec(m, t, now),
        EventModel::SourceEnded(c) => ended_spec(m, c),
        EventModel::SpawnFailed(r) => open_failed_spec(m, r),
    }
}

/// The read timeout has run out: no output for `read_timeout` ms.
pub open spec fn read_expired(m: SessionModel, now: int) -> bool {
    now >= m.last_activity + m.read_timeout
}

/// The grace period has run out since cancellation was requested.
pub open spec fn grace_expired(m: SessionModel, now: int) -> bool {
    now >= m.cancelled_at + m.grace_period
}

/// The passing of time: a running session times out with what it has
/// captured; a cancelling one whose grace period is over is killed.
pub open spec fn tick_spec(m: SessionModel, now: int) -> (SessionModel, StepModel) {
    if m.state == State::Running && read_expired(m, now) {
        (
            SessionModel { state: State::TimedOut, ..m },
            StepModel { outcome: Some(OutcomeModel::TimedOut(m.captured)), command: Command::Idle },
        )
    } else if m.state == State::Cancelling && grace_expired(m, now) {
        (
            SessionModel { state: State::Terminated, ..m },
            StepModel { outcome: None, command: Command::ForceKill },
        )
    } else {
        (m, quiet())
    }
}

/// A cancellation request. The first one tears the session down (a session
/// cancelled before its outcome fails as cancelled); any later one is ignored.
pub open spec fn cancel_spec(m: SessionModel, now: int) -> (SessionModel, StepModel) {
    match m.state {
        State::Created => (
            SessionModel { state: State::Terminated, ..m },
            StepModel {
                outcome: Some(OutcomeModel::Failed(m.captured, ReasonModel::Cancelled)),
                command: Command::Idle,
            },
        ),
        State::Running => (
            teardown(m, now).0,
            StepModel {
                outcome: Some(OutcomeModel::Failed(m.captured, ReasonModel::Cancelled)),
                command: teardown(m, now).1,
            },
        ),
        State::Completed | State::Failed | State::TimedOut => (
            teardown(m, now).0,
            StepModel { outcome: None, command: teardown(m, now).1 },
        ),
        State::Cancelling | State::Terminated => (m, quiet()),
    }
}

/// `a + b`, or the largest time there is where that is beyond it.
pub open spec fn time_after(a: int, b: int) -> int {
    if a + b <= u64::MAX {
        a + b
    } else {
        u64::MAX as int
    }
}

/// The time from which a tick changes the session: the end of the read
/// timeout while running, the end of the grace period while cancelling;
/// no time changes it in any other state.
pub open spec fn deadline_spec(m: SessionModel) -> Option<int> {
    if m.state == State::Running {
        Some(time_after(m.last_activity, m.read_timeout))
    } else if m.state == State::Cancelling {
        Some(time_after(m.cancelled_at, m.grace_period))
    } else {
        None
    }
}

/// A session that has not started yet.
pub open spec fn created(
    kind: SourceKind,
    sentinel: Seq<u8>,
    read_timeout: int,
    grace_period: int,
) -> SessionModel {
    SessionModel {
        kind,
        state: State::Created,
        sentinel,
        captured: Seq::empty(),
        read_timeout,
        grace_period,
        last_activity: 0,
        cancelled_at: 0,
    }
}

/// The texts of a sequence of received lines.
pub open spec fn texts(received: Seq<(Seq<u8>, int)>) -> Seq<Seq<u8>> {
    received.map_values(|r: (Seq<u8>, int)| r.0)
}

/// The session after each `(text, time)` of `received` arrived, in order.
pub open spec fn feed_lines(m: SessionModel, received: Seq<(Seq<u8>, int)>) -> SessionModel
    decreases received.len(),
{
    if received.len() == 0 {
        m
    } else {
        line_spec(feed_lines(m, received.drop_last()), received.last().0, received.last().1).0
    }
}

/// A session that has just been started.
pub open spec fn fresh_running(m: SessionModel) -> bool {
    m.state == State::Running && m.captured == Seq::<u8>::empty()
}

/// A cancellation request on a terminated session changes nothing and asks
/// for nothing.
pub proof fn lemma_cancel_terminated_is_noop(m: SessionModel, now: int)
    requires
        m.state == State::Terminated,
    ensures
        cancel_spec(m, now) == (m, quiet()),
{
}

/// Cancellation is idempotent: whatever the first request did, a second one,
/// at any time, changes nothing and asks for nothing; and the first request
/// on a running session starts exactly one teardown.
pub proof fn lemma_cancel_idempotent(m: SessionModel, first: int, second: int)
    ensures
        cancel_spec(cancel_spec(m, first).0, second) == (cancel_spec(m, first).0, quiet()),
        m.state == State::Running ==> cancel_spec(m, first).1.command != Command::Idle,
{
}

/// A process that ignores the request to stop is killed, and the session
/// terminated, at the first tick once the grace period has passed; before
/// that the session waits, still cancelling.
pub proof fn lemma_unresponsive_process_terminates(m: SessionModel, asked: int, now: int)
    requires
        m.kind == SourceKind::Process,
        m.state == State::Running || m.state == State::Completed || m.state == State::Failed
            || m.state == State::TimedOut,
    ensures
        cancel_spec(m, asked).1.command == Command::GracefulStop,
        cancel_spec(m, asked).0.state == State::Cancelling,
        now >= asked + m.grace_period ==> tick_spec(cancel_spec(m, asked).0, now) == (
        SessionModel { state: State::Terminated, ..cancel_spec(m, asked).0 },
        StepModel { outcome: None, command: Command::ForceKill },
        ),
        now < asked + m.grace_period ==> tick_spec(cancel_spec(m, asked).0, now) == (
        cancel_spec(m, asked).0,
        quiet(),
        ),
{
}

/// A source that ends before the marker was seen fails the session, and the
/// reason carries the exit code.
pub proof fn lemma_early_end_fails(m: SessionModel, code: Option<i32>)
    requires
        m.state == State::Running,
    ensures
        ended_spec(m, code).0.state == State::Failed,
        ended_spec(m, code).1.outcome == Some(
            OutcomeModel::Failed(m.captured, ReasonModel::UnexpectedEnd(code)),
        ),
{
}

proof fn lemma_feed_lines_step(m: SessionModel, received: Seq<(Seq<u8>, int)>, j: int)
    requires
        0 <= j < received.len(),
    ensures
        feed_lines(m, received.take(j + 1)) == line_spec(
            feed_lines(m, received.take(j)),
            received[j].0,
            received[j].1,
        ).0,
        texts(received.take(j)) == texts(received).take(j),
        texts(received)[j] == received[j].0,
{
    assert(received.take(j + 1).drop_last() =~= received.take(j));
    assert(texts(received.take(j)) =~= texts(received).take(j));
}

/// After the first `j` lines a started session is still running with all of
/// them captured, until the marker has appeared; from then on it stays
/// completed with the text up to the line that completed the marker.
proof fn lemma_feed_prefix(m: SessionModel, received: Seq<(Seq<u8>, int)>, j: int)
    requires
        fresh_running(m),
        0 <= j <= received.len(),
    ensures
        feed_lines(m, received.take(j)).sentinel == m.sentinel,
        !found_after(texts(received), m.sentinel, j) ==> feed_lines(m, received.take(j)).state
            == State::Running && feed_lines(m, received.take(j)).captured == concat(
            texts(received).take(j),
        ),
        found_after(texts(received), m.sentinel, j) ==> feed_lines(m, received.take(j)).state
            == State::Completed && exists|i: int|
            0 <= i < j && reported_at(texts(received), m.sentinel, i) && feed_lines(
                m,
                received.take(j),
            ).captured == #[trigger] concat(texts(received).take(i + 1)),
    decreases j,
{
    let t = texts(received);
    if j == 0 {
        assert(received.take(0) =~= Seq::<(Seq<u8>, int)>::empty());
        assert(t.take(0) =~= Seq::<Seq<u8>>::empty());
    } else {
        lemma_feed_prefix(m, received, j - 1);
        lemma_feed_lines_step(m, received, j - 1);
        lemma_concat_take_step(t, j - 1);
        let before = feed_lines(m, received.take(j - 1));
        if found_after(t, m.sentinel, j - 1) {
            let i = choose|i: int|
                0 <= i < j - 1 && reported_at(t, m.sentinel, i) && before.captured == #[trigger] concat(
                    t.take(i + 1),
                );
            assert(feed_lines(m, received.take(j)) == before);
            assert(found_after(t, m.sentinel, j)) by {
                crate::text::lemma_contains_grows(concat(t.take(j - 1)), t[j - 1], m.sentinel);
            }
        } else if found_after(t, m.sentinel, j) {
            assert(reported_at(t, m.sentinel, j - 1));
            assert(feed_lines(m, received.take(j)).captured == concat(t.take(j)));
        } else {
            if j - 1 == 0 {
                assert(t.take(0) =~= Seq::<Seq<u8>>::empty());
                assert(concat(t.take(1)) =~= t[0]);
            }
        }
    }
}

/// However the output is chunked into lines, a started session completes on
/// the line with which the captured text first contains the marker, and the
/// completed outcome carries exactly the lines up to and including that one;
/// lines after it are not captured.
pub proof fn lemma_completed_text(m: SessionModel, received: Seq<(Seq<u8>, int)>) -> (k: int)
    requires
        fresh_running(m),
        received.len() > 0,
        contains(concat(texts(received)), m.sentinel),
    ensures
        0 <= k < received.len(),
        feed_lines(m, received.take(k)).state == State::Running,
        line_spec(feed_lines(m, received.take(k)), received[k].0, received[k].1).1.outcome == Some(
            OutcomeModel::Completed(concat(texts(received).take(k + 1))),
        ),
        feed_lines(m, received).state == State::Completed,
        feed_lines(m, received).captured == concat(texts(received).take(k + 1)),
{
    let t = texts(received);
    let k = lemma_reported_exactly_once(t, m.sentinel);
    lemma_feed_prefix(m, received, k);
    lemma_feed_prefix(m, received, received.len() as int);
    lemma_concat_take_step(t, k);
    lemma_feed_lines_step(m, received, k);
    assert(received.take(received.len() as int) =~= received);
    assert(t.take(t.len() as int) =~= t);
    assert(found_after(t, m.sentinel, received.len() as int));
    k
}

/// While the marker has not appeared and the source has not ended, a started
/// session keeps running with everything received captured, and a tick after
/// the read timeout has passed since the last line times it out with exactly
/// that text.
pub proof fn lemma_silence_times_out(m: SessionModel, received: Seq<(Seq<u8>, int)>, now: int)
    requires
        fresh_running(m),
        !contains(concat(texts(received)), m.sentinel),
        read_expired(feed_lines(m, received), now),
    ensures
        feed_lines(m, received).state == State::Running,
        feed_lines(m, received).captured == concat(texts(received)),
        tick_spec(feed_lines(m, received), now) == (
        SessionModel { state: State::TimedOut, ..feed_lines(m, received) },
        StepModel {
            outcome: Some(OutcomeModel::TimedOut(concat(texts(received)))),
            command: Command::Idle,
        },
        ),
{
    let t = texts(received);
    lemma_feed_prefix(m, received, received.len() as int);
    assert(received.take(received.len() as int) =~= received);
    assert(t.take(t.len() as int) =~= t);
}

/// The order in which states are passed through.
pub open spec fn rank(s: State) -> int {
    match s {
        State::Created => 0,
        State::Running => 1,
        State::Completed | State::Failed | State::TimedOut => 2,
        State::Cancelling => 3,
        State::Terminated => 4,
    }
}

/// Whether a session in state `s` can still deliver its outcome.
pub open spec fn outcome_pending(s: State) -> bool {
    s == State::Created || s == State::Running
}

/// What every transition keeps: the state never goes back, and the captured
/// output only grows, and only while running; an outcome is delivered only
/// on leaving the states in which one is still pending.
pub open spec fn orderly(m: SessionModel, next: (SessionModel, StepModel)) -> bool {
    &&& rank(m.state) <= rank(next.0.state)
    &&& (rank(m.state) == rank(next.0.state) ==> m.state == next.0.state)
    &&& next.0.captured.len() >= m.captured.len()
    &&& next.0.captured.subrange(0, m.captured.len() as int) == m.captured
    &&& (m.state != State::Running ==> next.0.captured == m.captured)
    &&& (next.1.outcome is Some ==> outcome_pending(m.state) && !outcome_pending(next.0.state))
}

/// Every event keeps the session orderly. Since no state is revisited, a
/// session delivers at most one outcome, and its captured output is fixed
/// once it stops running.
pub proof fn lemma_transitions_orderly(m: SessionModel, ev: EventModel, now: int)
    ensures
        orderly(m, start_spec(m, now)),
        orderly(m, output_spec(m, ev, now)),
        orderly(m, tick_spec(m, now)),
        orderly(m, cancel_spec(m, now)),
{
    assert(m.captured.subrange(0, m.captured.len() as int) =~= m.captured);
    if let EventModel::Line(t) = ev {
        assert((m.captured + t).subrange(0, m.captured.len() as int) =~= m.captured);
    }
}

/// One run attempt.
pub struct Session {
    kind: SourceKind,
    state: State,
    watcher: SentinelWatcher,
    read_timeout_ms: u64,
    grace_period_ms: u64,
    last_activity_ms: u64,
    cancelled_at_ms: u64,
}

impl View for Session {
    type V = SessionModel;

    closed spec fn view(&self) -> SessionModel {
        SessionModel {
            kind: self.kind,
            state: self.state,
            sentinel: self.watcher.sentinel(),
            captured: self.watcher.seen(),
            read_timeout: self.read_timeout_ms as int,
            grace_period: self.grace_period_ms as int,
            last_activity: self.last_activity_ms as int,
            cancelled_at: self.cancelled_at_ms as int,
        }
    }
}

/// A copy of a byte buffer.
fn copy_bytes(v: &Vec<u8>) -> (r: Vec<u8>)
    ensures
        r@ == v@,
{
    let mut r: Vec<u8> = Vec::new();
    let mut i: usize = 0;
    while i < v.len()
        invariant
            i <= v@.len(),
            r@ == v@.subrange(0, i as int),
        decreases v@.len() - i,
    {
        r.push(v[i]);
        i += 1;
        assert(r@ =~= v@.subrange(0, i as int));
    }
    assert(v@.subrange(0, v@.len() as int) =~= v@);
    r
}

impl Session {
    pub closed spec fn wf(&self) -> bool {
        &&& self.watcher.wf()
        &&& (self.state == State::Created || self.state == State::Running) ==> !self.watcher.found()
        &&& self.state == State::Created ==> self.watcher.seen().len() == 0
    }

    /// A session watching for `sentinel`, not started yet.
    pub fn new(kind: SourceKind, sentinel: Vec<u8>, read_timeout_ms: u64, grace_period_ms: u64) -> (s:
        Session)
        ensures
            s.wf(),
            s@ == created(kind, sentinel@, read_timeout_ms as int, grace_period_ms as int),
    {
        let s = Session {
            kind,
            state: State::Created,
            watcher: SentinelWatcher::new(sentinel),
            read_timeout_ms,
            grace_period_ms,
            last_activity_ms: 0,
            cancelled_at_ms: 0,
        };
        assert(s@ == created(kind, sentinel@, read_timeout_ms as int, grace_period_ms as int));
        s
    }

    /// The current state.
    pub fn state(&self) -> (r: State)
        ensures
            r == self@.state,
    {
        self.state
    }

    /// Everything captured so far.
    pub fn captured(&self) -> (r: &Vec<u8>)
        ensures
            r@ == self@.captured,
    {
        self.watcher.seen_bytes()
    }

    /// The time from which a tick changes the session (capped at the
    /// largest time there is); `None` where no tick changes it.
    pub fn deadline(&self) -> (r: Option<u64>)
        ensures
            match (r, deadline_spec(self@)) {
                (Some(t), Some(d)) => t == d,
                (None, None) => true,
                _ => false,
            },
    {
        if self.state == State::Running {
            Some(self.last_activity_ms.saturating_add(self.read_timeout_ms))
        } else if self.state == State::Cancelling {
            Some(self.cancelled_at_ms.saturating_add(self.grace_period_ms))
        } else {
            None
        }
    }

    /// Marks the session running from `now` on (the source has been opened).
    pub fn start(&mut self, now: u64) -> (r: Step)
        requires
            old(self).wf(),
        ensures
            final(self).wf(),
            (final(self)@, r@) == start_spec(old(self)@, now as int),
    {
        if self.state == State::Created {
            self.state = State::Running;
            self.last_activity_ms = now;
        }
        Step { outcome: None, command: Command::Idle }
    }

    fn fail(&mut self, reason: FailReason) -> (r: Step)
        requires
            old(self).wf(),
            old(self).state == State::Running,
        ensures
            final(self).wf(),
            final(self)@ == (SessionModel { state: State::Failed, ..old(self)@ }),
            r@ == (StepModel {
                outcome: Some(OutcomeModel::Failed(old(self)@.captured, reason@)),
                command: Command::Idle,
            }),
    {
        self.state = State::Failed;
        let text = copy_bytes(self.watcher.seen_bytes());
        Step { outcome: Some(Outcome::Failed(text, reason)), command: Command::Idle }
    }

    /// Handles one item of output received at `now`.
    pub fn on_output(&mut self, ev: OutputEvent, now: u64) -> (r: Step)
        requires
            old(self).wf(),
            old(self)@.captured.len() + match ev {
                OutputEvent::Line(t) => t@.len(),
                _ => 0,
            } <= usize::MAX,
        ensures
            final(self).wf(),
            (final(self)@, r@) == output_spec(old(self)@, ev@, now as int),
    {
        match ev {
            OutputEvent::Line(text) => {
                if self.state != State::Running {
                    return Step { outcome: None, command: Command::Idle };
                }
                let found = self.watcher.feed(text.as_slice());
                proof {
                    assert(feed_post(old(self).watcher, text@, self.watcher, found));
                }
                self.last_activity_ms = now;
                if found.is_some() {
                    self.state = State::Completed;
                    let all = copy_bytes(self.watcher.seen_bytes());
                    Step { outcome: Some(Outcome::Completed(all)), command: Command::Idle }
                } else {
                    Step { outcome: None, command: Command::Idle }
                }
            },
            OutputEvent::SourceEnded(code) => {
                if self.state == State::Running {
                    self.fail(FailReason::UnexpectedEnd(code))
                } else {
                    if self.state == State::Cancelling {
                        self.state = State::Terminated;
                    }
                    Step { outcome: None, command: Command::Idle }
                }
            },
            OutputEvent::SpawnFailed(reason) => {
                if self.state == State::Running {
                    let why = match self.kind {
                        SourceKind::Process => FailReason::SpawnFailure(reason),
                        SourceKind::Serial => FailReason::ConnectionFailure(reason),
                    };
                    self.fail(why)
                } else {
                    Step { outcome: None, command: Command::Idle }
                }
            },
        }
    }

    /// Handles the passing of time up to `now`.
    pub fn on_tick(&mut self, now: u64) -> (r: Step)
        requires
            old(self).wf(),
        ensures
            final(self).wf(),
            (final(self)@, r@) == tick_spec(old(self)@, now as int),
    {
        if self.state == State::Running && now >= self.last_activity_ms && now
            - self.last_activity_ms >= self.read_timeout_ms {
            self.state = State::TimedOut;
            let text = copy_bytes(self.watcher.seen_bytes());
            Step { outcome: Some(Outcome::TimedOut(text)), command: Command::Idle }
        } else if self.state == State::Cancelling && now >= self.cancelled_at_ms && now
            - self.cancelled_at_ms >= self.grace_period_ms {
            self.state = State::Terminated;
            Step { outcome: None, command: Command::ForceKill }
        } else {
            Step { outcome: None, command: Command::Idle }
        }
    }

    fn tear_down(&mut self, now: u64) -> (c: Command)
        requires
            old(self).wf(),
            old(self).state != State::Created,
        ensures
            final(self).wf(),
            (final(self)@, c) == teardown(old(self)@, now as int),
    {
        match self.kind {
            SourceKind::Process => {
                self.state = State::Cancelling;
                self.cancelled_at_ms = now;
                Command::GracefulStop
            },
            SourceKind::Serial => {
                self.state = State::Terminated;
                Command::CloseHandle
            },
        }
    }

    /// Handles a request, at `now`, to stop the session.
    pub fn cancel(&mut self, now: u64) -> (r: Step)
        requires
            old(self).wf(),
        ensures
            final(self).wf(),
            (final(self)@, r@) == cancel_spec(old(self)@, now as int),
    {
        match self.state {
            State::Created => {
                self.state = State::Terminated;
                let text = copy_bytes(self.watcher.seen_bytes());
                Step {
                    outcome: Some(Outcome::Failed(text, FailReason::Cancelled)),
                    command: Command::Idle,
                }
            },
            State::Running => {
                let text = copy_bytes(self.watcher.seen_bytes());
                let command = self.tear_down(now);
                Step { outcome: Some(Outcome::Failed(text, FailReason::Cancelled)), command }
            },
            State::Completed | State::Failed | State::TimedOut => {
                let command = self.tear_down(now);
                Step { outcome: None, command }
            },
            State::Cancelling | State::Terminated => Step { outcome: None, command: Command::Idle },
        }
    }
}

} // verus!
