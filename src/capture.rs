use vstd::prelude::*;
use crate::command::{Command, Event};
use crate::error::{ControlError, Failure};
use crate::guard::{AccessToken, Arbiter};
use crate::state::{legal, permits, DeviceState, Operation};

verus! {

/// Size of the read buffer: one burst of the device.
pub const BUFFER_SIZE: u64 = 24576;

/// Largest capture target whose byte counts are sure to fit in `u64`.
pub const TARGET_MAX: u64 = 18446744073709527039;

/// How a capture session ended.
#[derive(Clone, Debug, PartialEq, Eq)]
pub enum Ending<E> {
    /// The target was reached.
    Completed,
    /// The session was cancelled before reaching the target.
    Cancelled,
    /// The session failed.
    Failed(Failure<E>),
}

/// The result of a capture session: the bytes written to the sink, and why it
/// ended.
#[derive(Clone, Debug, PartialEq, Eq)]
pub struct CaptureReport<E> {
    pub written: u64,
    pub ending: Ending<E>,
}

/// Where a capture session stands.
#[derive(Clone, Copy, Debug, PartialEq, Eq, Structural)]
pub enum Phase {
    /// Waiting for the device state.
    Checking,
    /// Waiting for the device to start.
    Starting,
    /// Waiting for a read.
    Reading,
    /// Waiting for a sink write of the current buffer.
    Writing,
    /// Waiting for the device to stop.
    Stopping,
    /// Finished.
    Done,
}

/// The sum of a sequence of byte counts.
pub open spec fn total(s: Seq<int>) -> int
    decreases s.len(),
{
    if s.len() == 0 {
        0
    } else {
        total(s.drop_last()) + s.last()
    }
}

/// The state of a capture session as a model: counters, the buffer cursor,
/// and what happened so far (byte counts of every read and every sink write,
/// and every command handed out but the last `Finish`).
pub struct CaptureView<E> {
    pub phase: Phase,
    /// The device whose token the session holds.
    pub owner: u64,
    /// Bytes to collect before stopping.
    pub target: u64,
    /// Bytes handed back by all reads.
    pub read_total: u64,
    /// Bytes taken by the sink.
    pub written: u64,
    /// Length of the last buffer read.
    pub chunk: u64,
    /// How much of the last buffer the sink has taken.
    pub cursor: u64,
    /// Why the session ends; settled once it is stopping or done.
    pub ending: Ending<E>,
    /// The byte count of each read.
    pub reads: Seq<int>,
    /// The byte count of each sink write.
    pub writes: Seq<int>,
    /// The commands handed out.
    pub log: Seq<Command>,
}

/// Whether `log` shows that the device was started: the command after the
/// state query is `Start`.
pub open spec fn started(log: Seq<Command>) -> bool {
    log.len() >= 2 && log[1] == Command::Start
}

/// Whether the last command in `log` is `Stop`.
pub open spec fn stopped_last(log: Seq<Command>) -> bool {
    log.len() >= 1 && log.last() == Command::Stop
}

/// The invariant of a capture session.
pub open spec fn capture_wf<E>(v: CaptureView<E>) -> bool {
    &&& 0 < v.target <= TARGET_MAX
    &&& v.read_total == total(v.reads)
    &&& v.written == total(v.writes)
    &&& v.cursor <= v.chunk <= BUFFER_SIZE
    &&& v.written <= v.read_total
    &&& v.read_total < v.target + BUFFER_SIZE
    &&& v.log.len() >= 1 && v.log[0] == Command::QueryState
    &&& match v.phase {
        Phase::Checking => v.log.len() == 1 && v.read_total == 0 && v.written == 0,
        Phase::Starting => v.log.len() == 2 && started(v.log) && v.read_total == 0 && v.written == 0,
        Phase::Reading => started(v.log) && v.written == v.read_total && v.written < v.target,
        Phase::Writing => started(v.log) && v.cursor < v.chunk && v.read_total == v.written - v.cursor
            + v.chunk && v.written - v.cursor < v.target,
        Phase::Stopping => started(v.log) && stopped_last(v.log),
        Phase::Done => v.log.len() == 1 || (started(v.log) && stopped_last(v.log)),
    }
    &&& (v.ending is Completed ==> v.written == v.read_total && v.written >= v.target)
    &&& ((v.phase is Stopping || v.phase is Done) && v.ending is Cancelled ==> v.written
        == v.read_total)
}

/// Whether a capture session in state `v` takes event `e`.
pub open spec fn capture_accepts<E>(v: CaptureView<E>, e: Event<E>) -> bool {
    match v.phase {
        Phase::Checking => e is Observed || e is DriverFailed || e is Cancelled,
        Phase::Starting => e is Completed || e is DriverFailed || e is Cancelled,
        Phase::Reading => (e is BytesRead && e->BytesRead_0 <= BUFFER_SIZE) || e is DriverFailed
            || e is Cancelled,
        Phase::Writing => (e is BytesWritten && e->BytesWritten_0 <= v.chunk - v.cursor) || e is SinkFailed,
        Phase::Stopping => e is Completed || e is DriverFailed,
        Phase::Done => false,
    }
}

/// Stop the device, recording why the session ends.
pub open spec fn to_stopping<E>(v: CaptureView<E>, ending: Ending<E>) -> (CaptureView<E>, Command) {
    (CaptureView { phase: Phase::Stopping, ending, log: v.log.push(Command::Stop), ..v }, Command::Stop)
}

/// End the session at once, without touching the device again.
pub open spec fn to_done<E>(v: CaptureView<E>, ending: Ending<E>) -> (CaptureView<E>, Command) {
    (CaptureView { phase: Phase::Done, ending, ..v }, Command::Finish)
}

/// A failure of the given kind, caused by `cause` where there is one.
pub open spec fn failed<E>(kind: ControlError, cause: Option<E>) -> Ending<E> {
    Ending::Failed(Failure { kind, cause })
}

/// The next state of a capture session, and the next command, after event `e`.
pub open spec fn capture_next<E>(v: CaptureView<E>, e: Event<E>) -> (CaptureView<E>, Command) {
    match (v.phase, e) {
        (Phase::Checking, Event::Observed(s)) => if permits(Operation::Start, s) {
            (CaptureView { phase: Phase::Starting, log: v.log.push(Command::Start), ..v }, Command::Start)
        } else {
            to_done(v, failed(ControlError::WrongState, None))
        },
        (Phase::Checking, Event::DriverFailed(x)) => to_done(v, failed(ControlError::DriverFault, Some(x))),
        (Phase::Checking, _) => to_done(v, Ending::Cancelled),
        (Phase::Starting, Event::Completed) => (
            CaptureView { phase: Phase::Reading, log: v.log.push(Command::Read), ..v },
            Command::Read,
        ),
        (Phase::Starting, Event::DriverFailed(x)) => to_stopping(
            v,
            failed(ControlError::DriverFault, Some(x)),
        ),
        (Phase::Starting, _) => to_stopping(v, Ending::Cancelled),
        (Phase::Reading, Event::BytesRead(n)) => if n == 0 {
            (
                CaptureView { reads: v.reads.push(0), log: v.log.push(Command::Read), ..v },
                Command::Read,
            )
        } else {
            let w = Command::Write { from: 0, to: n };
            (
                CaptureView {
                    phase: Phase::Writing,
                    read_total: (v.read_total + n) as u64,
                    chunk: n,
                    cursor: 0,
                    reads: v.reads.push(n as int),
                    log: v.log.push(w),
                    ..v
                },
                w,
            )
        },
        (Phase::Reading, Event::DriverFailed(x)) => to_stopping(
            v,
            failed(ControlError::DriverFault, Some(x)),
        ),
        (Phase::Reading, _) => to_stopping(v, Ending::Cancelled),
        (Phase::Writing, Event::BytesWritten(n)) => if n == 0 {
            to_stopping(v, failed(ControlError::IoFault, None))
        } else {
            let u = CaptureView {
                written: (v.written + n) as u64,
                cursor: (v.cursor + n) as u64,
                writes: v.writes.push(n as int),
                ..v
            };
            if u.cursor < u.chunk {
                let w = Command::Write { from: u.cursor, to: u.chunk };
                (CaptureView { log: u.log.push(w), ..u }, w)
            } else if u.written >= u.target {
                to_stopping(u, Ending::Completed)
            } else {
                (CaptureView { phase: Phase::Reading, log: u.log.push(Command::Read), ..u }, Command::Read)
            }
        },
        (Phase::Writing, Event::SinkFailed(x)) => to_stopping(v, failed(ControlError::IoFault, Some(x))),
        (_, _) => (CaptureView { phase: Phase::Done, ..v }, Command::Finish),
    }
}

/// A capture session: streams bytes from the device into a sink until a
/// target count is reached, and stops the device on every way out.
pub struct Capture<E> {
    phase: Phase,
    target: u64,
    read_total: u64,
    written: u64,
    chunk: u64,
    cursor: u64,
    ending: Ending<E>,
    token: AccessToken,
    reads: Ghost<Seq<int>>,
    writes: Ghost<Seq<int>>,
    log: Ghost<Seq<Command>>,
}

impl<E> View for Capture<E> {
    type V = CaptureView<E>;

    closed spec fn view(&self) -> CaptureView<E> {
        CaptureView {
            phase: self.phase,
            owner: self.token.device_of(),
            target: self.target,
            read_total: self.read_total,
            written: self.written,
            chunk: self.chunk,
            cursor: self.cursor,
            ending: self.ending,
            reads: self.reads@,
            writes: self.writes@,
            log: self.log@,
        }
    }
}

proof fn lemma_total_push(s: Seq<int>, x: int)
    ensures
        total(s.push(x)) == total(s) + x,
{
    assert(s.push(x).drop_last() =~= s);
}

impl<E> Capture<E> {
    /// Opens a session with the token of the device: the first command asks
    /// for the device's state.
    pub fn begin(token: AccessToken, target: u64) -> (r: (Capture<E>, Command))
        requires
            0 < target <= TARGET_MAX,
        ensures
            capture_wf(r.0@),
            r.1 == Command::QueryState,
            r.0@ == (CaptureView {
                phase: Phase::Checking,
                owner: token.device_of(),
                target,
                read_total: 0,
                written: 0,
                chunk: 0,
                cursor: 0,
                ending: Ending::<E>::Cancelled,
                reads: Seq::empty(),
                writes: Seq::empty(),
                log: seq![Command::QueryState],
            }),
    {
        let c = Capture {
            phase: Phase::Checking,
            target,
            read_total: 0,
            written: 0,
            chunk: 0,
            cursor: 0,
            ending: Ending::Cancelled,
            token,
            reads: Ghost(Seq::empty()),
            writes: Ghost(Seq::empty()),
            log: Ghost(Seq::empty().push(Command::QueryState)),
        };
        (c, Command::QueryState)
    }

    /// Whether the session takes `e` next.
    pub fn accepts(&self, e: &Event<E>) -> (r: bool)
        ensures
            r == capture_accepts(self@, *e),
    {
        match self.phase {
            Phase::Checking => matches!(e, Event::Observed(_) | Event::DriverFailed(_) | Event::Cancelled),
            Phase::Starting => matches!(e, Event::Completed | Event::DriverFailed(_) | Event::Cancelled),
            Phase::Reading => match e {
                Event::BytesRead(n) => *n <= BUFFER_SIZE,
                Event::DriverFailed(_) | Event::Cancelled => true,
                _ => false,
            },
            Phase::Writing => match e {
                Event::BytesWritten(n) => self.cursor <= self.chunk && *n <= self.chunk - self.cursor,
                Event::SinkFailed(_) => true,
                _ => false,
            },
            Phase::Stopping => matches!(e, Event::Completed | Event::DriverFailed(_)),
            Phase::Done => false,
        }
    }

    fn stop_with(&mut self, ending: Ending<E>) -> (r: Command)
        ensures
            (final(self)@, r) == to_stopping(old(self)@, ending),
    {
        self.phase = Phase::Stopping;
        self.ending = ending;
        self.log = Ghost(self.log@.push(Command::Stop));
        Command::Stop
    }

    fn done_with(&mut self, ending: Ending<E>) -> (r: Command)
        ensures
            (final(self)@, r) == to_done(old(self)@, ending),
    {
        self.phase = Phase::Done;
        self.ending = ending;
        Command::Finish
    }

    /// Takes the outcome of the last command and hands out the next one.
    pub fn step(&mut self, e: Event<E>) -> (r: Command)
        requires
            capture_wf(old(self)@),
            capture_accepts(old(self)@, e),
        ensures
            capture_wf(final(self)@),
            (final(self)@, r) == capture_next(old(self)@, e),
    {
        let ghost v = self@;
        match (self.phase, e) {
            (Phase::Checking, Event::Observed(s)) => {
                if legal(Operation::Start, s) {
                    self.phase = Phase::Starting;
                    self.log = Ghost(self.log@.push(Command::Start));
                    Command::Start
                } else {
                    self.done_with(Ending::Failed(Failure { kind: ControlError::WrongState, cause: None }))
                }
            },
            (Phase::Checking, Event::DriverFailed(x)) => self.done_with(
                Ending::Failed(Failure { kind: ControlError::DriverFault, cause: Some(x) }),
            ),
            (Phase::Checking, _) => self.done_with(Ending::Cancelled),
            (Phase::Starting, Event::Completed) => {
                self.phase = Phase::Reading;
                self.log = Ghost(self.log@.push(Command::Read));
                Command::Read
            },
            (Phase::Starting, Event::DriverFailed(x)) => self.stop_with(
                Ending::Failed(Failure { kind: ControlError::DriverFault, cause: Some(x) }),
            ),
            (Phase::Starting, _) => self.stop_with(Ending::Cancelled),
            (Phase::Reading, Event::BytesRead(n)) => {
                proof {
                    lemma_total_push(v.reads, n as int);
                }
                if n == 0 {
                    self.reads = Ghost(self.reads@.push(0));
                    self.log = Ghost(self.log@.push(Command::Read));
                    Command::Read
                } else {
                    let w = Command::Write { from: 0, to: n };
                    self.phase = Phase::Writing;
                    self.read_total = self.read_total + n;
                    self.chunk = n;
                    self.cursor = 0;
                    self.reads = Ghost(self.reads@.push(n as int));
                    self.log = Ghost(self.log@.push(w));
                    w
                }
            },
            (Phase::Reading, Event::DriverFailed(x)) => self.stop_with(
                Ending::Failed(Failure { kind: ControlError::DriverFault, cause: Some(x) }),
            ),
            (Phase::Reading, _) => self.stop_with(Ending::Cancelled),
            (Phase::Writing, Event::BytesWritten(n)) => {
                if n == 0 {
                    self.stop_with(Ending::Failed(Failure { kind: ControlError::IoFault, cause: None }))
                } else {
                    proof {
                        lemma_total_push(v.writes, n as int);
                    }
                    self.written = self.written + n;
                    self.cursor = self.cursor + n;
                    self.writes = Ghost(self.writes@.push(n as int));
                    if self.cursor < self.chunk {
                        let w = Command::Write { from: self.cursor, to: self.chunk };
                        self.log = Ghost(self.log@.push(w));
                        w
                    } else if self.written >= self.target {
                        self.stop_with(Ending::Completed)
                    } else {
                        self.phase = Phase::Reading;
                        self.log = Ghost(self.log@.push(Command::Read));
                        Command::Read
                    }
                }
            },
            (Phase::Writing, Event::SinkFailed(x)) => self.stop_with(
                Ending::Failed(Failure { kind: ControlError::IoFault, cause: Some(x) }),
            ),
            (_, _) => {
                self.phase = Phase::Done;
                Command::Finish
            },
        }
    }

    /// Whether the session has finished.
    pub fn is_done(&self) -> (r: bool)
        ensures
            r == (self@.phase is Done),
    {
        matches!(self.phase, Phase::Done)
    }

    /// The device whose token the session holds.
    pub fn device(&self) -> (r: u64)
        ensures
            r == self@.owner,
    {
        self.token.device()
    }

    /// Bytes written to the sink so far.
    pub fn written(&self) -> (r: u64)
        ensures
            r == self@.written,
    {
        self.written
    }

    /// Closes a finished session: gives the device back to the arbiter and
    /// reports the bytes written and why the session ended.
    pub fn finish(self, arbiter: &mut Arbiter) -> (r: CaptureReport<E>)
        requires
            capture_wf(self@),
            self@.phase is Done,
            old(arbiter).device_of() == self@.owner,
        ensures
            r.written == self@.written,
            r.ending == self@.ending,
            !final(arbiter).is_held(),
            final(arbiter).device_of() == old(arbiter).device_of(),
    {
        let Capture { written, ending, token, .. } = self;
        arbiter.release(token);
        CaptureReport { written, ending }
    }
}

/// Once a session has finished, the device is not left running: if it was
/// ever started, the last command handed out was `Stop`; if it was not, the
/// state query was the only command.
pub proof fn finished_capture_is_stopped<E>(v: CaptureView<E>)
    requires
        capture_wf(v),
        v.phase is Done,
    ensures
        v.log.contains(Command::Start) ==> v.log.last() == Command::Stop,
        !v.log.contains(Command::Start) ==> v.log == seq![Command::QueryState],
{
    if v.log.len() == 1 {
        assert(!v.log.contains(Command::Start));
        assert(v.log =~= seq![Command::QueryState]);
    } else {
        assert(v.log.contains(Command::Start)) by {
            assert(v.log[1] == Command::Start);
        }
    }
}

/// Byte accounting of a finished session: the reported count is the sum of
/// all sink writes and never more than the sum of all reads. A session that
/// reached its target or was cancelled wrote exactly what it read; one that
/// reached its target wrote at least the target. Only a failed session may
/// leave part of a buffer unwritten.
pub proof fn capture_accounting<E>(v: CaptureView<E>)
    requires
        capture_wf(v),
        v.phase is Done,
    ensures
        v.written == total(v.writes),
        total(v.writes) <= total(v.reads),
        v.ending is Completed ==> total(v.writes) == total(v.reads) && total(v.writes) >= v.target,
        v.ending is Cancelled ==> total(v.writes) == total(v.reads),
        !(v.ending is Failed) ==> total(v.writes) == total(v.reads),
{
}

/// A session that finds the device in any state but `Ready` fails with
/// `WrongState` at once, before it starts, reads or stops anything.
pub proof fn start_refused_unless_ready<E>(v: CaptureView<E>, s: DeviceState)
    requires
        capture_wf(v),
        v.phase is Checking,
        !(s is Ready),
    ensures
        capture_next(v, Event::Observed(s)).1 == Command::Finish,
        capture_next(v, Event::Observed(s)).0.ending == failed::<E>(ControlError::WrongState, None),
        capture_next(v, Event::Observed(s)).0.log == seq![Command::QueryState],
        capture_next(v, Event::Observed(s)).0.written == 0,
{
    assert(v.log =~= seq![Command::QueryState]);
}

} // verus!
