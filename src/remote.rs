use vstd::prelude::*;
use crate::command::{Command, Event};
use crate::config::{Configuration, RawRequest, Settings};
use crate::error::{ControlError, Failure};
use crate::guard::{AccessToken, Arbiter};
use crate::state::{legal, permits, DeviceState, Operation};

verus! {

/// The answer to a remote configuration request.
#[derive(Clone, Debug, PartialEq, Eq)]
pub enum Reply<E> {
    Accepted,
    Rejected(Failure<E>),
}

/// Where a remote configuration stands.
#[derive(Clone, Copy, Debug, PartialEq, Eq, Structural)]
pub enum RemotePhase {
    /// Waiting for the device state.
    Querying,
    /// Waiting for a running device to stop.
    Stopping,
    /// Waiting for the configuration to be loaded.
    Configuring,
    /// Finished.
    Done,
}

/// A remote configuration as a model: the settings to load, the state the
/// device was found in, the reply so far, and every command handed out but
/// the last `Finish`.
pub struct RemoteView<E> {
    pub phase: RemotePhase,
    /// The device whose token the request holds.
    pub owner: u64,
    pub settings: Settings,
    pub observed: Option<DeviceState>,
    /// The reply; settled once the request is done.
    pub reply: Reply<E>,
    pub log: Seq<Command>,
}

/// The commands that configure a device found in state `s`: a running device
/// is stopped first.
pub open spec fn configure_plan(s: DeviceState) -> Seq<Command> {
    if s is Running {
        seq![Command::QueryState, Command::Stop, Command::Configure]
    } else {
        seq![Command::QueryState, Command::Configure]
    }
}

/// The invariant of a remote configuration.
pub open spec fn remote_wf<E>(v: RemoteView<E>) -> bool {
    match v.phase {
        RemotePhase::Querying => v.log == seq![Command::QueryState] && v.observed is None,
        RemotePhase::Stopping => v.observed == Some(DeviceState::Running) && v.log == seq![
            Command::QueryState,
            Command::Stop,
        ],
        RemotePhase::Configuring => v.observed is Some && v.log == configure_plan(v.observed->Some_0),
        RemotePhase::Done => v.reply is Accepted ==> v.observed is Some && v.log == configure_plan(
            v.observed->Some_0,
        ),
    }
}

/// Whether a remote configuration in state `v` takes event `e`.
pub open spec fn remote_accepts<E>(v: RemoteView<E>, e: Event<E>) -> bool {
    match v.phase {
        RemotePhase::Querying => e is Observed || e is DriverFailed,
        RemotePhase::Stopping | RemotePhase::Configuring => e is Completed || e is DriverFailed,
        RemotePhase::Done => false,
    }
}

/// End with `reply`, without touching the device again.
pub open spec fn remote_done<E>(v: RemoteView<E>, reply: Reply<E>) -> (RemoteView<E>, Command) {
    (RemoteView { phase: RemotePhase::Done, reply, ..v }, Command::Finish)
}

/// The next state of a remote configuration, and the next command, after
/// event `e`.
pub open spec fn remote_next<E>(v: RemoteView<E>, e: Event<E>) -> (RemoteView<E>, Command) {
    match (v.phase, e) {
        (RemotePhase::Querying, Event::Observed(s)) => if permits(Operation::Configure, s) {
            (
                RemoteView {
                    phase: RemotePhase::Configuring,
                    observed: Some(s),
                    log: v.log.push(Command::Configure),
                    ..v
                },
                Command::Configure,
            )
        } else {
            (
                RemoteView {
                    phase: RemotePhase::Stopping,
                    observed: Some(s),
                    log: v.log.push(Command::Stop),
                    ..v
                },
                Command::Stop,
            )
        },
        (RemotePhase::Stopping, Event::Completed) => (
            RemoteView { phase: RemotePhase::Configuring, log: v.log.push(Command::Configure), ..v },
            Command::Configure,
        ),
        (RemotePhase::Configuring, Event::Completed) => remote_done(v, Reply::Accepted),
        (_, Event::DriverFailed(x)) => remote_done(
            v,
            Reply::Rejected(Failure { kind: ControlError::DriverFault, cause: Some(x) }),
        ),
        (_, _) => remote_done(v, v.reply),
    }
}

/// A remote configuration request that holds the device: loads a validated
/// configuration, stopping a running device first. It never starts a capture.
pub struct Reconfigure<E> {
    phase: RemotePhase,
    config: Configuration,
    observed: Ghost<Option<DeviceState>>,
    reply: Reply<E>,
    token: AccessToken,
    log: Ghost<Seq<Command>>,
}

impl<E> View for Reconfigure<E> {
    type V = RemoteView<E>;

    closed spec fn view(&self) -> RemoteView<E> {
        RemoteView {
            phase: self.phase,
            owner: self.token.device_of(),
            settings: self.config@,
            observed: self.observed@,
            reply: self.reply,
            log: self.log@,
        }
    }
}

impl<E> Reconfigure<E> {
    /// Validates a request and, only if it is valid, asks the arbiter for the
    /// device. A request that fails validation leaves the arbiter untouched; a
    /// valid one is turned away with `DeviceBusy` while another caller holds
    /// the device. Once admitted, the first command asks for the device state.
    pub fn open(raw: &RawRequest, arbiter: &mut Arbiter) -> (r: Result<
        (Reconfigure<E>, Command),
        ControlError,
    >)
        ensures
            final(arbiter).device_of() == old(arbiter).device_of(),
            raw.settings_spec() is None ==> r == Err::<(Reconfigure<E>, Command), ControlError>(
                ControlError::InvalidParameters,
            ) && *final(arbiter) == *old(arbiter),
            raw.settings_spec() is Some && old(arbiter).is_held() ==> r == Err::<
                (Reconfigure<E>, Command),
                ControlError,
            >(ControlError::DeviceBusy) && final(arbiter).is_held(),
            raw.settings_spec() is Some && !old(arbiter).is_held() ==> {
                &&& r is Ok
                &&& final(arbiter).is_held()
                &&& r->Ok_0.1 == Command::QueryState
                &&& r->Ok_0.0@ == (RemoteView {
                    phase: RemotePhase::Querying,
                    owner: old(arbiter).device_of(),
                    settings: raw.settings_spec()->Some_0,
                    observed: None,
                    reply: Reply::Rejected(Failure::<E> { kind: ControlError::DriverFault, cause: None }),
                    log: seq![Command::QueryState],
                })
            },
            r is Ok ==> remote_wf(r->Ok_0.0@),
    {
        let config = match Configuration::from_raw(raw) {
            Ok(c) => c,
            Err(e) => return Err(e),
        };
        let token = match arbiter.try_acquire() {
            Ok(t) => t,
            Err(e) => return Err(e),
        };
        let rc = Reconfigure {
            phase: RemotePhase::Querying,
            config,
            observed: Ghost(None),
            reply: Reply::Rejected(Failure { kind: ControlError::DriverFault, cause: None }),
            token,
            log: Ghost(Seq::empty().push(Command::QueryState)),
        };
        assert(rc@.log =~= seq![Command::QueryState]);
        Ok((rc, Command::QueryState))
    }

    /// Whether the request takes `e` next.
    pub fn accepts(&self, e: &Event<E>) -> (r: bool)
        ensures
            r == remote_accepts(self@, *e),
    {
        match self.phase {
            RemotePhase::Querying => matches!(e, Event::Observed(_) | Event::DriverFailed(_)),
            RemotePhase::Stopping | RemotePhase::Configuring => matches!(
                e,
                Event::Completed | Event::DriverFailed(_)
            ),
            RemotePhase::Done => false,
        }
    }

    /// Takes the outcome of the last command and hands out the next one.
    pub fn step(&mut self, e: Event<E>) -> (r: Command)
        requires
            remote_wf(old(self)@),
            remote_accepts(old(self)@, e),
        ensures
            remote_wf(final(self)@),
            (final(self)@, r) == remote_next(old(self)@, e),
    {
        match (self.phase, e) {
            (RemotePhase::Querying, Event::Observed(s)) => {
                self.observed = Ghost(Some(s));
                if legal(Operation::Configure, s) {
                    self.phase = RemotePhase::Configuring;
                    self.log = Ghost(self.log@.push(Command::Configure));
                    assert(self.log@ =~= configure_plan(s));
                    Command::Configure
                } else {
                    self.phase = RemotePhase::Stopping;
                    self.log = Ghost(self.log@.push(Command::Stop));
                    assert(self.log@ =~= seq![Command::QueryState, Command::Stop]);
                    Command::Stop
                }
            },
            (RemotePhase::Stopping, Event::Completed) => {
                self.phase = RemotePhase::Configuring;
                self.log = Ghost(self.log@.push(Command::Configure));
                assert(self.log@ =~= configure_plan(DeviceState::Running));
                Command::Configure
            },
            (RemotePhase::Configuring, Event::Completed) => {
                self.phase = RemotePhase::Done;
                self.reply = Reply::Accepted;
                Command::Finish
            },
            (_, Event::DriverFailed(x)) => {
                self.phase = RemotePhase::Done;
                self.reply = Reply::Rejected(Failure { kind: ControlError::DriverFault, cause: Some(x) });
                Command::Finish
            },
            (_, _) => {
                self.phase = RemotePhase::Done;
                Command::Finish
            },
        }
    }

    /// The configuration to load when the command is `Configure`.
    pub fn configuration(&self) -> (r: Configuration)
        ensures
            r@ == self@.settings,
    {
        self.config
    }

    /// The device whose token the request holds.
    pub fn device(&self) -> (r: u64)
        ensures
            r == self@.owner,
    {
        self.token.device()
    }

    /// Whether the request has finished.
    pub fn is_done(&self) -> (r: bool)
        ensures
            r == (self@.phase is Done),
    {
        matches!(self.phase, RemotePhase::Done)
    }

    /// Closes a finished request: gives the device back to the arbiter and
    /// returns the reply.
    pub fn finish(self, arbiter: &mut Arbiter) -> (r: Reply<E>)
        requires
            self@.phase is Done,
            old(arbiter).device_of() == self@.owner,
        ensures
            r == self@.reply,
            !final(arbiter).is_held(),
            final(arbiter).device_of() == old(arbiter).device_of(),
    {
        let Reconfigure { reply, token, .. } = self;
        arbiter.release(token);
        reply
    }
}

/// A remote configuration that was accepted stopped the device before
/// configuring it when it found it running, and configured it directly in any
/// other state.
pub proof fn accepted_follows_plan<E>(v: RemoteView<E>)
    requires
        remote_wf(v),
        v.phase is Done,
        v.reply is Accepted,
    ensures
        v.observed == Some(DeviceState::Running) ==> v.log == seq![
            Command::QueryState,
            Command::Stop,
            Command::Configure,
        ],
        v.observed is Some && v.observed != Some(DeviceState::Running) ==> v.log == seq![
            Command::QueryState,
            Command::Configure,
        ],
{
}

/// The first command after the state query stops a running device and
/// configures a device in any other state; after a stop the configuration
/// follows.
pub proof fn stop_before_configure<E>(v: RemoteView<E>, s: DeviceState)
    requires
        remote_wf(v),
        v.phase is Querying,
    ensures
        s is Running ==> remote_next(v, Event::Observed(s)).1 == Command::Stop && remote_next(
            remote_next(v, Event::Observed(s)).0,
            Event::<E>::Completed,
        ).1 == Command::Configure,
        !(s is Running) ==> remote_next(v, Event::<E>::Observed(s)).1 == Command::Configure,
{
}

} // verus!
