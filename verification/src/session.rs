//! The probe procedure as a state machine.
//!
//! A [`Session`] performs no system call. It names the next socket operation
//! ([`Session::pending`]), is told whether that operation succeeded
//! ([`Session::advance`]), and ends with the capability record. Whoever owns
//! the sockets runs the loop between the two.

use vstd::prelude::*;
use crate::caps::{Probe, ProbeView};
use crate::endpoint::{Endpoint, Family};

verus! {

/// One of the two trials made on an IPv6 socket.
#[derive(Debug, Clone, Copy, PartialEq, Eq, Structural)]
pub enum Trial {
    /// IPv6 proper: the socket is restricted to IPv6 and bound to `::1`.
    Ipv6,
    /// IPv4-mapped IPv6: the restriction is lifted and the socket is bound to
    /// `::ffff:127.0.0.1`.
    Ipv4Mapped,
}

impl Trial {
    /// The value this trial gives the IPv6-only socket option.
    pub open spec fn spec_v6_only(self) -> bool {
        self is Ipv6
    }

    /// The address this trial binds its socket to.
    pub open spec fn spec_target(self) -> Endpoint {
        match self {
            Trial::Ipv6 => Endpoint::spec_loopback(),
            Trial::Ipv4Mapped => Endpoint::spec_mapped_loopback(),
        }
    }

    /// The record `caps` with this trial's capability confirmed.
    pub open spec fn confirm(self, caps: ProbeView) -> ProbeView {
        match self {
            Trial::Ipv6 => ProbeView { ipv6: true, ..caps },
            Trial::Ipv4Mapped => ProbeView { ipv4_mapped_ipv6: true, ..caps },
        }
    }

    /// Where the procedure stands once this trial is over.
    pub open spec fn following(self) -> Stage {
        match self {
            Trial::Ipv6 => Stage::Open(Trial::Ipv4Mapped),
            Trial::Ipv4Mapped => Stage::Cleanup,
        }
    }

    /// The value this trial gives the IPv6-only socket option.
    #[verifier::when_used_as_spec(spec_v6_only)]
    pub fn v6_only(self) -> (only: bool)
        ensures
            only == self.spec_v6_only(),
    {
        match self {
            Trial::Ipv6 => true,
            Trial::Ipv4Mapped => false,
        }
    }

    /// The address this trial binds its socket to.
    #[verifier::when_used_as_spec(spec_target)]
    pub fn target(self) -> (target: Endpoint)
        ensures
            target == self.spec_target(),
    {
        match self {
            Trial::Ipv6 => Endpoint::loopback(),
            Trial::Ipv4Mapped => Endpoint::mapped_loopback(),
        }
    }
}

/// Where a session stands: the operation it is waiting on.
#[derive(Debug, Clone, Copy, PartialEq, Eq, Structural)]
pub enum Stage {
    /// Waiting for the network subsystem to be started.
    Startup,
    /// Waiting for the IPv4 socket to be created.
    OpenInet,
    /// Waiting for the IPv4 socket to be released.
    CloseInet,
    /// Waiting for the trial's IPv6 socket to be created.
    Open(Trial),
    /// Waiting for the IPv6-only option to be set on the trial's socket.
    Configure(Trial),
    /// Waiting for the trial's socket to be bound.
    Bind(Trial),
    /// Waiting for the trial's socket to be released.
    Close(Trial),
    /// Waiting for the network subsystem to be shut down.
    Cleanup,
    /// Nothing is left to do.
    Finished,
}

/// A socket operation that a session asks for.
#[derive(Debug, Clone, Copy, PartialEq, Eq)]
pub enum Action {
    /// Start the network subsystem, where the platform has one to start.
    Startup,
    /// Create a TCP stream socket in the given family and keep it as the
    /// session's socket.
    Open(Family),
    /// Set the IPv6-only option of the session's socket to the given value.
    SetV6Only(bool),
    /// Bind the session's socket to the given address.
    Bind(Endpoint),
    /// Release the session's socket.
    Close,
    /// Shut the network subsystem down, where the platform has one.
    Cleanup,
}

/// What a session wants next.
#[derive(Debug, Clone, Copy, PartialEq, Eq)]
pub enum Step {
    /// Perform the operation and report its outcome with
    /// [`Session::advance`].
    Perform(Action),
    /// The session is over; this is what it found.
    Done(Probe),
}

/// A session as a mathematical value: its stage and the capabilities
/// confirmed so far.
pub struct SessionView {
    /// The operation the session is waiting on.
    pub stage: Stage,
    /// What the session has confirmed so far.
    pub caps: ProbeView,
}

impl SessionView {
    /// A session before its first operation.
    pub open spec fn initial() -> SessionView {
        SessionView { stage: Stage::Startup, caps: ProbeView::unsupported() }
    }

    /// Whether the session is over.
    pub open spec fn finished(self) -> bool {
        self.stage is Finished
    }

    /// The operation the session is waiting on; `None` once it is over.
    pub open spec fn action(self) -> Option<Action> {
        match self.stage {
            Stage::Startup => Some(Action::Startup),
            Stage::OpenInet => Some(Action::Open(Family::Inet)),
            Stage::Open(_) => Some(Action::Open(Family::Inet6)),
            Stage::Configure(trial) => Some(Action::SetV6Only(trial.spec_v6_only())),
            Stage::Bind(trial) => Some(Action::Bind(trial.spec_target())),
            Stage::CloseInet | Stage::Close(_) => Some(Action::Close),
            Stage::Cleanup => Some(Action::Cleanup),
            Stage::Finished => None,
        }
    }

    /// The session after the pending operation was reported as succeeded
    /// (`ok`) or failed.
    ///
    /// Only two reports matter. A socket that could not be created ends its
    /// check at once, and a created IPv4 socket or a successful bind confirms
    /// the capability under test. Every other report is passed over: a
    /// failure to set the option does not end the trial.
    pub open spec fn next(self, ok: bool) -> SessionView {
        match self.stage {
            Stage::Startup => SessionView { stage: Stage::OpenInet, ..self },
            Stage::OpenInet => if ok {
                SessionView {
                    stage: Stage::CloseInet,
                    caps: ProbeView { ipv4: true, ..self.caps },
                }
            } else {
                SessionView { stage: Stage::Open(Trial::Ipv6), ..self }
            },
            Stage::CloseInet => SessionView { stage: Stage::Open(Trial::Ipv6), ..self },
            Stage::Open(trial) => if ok {
                SessionView { stage: Stage::Configure(trial), ..self }
            } else {
                SessionView { stage: trial.following(), ..self }
            },
            Stage::Configure(trial) => SessionView { stage: Stage::Bind(trial), ..self },
            Stage::Bind(trial) => SessionView {
                stage: Stage::Close(trial),
                caps: if ok {
                    trial.confirm(self.caps)
                } else {
                    self.caps
                },
            },
            Stage::Close(trial) => SessionView { stage: trial.following(), ..self },
            Stage::Cleanup => SessionView { stage: Stage::Finished, ..self },
            Stage::Finished => self,
        }
    }
}

/// A probe in progress.
#[derive(Debug)]
pub struct Session {
    stage: Stage,
    caps: Probe,
}

impl View for Session {
    type V = SessionView;

    closed spec fn view(&self) -> SessionView {
        SessionView { stage: self.stage, caps: self.caps@ }
    }
}

impl Session {
    /// Starts a session: nothing has been done and nothing is confirmed.
    pub fn new() -> (session: Session)
        ensures
            session@ == SessionView::initial(),
    {
        Session { stage: Stage::Startup, caps: Probe::unsupported() }
    }

    /// What the session wants next: an operation to perform, or, once it is
    /// over, the record it found.
    pub fn pending(&self) -> (step: Step)
        ensures
            match step {
                Step::Perform(action) => self@.action() == Some(action),
                Step::Done(caps) => self@.finished() && caps@ == self@.caps,
            },
    {
        match self.stage {
            Stage::Startup => Step::Perform(Action::Startup),
            Stage::OpenInet => Step::Perform(Action::Open(Family::Inet)),
            Stage::CloseInet => Step::Perform(Action::Close),
            Stage::Open(_) => Step::Perform(Action::Open(Family::Inet6)),
            Stage::Configure(trial) => Step::Perform(Action::SetV6Only(trial.v6_only())),
            Stage::Bind(trial) => Step::Perform(Action::Bind(trial.target())),
            Stage::Close(_) => Step::Perform(Action::Close),
            Stage::Cleanup => Step::Perform(Action::Cleanup),
            Stage::Finished => Step::Done(self.caps),
        }
    }

    /// Takes the outcome of the pending operation and moves on. On a
    /// finished session this changes nothing.
    pub fn advance(&mut self, ok: bool)
        ensures
            final(self)@ == old(self)@.next(ok),
    {
        match self.stage {
            Stage::Startup => {
                self.stage = Stage::OpenInet;
            },
            Stage::OpenInet => {
                if ok {
                    self.caps = self.caps.with_ipv4();
                    self.stage = Stage::CloseInet;
                } else {
                    self.stage = Stage::Open(Trial::Ipv6);
                }
            },
            Stage::CloseInet => {
                self.stage = Stage::Open(Trial::Ipv6);
            },
            Stage::Open(trial) => {
                self.stage = if ok {
                    Stage::Configure(trial)
                } else {
                    Session::after(trial)
                };
            },
            Stage::Configure(trial) => {
                self.stage = Stage::Bind(trial);
            },
            Stage::Bind(trial) => {
                if ok {
                    self.caps = match trial {
                        Trial::Ipv6 => self.caps.with_ipv6(),
                        Trial::Ipv4Mapped => self.caps.with_ipv4_mapped_ipv6(),
                    };
                }
                self.stage = Stage::Close(trial);
            },
            Stage::Close(trial) => {
                self.stage = Session::after(trial);
            },
            Stage::Cleanup => {
                self.stage = Stage::Finished;
            },
            Stage::Finished => {},
        }
    }

    /// The stage that follows a trial.
    fn after(trial: Trial) -> (stage: Stage)
        ensures
            stage == trial.following(),
    {
        match trial {
            Trial::Ipv6 => Stage::Open(Trial::Ipv4Mapped),
            Trial::Ipv4Mapped => Stage::Cleanup,
        }
    }
}

} // verus!
