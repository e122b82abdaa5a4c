//! Whole runs of a session: what the socket layer reports from the first
//! operation to the last, which operations that makes the session ask for,
//! and the record it ends with.

use vstd::prelude::*;
use crate::caps::ProbeView;
use crate::endpoint::Family;
use crate::session::{Action, SessionView, Stage, Trial};

verus! {

/// What the socket layer reported during one IPv6 trial. Where the socket
/// could not be created nothing else was attempted, and the other three
/// fields stand for nothing.
pub struct TrialReport {
    /// The socket was created.
    pub open: bool,
    /// The IPv6-only option was set.
    pub option: bool,
    /// The socket was bound.
    pub bind: bool,
    /// What was reported of releasing the socket.
    pub close: bool,
}

impl TrialReport {
    /// Whether the trial confirms its capability: the socket was created and
    /// bound. Whether the option could be set plays no part.
    pub open spec fn passed(self) -> bool {
        self.open && self.bind
    }

    /// The reports of the trial in the order in which a session receives
    /// them, followed by `rest`.
    pub open spec fn script(self, rest: Seq<bool>) -> Seq<bool> {
        if self.open {
            seq![true] + (seq![self.option] + (seq![self.bind] + (seq![self.close] + rest)))
        } else {
            seq![false] + rest
        }
    }

    /// The operations of `trial` under these reports, in order, followed by
    /// `rest`.
    pub open spec fn plan(self, trial: Trial, rest: Seq<Action>) -> Seq<Action> {
        if self.open {
            seq![Action::Open(Family::Inet6)] + (seq![Action::SetV6Only(trial.spec_v6_only())] + (
            seq![Action::Bind(trial.spec_target())] + (seq![Action::Close] + rest)))
        } else {
            seq![Action::Open(Family::Inet6)] + rest
        }
    }
}

/// What the socket layer reported over a whole probe.
pub struct Reports {
    /// What was reported of starting the network subsystem.
    pub startup: bool,
    /// The IPv4 socket was created.
    pub inet_open: bool,
    /// What was reported of releasing the IPv4 socket, if it was created.
    pub inet_close: bool,
    /// The trial of IPv6 proper.
    pub ipv6: TrialReport,
    /// The trial of IPv4-mapped IPv6.
    pub ipv4_mapped: TrialReport,
    /// What was reported of shutting the network subsystem down.
    pub cleanup: bool,
}

impl Reports {
    /// The capabilities that these reports establish.
    pub open spec fn verdict(self) -> ProbeView {
        ProbeView {
            ipv4: self.inet_open,
            ipv6: self.ipv6.passed(),
            ipv4_mapped_ipv6: self.ipv4_mapped.passed(),
        }
    }

    /// The reports in the order in which a session receives them.
    pub open spec fn script(self) -> Seq<bool> {
        let trials = self.ipv6.script(self.ipv4_mapped.script(seq![self.cleanup]));
        seq![self.startup] + if self.inet_open {
            seq![true] + (seq![self.inet_close] + trials)
        } else {
            seq![false] + trials
        }
    }

    /// The operations of the whole probe under these reports, in order: the
    /// subsystem is started, an IPv4 socket is created and, if that worked,
    /// released; each trial creates its socket and, if that worked, sets the
    /// option, binds and releases it; the subsystem is shut down.
    pub open spec fn plan(self) -> Seq<Action> {
        let trials = self.ipv6.plan(
            Trial::Ipv6,
            self.ipv4_mapped.plan(Trial::Ipv4Mapped, seq![Action::Cleanup]),
        );
        seq![Action::Startup] + if self.inet_open {
            seq![Action::Open(Family::Inet)] + (seq![Action::Close] + trials)
        } else {
            seq![Action::Open(Family::Inet)] + trials
        }
    }
}

impl SessionView {
    /// The session after it received `reports`, one per operation, in order.
    pub open spec fn run(self, reports: Seq<bool>) -> SessionView
        decreases reports.len(),
    {
        if reports.len() == 0 {
            self
        } else {
            self.next(reports.first()).run(reports.drop_first())
        }
    }

    /// The operations the session asks for while it receives `reports`.
    pub open spec fn asks(self, reports: Seq<bool>) -> Seq<Action>
        decreases reports.len(),
    {
        if reports.len() == 0 {
            seq![]
        } else {
            match self.action() {
                Some(action) => seq![action] + self.next(reports.first()).asks(
                    reports.drop_first(),
                ),
                None => seq![],
            }
        }
    }

    /// The largest number of operations the session may still ask for.
    pub open spec fn remaining(self) -> nat {
        match self.stage {
            Stage::Startup => 12,
            Stage::OpenInet => 11,
            Stage::CloseInet => 10,
            Stage::Open(trial) => Self::remaining_after(trial) + 4,
            Stage::Configure(trial) => Self::remaining_after(trial) + 3,
            Stage::Bind(trial) => Self::remaining_after(trial) + 2,
            Stage::Close(trial) => Self::remaining_after(trial) + 1,
            Stage::Cleanup => 1,
            Stage::Finished => 0,
        }
    }

    /// The largest number of operations left once `trial` is over.
    pub open spec fn remaining_after(trial: Trial) -> nat {
        match trial {
            Trial::Ipv6 => 5,
            Trial::Ipv4Mapped => 1,
        }
    }

    /// Whether the session's socket exists: one was created and has not been
    /// released yet.
    pub open spec fn holds_socket(self) -> bool {
        match self.stage {
            Stage::CloseInet | Stage::Configure(_) | Stage::Bind(_) | Stage::Close(_) => true,
            _ => false,
        }
    }

    /// A session that stood at the creation of `trial`'s socket, once the
    /// trial is over.
    pub open spec fn after_trial(self, trial: Trial, report: TrialReport) -> SessionView {
        SessionView {
            stage: trial.following(),
            caps: if report.passed() {
                trial.confirm(self.caps)
            } else {
                self.caps
            },
        }
    }

    /// One report moves a run one step: the first report is taken by the
    /// pending operation, the others by the session that follows.
    pub proof fn lemma_step(self, ok: bool, rest: Seq<bool>)
        ensures
            self.run(seq![ok] + rest) == self.next(ok).run(rest),
            self.asks(seq![ok] + rest) == match self.action() {
                Some(action) => seq![action] + self.next(ok).asks(rest),
                None => seq![],
            },
    {
        let reports = seq![ok] + rest;
        assert(reports.first() == ok);
        assert(reports.drop_first() =~= rest);
    }

    /// One trial, from the creation of its socket on: the session asks for
    /// the trial's operations, confirms the trial's capability if and only if
    /// the trial passed, leaves the other capabilities as they were, and goes
    /// on with what follows the trial.
    pub proof fn lemma_trial(self, trial: Trial, report: TrialReport, rest: Seq<bool>)
        requires
            self.stage == Stage::Open(trial),
        ensures
            self.run(report.script(rest)) == self.after_trial(trial, report).run(rest),
            self.asks(report.script(rest)) == report.plan(
                trial,
                self.after_trial(trial, report).asks(rest),
            ),
    {
        if report.open {
            let configure = self.next(true);
            let bind = configure.next(report.option);
            let close = bind.next(report.bind);
            self.lemma_step(
                true,
                seq![report.option] + (seq![report.bind] + (seq![report.close] + rest)),
            );
            configure.lemma_step(report.option, seq![report.bind] + (seq![report.close] + rest));
            bind.lemma_step(report.bind, seq![report.close] + rest);
            close.lemma_step(report.close, rest);
        } else {
            self.lemma_step(false, rest);
        }
    }

    /// Every operation brings the end nearer: while a session is not over,
    /// a report leaves it with fewer operations to go, whatever the report.
    pub proof fn lemma_progress(self, ok: bool)
        requires
            !self.finished(),
        ensures
            self.next(ok).remaining() < self.remaining(),
    {
    }

    /// A session is over after at most as many reports as it had operations
    /// to go: twelve for a whole probe.
    pub proof fn lemma_run_finishes(self, reports: Seq<bool>)
        requires
            reports.len() >= self.remaining(),
        ensures
            self.run(reports).finished(),
        decreases reports.len(),
    {
        if reports.len() > 0 {
            self.next(reports.first()).lemma_run_finishes(reports.drop_first());
        }
    }

    /// A session has at most one socket and leaves none behind. It asks for
    /// a socket only while it holds none, and holds one afterwards if and
    /// only if the creation succeeded; it sets the option and binds only on
    /// the socket it holds; a release ends the holding whatever is reported
    /// of it; and a session that is over, or is starting or shutting down the
    /// subsystem, holds none.
    pub proof fn lemma_socket_discipline(self, ok: bool)
        ensures
            match self.action() {
                Some(Action::Open(_)) => !self.holds_socket() && self.next(ok).holds_socket() == ok,
                Some(Action::SetV6Only(_)) | Some(Action::Bind(_)) => self.holds_socket()
                    && self.next(ok).holds_socket(),
                Some(Action::Close) => self.holds_socket() && !self.next(ok).holds_socket(),
                Some(Action::Startup) | Some(Action::Cleanup) | None => !self.holds_socket()
                    && !self.next(ok).holds_socket(),
            },
    {
    }
}

/// What a whole probe does and finds. A new session that receives the
/// reports of a probe in order asks for exactly the operations of
/// [`Reports::plan`], and is then over with exactly the capabilities of
/// [`Reports::verdict`]. A socket that cannot be created, or bound, leaves
/// its flag unset; nothing else does.
pub proof fn lemma_probe_run(reports: Reports)
    ensures
        SessionView::initial().run(reports.script()) == (SessionView {
            stage: Stage::Finished,
            caps: reports.verdict(),
        }),
        SessionView::initial().asks(reports.script()) == reports.plan(),
{
    let start = SessionView::initial();
    let last = seq![reports.cleanup];
    let mapped = reports.ipv4_mapped.script(last);
    let trials = reports.ipv6.script(mapped);
    let inet = start.next(reports.startup);
    let first = if reports.inet_open {
        inet.next(true).next(reports.inet_close)
    } else {
        inet.next(false)
    };
    let second = first.after_trial(Trial::Ipv6, reports.ipv6);
    let third = second.after_trial(Trial::Ipv4Mapped, reports.ipv4_mapped);
    if reports.inet_open {
        start.lemma_step(reports.startup, seq![true] + (seq![reports.inet_close] + trials));
        inet.lemma_step(true, seq![reports.inet_close] + trials);
        inet.next(true).lemma_step(reports.inet_close, trials);
    } else {
        start.lemma_step(reports.startup, seq![false] + trials);
        inet.lemma_step(false, trials);
    }
    first.lemma_trial(Trial::Ipv6, reports.ipv6, mapped);
    second.lemma_trial(Trial::Ipv4Mapped, reports.ipv4_mapped, last);
    assert(last =~= seq![reports.cleanup] + Seq::<bool>::empty());
    third.lemma_step(reports.cleanup, Seq::<bool>::empty());
    assert(third.next(reports.cleanup).asks(Seq::<bool>::empty()) =~= Seq::<Action>::empty());
    assert(seq![Action::Cleanup] + Seq::<Action>::empty() =~= seq![Action::Cleanup]);
}

/// The script and the plan go together: there is one report for each
/// operation, so a session is over when the reports are used up and not
/// before.
pub proof fn lemma_script_matches_plan(reports: Reports)
    ensures
        reports.script().len() == reports.plan().len(),
{
}

/// The three checks do not touch each other: each flag that a whole probe
/// ends with is settled by the reports of its own check. Two probes whose
/// reports agree on one check agree on that check's flag, whatever was
/// reported of the other two; so a trial that is made to fail leaves the
/// other trial's flag as it would have been.
pub proof fn lemma_checks_independent(one: Reports, other: Reports)
    ensures
        one.inet_open == other.inet_open ==> SessionView::initial().run(one.script()).caps.ipv4
            == SessionView::initial().run(other.script()).caps.ipv4,
        one.ipv6 == other.ipv6 ==> SessionView::initial().run(one.script()).caps.ipv6
            == SessionView::initial().run(other.script()).caps.ipv6,
        one.ipv4_mapped == other.ipv4_mapped ==> SessionView::initial().run(
            one.script(),
        ).caps.ipv4_mapped_ipv6 == SessionView::initial().run(
            other.script(),
        ).caps.ipv4_mapped_ipv6,
{
    lemma_probe_run(one);
    lemma_probe_run(other);
}

} // verus!
