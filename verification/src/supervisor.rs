//! The host supervisor's state machine: one background thread opens two
//! transport connections, starts one embedded lattice member under the
//! session namespace, and awaits the interrupt that stops it. A failed
//! connection is fatal to this thread alone — the console runs on,
//! hostless — and no restart is supported.

use vstd::prelude::*;
use vstd::string::StringExecFns;

verus! {

/// The fixed namespace the session's member joins.
pub fn ctl_namespace() -> (ns: &'static str)
    ensures
        ns@ == "default"@,
{
    "default"
}

#[derive(Clone, Copy, Debug, PartialEq, Eq)]
pub enum SupervisorPhase {
    /// The thread is up; connections are being opened.
    Starting,
    /// Both connections are open; the member is being started.
    Connected,
    /// The member runs; the thread awaits the interrupt.
    Running,
    /// A connection or the member's start failed; the thread exits and
    /// the console continues without an embedded member.
    Hostless,
    /// The member was stopped after the interrupt.
    Stopped,
}

/// What the supervisor hears: both connections opened, something failed,
/// the member came up (with its identity), or the process interrupt.
pub enum SupervisorEvent {
    ConnectionsOpened,
    ConnectionFailed,
    MemberStarted(String),
    Interrupt,
}

/// The ghost mirror of an event, with the identity as characters.
pub enum SupervisorEventModel {
    ConnectionsOpened,
    ConnectionFailed,
    MemberStarted(Seq<char>),
    Interrupt,
}

impl SupervisorEvent {
    pub open spec fn model(&self) -> SupervisorEventModel {
        match self {
            SupervisorEvent::ConnectionsOpened => SupervisorEventModel::ConnectionsOpened,
            SupervisorEvent::ConnectionFailed => SupervisorEventModel::ConnectionFailed,
            SupervisorEvent::MemberStarted(id) => SupervisorEventModel::MemberStarted(id@),
            SupervisorEvent::Interrupt => SupervisorEventModel::Interrupt,
        }
    }
}

/// What the supervisor does next.
#[derive(Clone, Copy, Debug, PartialEq, Eq)]
pub enum SupervisorAction {
    OpenConnections,
    StartMember,
    AwaitInterrupt,
    StopMember,
    ExitThread,
    NoAction,
}

/// The member identity as characters.
pub open spec fn member_view(m: Option<String>) -> Option<Seq<char>> {
    match m {
        Some(id) => Some(id@),
        None => None,
    }
}

/// The whole transition table. `Hostless` and `Stopped` absorb every
/// event: the thread is done and nothing restarts it.
pub open spec fn spec_step(
    p: SupervisorPhase,
    m: Option<Seq<char>>,
    e: SupervisorEventModel,
) -> (SupervisorPhase, Option<Seq<char>>, SupervisorAction) {
    match (p, e) {
        (SupervisorPhase::Starting, SupervisorEventModel::ConnectionsOpened) => (
            SupervisorPhase::Connected,
            m,
            SupervisorAction::StartMember,
        ),
        (SupervisorPhase::Starting, SupervisorEventModel::ConnectionFailed) => (
            SupervisorPhase::Hostless,
            m,
            SupervisorAction::ExitThread,
        ),
        (SupervisorPhase::Connected, SupervisorEventModel::MemberStarted(id)) => (
            SupervisorPhase::Running,
            Some(id),
            SupervisorAction::AwaitInterrupt,
        ),
        (SupervisorPhase::Connected, SupervisorEventModel::ConnectionFailed) => (
            SupervisorPhase::Hostless,
            m,
            SupervisorAction::ExitThread,
        ),
        (SupervisorPhase::Running, SupervisorEventModel::Interrupt) => (
            SupervisorPhase::Stopped,
            m,
            SupervisorAction::StopMember,
        ),
        _ => (p, m, SupervisorAction::NoAction),
    }
}

/// Once the thread has failed or stopped, every event is a no-op: no
/// restart is supported.
pub proof fn lemma_no_restart(p: SupervisorPhase, m: Option<Seq<char>>, e: SupervisorEventModel)
    requires
        p is Hostless || p is Stopped,
    ensures
        spec_step(p, m, e) == (p, m, SupervisorAction::NoAction),
{
}

/// A failure is fatal only to the supervisor itself: no event ever asks
/// the caller to end anything beyond this thread, and a connection
/// failure leads to the hostless phase, never to a stop of a member
/// that is not running.
pub proof fn lemma_failure_is_local(
    p: SupervisorPhase,
    m: Option<Seq<char>>,
)
    ensures
        spec_step(p, m, SupervisorEventModel::ConnectionFailed).2 != SupervisorAction::StopMember,
        spec_step(p, m, SupervisorEventModel::ConnectionFailed).0 is Hostless
            || spec_step(p, m, SupervisorEventModel::ConnectionFailed).0 == p,
{
}

/// The per-session supervisor state: its phase and, once started, the
/// identity of the embedded member.
pub struct HostSupervisor {
    pub phase: SupervisorPhase,
    pub member: Option<String>,
}

impl HostSupervisor {
    /// The member identity is known exactly while one is running or was
    /// stopped.
    pub open spec fn wf(&self) -> bool {
        (self.phase is Running || self.phase is Stopped) <==> self.member is Some
    }

    /// A fresh supervisor: its first duty is to open the connections.
    pub fn new() -> (s: Self)
        ensures
            s.phase is Starting,
            s.member is None,
            s.wf(),
    {
        HostSupervisor { phase: SupervisorPhase::Starting, member: None }
    }

    /// Feed one event through the transition table.
    pub fn step(&mut self, event: SupervisorEvent) -> (a: SupervisorAction)
        requires
            old(self).wf(),
        ensures
            (final(self).phase, member_view(final(self).member), a) == spec_step(
                old(self).phase,
                member_view(old(self).member),
                event.model(),
            ),
            final(self).wf(),
    {
        match (self.phase, event) {
            (SupervisorPhase::Starting, SupervisorEvent::ConnectionsOpened) => {
                self.phase = SupervisorPhase::Connected;
                SupervisorAction::StartMember
            },
            (SupervisorPhase::Starting, SupervisorEvent::ConnectionFailed) => {
                self.phase = SupervisorPhase::Hostless;
                SupervisorAction::ExitThread
            },
            (SupervisorPhase::Connected, SupervisorEvent::MemberStarted(id)) => {
                self.phase = SupervisorPhase::Running;
                self.member = Some(id);
                SupervisorAction::AwaitInterrupt
            },
            (SupervisorPhase::Connected, SupervisorEvent::ConnectionFailed) => {
                self.phase = SupervisorPhase::Hostless;
                SupervisorAction::ExitThread
            },
            (SupervisorPhase::Running, SupervisorEvent::Interrupt) => {
                self.phase = SupervisorPhase::Stopped;
                SupervisorAction::StopMember
            },
            _ => SupervisorAction::NoAction,
        }
    }
}

/// The error line logged when the supervisor goes hostless.
pub fn hostless_error_message() -> (m: String)
    ensures
        m@ == "Error launching host, please ensure NATS is running. Continuing in hostless mode"@,
{
    String::from_str(
        "Error launching host, please ensure NATS is running. Continuing in hostless mode")
}

/// The info line logged once the member is up, naming it and the
/// session namespace.
pub fn member_started_message(member_id: &str) -> (m: String)
    ensures
        m@ == "Host: "@ + member_id@ + " started in namespace: default"@,
{
    let mut m = String::from_str("Host: ");
    m.append(member_id);
    m.append(" started in namespace: default");
    m
}

} // verus!
