//! Role negotiation: try to host on the well-known address, else join it.
//!
//! The outside work (reading the clock, binding a socket, building a
//! transport) is done by the caller. Each outcome comes back as an `Event`;
//! `Negotiator::step` answers with the next `Action`. A host attempt that fails
//! at any stage falls back to a peer attempt; a failed peer attempt aborts.
use vstd::prelude::*;
use crate::endpoint::{
    Endpoint, Timestamp, ServerSettings, ClientSettings, loopback_spec, server_settings_spec,
    client_settings_spec, host_address, peer_local_address, server_settings, client_settings,
    HOST_PORT, EPHEMERAL_PORT,
};

verus! {

/// The role a process takes for the whole run.
#[derive(Clone, Copy, Debug, PartialEq, Eq, Structural)]
pub enum Role {
    Host,
    Peer,
}

/// Why a bootstrap attempt failed.
#[derive(Clone, Copy, Debug, PartialEq, Eq, Structural)]
pub enum BootstrapError {
    /// The wall clock could not be read, or lies before the epoch.
    Clock,
    /// The socket could not be bound.
    Bind,
    /// The transport refused its configuration.
    Transport,
}

/// Where the negotiation stands.
#[derive(Clone, Copy, Debug, PartialEq, Eq, Structural)]
pub enum Phase {
    Unresolved,
    HostClock,
    HostBind(Timestamp),
    HostTransport(Timestamp),
    PeerClock,
    PeerBind(Timestamp),
    PeerTransport(Timestamp),
    Hosting,
    Peering,
    Aborted,
}

/// The outcome of the outside work that the last action asked for.
#[derive(Clone, Copy, Debug, PartialEq, Eq, Structural)]
pub enum Event {
    /// Negotiation begins.
    Start,
    /// The clock was read: the time since the epoch, or none on failure.
    Clock(Option<Timestamp>),
    /// The requested socket was bound, or not.
    Bound(bool),
    /// The requested transport was built, or not.
    Built(bool),
}

/// What the caller does next.
#[derive(Clone, Copy, Debug, PartialEq, Eq, Structural)]
pub enum Action {
    /// Read the wall clock relative to the Unix epoch.
    ReadClock,
    /// Bind a UDP socket to this address.
    BindSocket(Endpoint),
    /// Build the host transport on the bound socket.
    BuildServer(ServerSettings),
    /// Build the peer transport on the bound socket.
    BuildClient(ClientSettings),
    /// Install the host transport and create the one authoritative marker.
    InstallServer,
    /// Install the peer transport.
    InstallClient,
    /// Give up: no transport is installed.
    Abort(BootstrapError),
    /// The event does not belong to this phase; nothing to do.
    Ignore,
}

/// The transition table of the negotiation.
pub open spec fn transition(p: Phase, e: Event) -> (Phase, Action) {
    match (p, e) {
        (Phase::Unresolved, Event::Start) => (Phase::HostClock, Action::ReadClock),
        (Phase::HostClock, Event::Clock(Some(t))) =>
            (Phase::HostBind(t), Action::BindSocket(loopback_spec(HOST_PORT))),
        (Phase::HostClock, Event::Clock(None)) => (Phase::PeerClock, Action::ReadClock),
        (Phase::HostBind(t), Event::Bound(true)) =>
            (Phase::HostTransport(t), Action::BuildServer(server_settings_spec(t))),
        (Phase::HostBind(_), Event::Bound(false)) => (Phase::PeerClock, Action::ReadClock),
        (Phase::HostTransport(_), Event::Built(true)) => (Phase::Hosting, Action::InstallServer),
        (Phase::HostTransport(_), Event::Built(false)) => (Phase::PeerClock, Action::ReadClock),
        (Phase::PeerClock, Event::Clock(Some(t))) =>
            (Phase::PeerBind(t), Action::BindSocket(loopback_spec(EPHEMERAL_PORT))),
        (Phase::PeerClock, Event::Clock(None)) =>
            (Phase::Aborted, Action::Abort(BootstrapError::Clock)),
        (Phase::PeerBind(t), Event::Bound(true)) =>
            (Phase::PeerTransport(t), Action::BuildClient(client_settings_spec(t))),
        (Phase::PeerBind(_), Event::Bound(false)) =>
            (Phase::Aborted, Action::Abort(BootstrapError::Bind)),
        (Phase::PeerTransport(_), Event::Built(true)) => (Phase::Peering, Action::InstallClient),
        (Phase::PeerTransport(_), Event::Built(false)) =>
            (Phase::Aborted, Action::Abort(BootstrapError::Transport)),
        _ => (p, Action::Ignore),
    }
}

/// The role a phase has settled on, if any.
pub open spec fn role_of(p: Phase) -> Option<Role> {
    match p {
        Phase::Hosting => Some(Role::Host),
        Phase::Peering => Some(Role::Peer),
        _ => None,
    }
}

/// Phases of the peer attempt and the ends it can reach.
pub open spec fn on_peer_path(p: Phase) -> bool {
    match p {
        Phase::PeerClock | Phase::PeerBind(_) | Phase::PeerTransport(_) | Phase::Peering
        | Phase::Aborted => true,
        _ => false,
    }
}

/// The phase and the actions after feeding `evs` to a negotiation in phase `p`.
pub open spec fn run(p: Phase, evs: Seq<Event>) -> (Phase, Seq<Action>)
    decreases evs.len(),
{
    if evs.len() == 0 {
        (p, Seq::empty())
    } else {
        let (q, a) = transition(p, evs[0]);
        let (r, acts) = run(q, evs.drop_first());
        (r, seq![a] + acts)
    }
}

/// How many times `a` occurs in `acts`.
pub open spec fn occurrences(acts: Seq<Action>, a: Action) -> nat
    decreases acts.len(),
{
    if acts.len() == 0 {
        0
    } else {
        (if acts[0] == a { 1nat } else { 0nat }) + occurrences(acts.drop_first(), a)
    }
}

/// The negotiation of one process.
pub struct Negotiator {
    pub phase: Phase,
}

impl Negotiator {
    /// A negotiation that has not started.
    pub fn new() -> (r: Negotiator)
        ensures
            r.phase == Phase::Unresolved,
    {
        Negotiator { phase: Phase::Unresolved }
    }

    /// Feeds one event and returns the action to perform.
    pub fn step(&mut self, e: Event) -> (a: Action)
        ensures
            (final(self).phase, a) == transition(old(self).phase, e),
    {
        let (p, a) = match (self.phase, e) {
            (Phase::Unresolved, Event::Start) => (Phase::HostClock, Action::ReadClock),
            (Phase::HostClock, Event::Clock(Some(t))) =>
                (Phase::HostBind(t), Action::BindSocket(host_address())),
            (Phase::HostClock, Event::Clock(None)) => (Phase::PeerClock, Action::ReadClock),
            (Phase::HostBind(t), Event::Bound(true)) =>
                (Phase::HostTransport(t), Action::BuildServer(server_settings(t))),
            (Phase::HostBind(_), Event::Bound(false)) => (Phase::PeerClock, Action::ReadClock),
            (Phase::HostTransport(_), Event::Built(true)) =>
                (Phase::Hosting, Action::InstallServer),
            (Phase::HostTransport(_), Event::Built(false)) =>
                (Phase::PeerClock, Action::ReadClock),
            (Phase::PeerClock, Event::Clock(Some(t))) =>
                (Phase::PeerBind(t), Action::BindSocket(peer_local_address())),
            (Phase::PeerClock, Event::Clock(None)) =>
                (Phase::Aborted, Action::Abort(BootstrapError::Clock)),
            (Phase::PeerBind(t), Event::Bound(true)) =>
                (Phase::PeerTransport(t), Action::BuildClient(client_settings(t))),
            (Phase::PeerBind(_), Event::Bound(false)) =>
                (Phase::Aborted, Action::Abort(BootstrapError::Bind)),
            (Phase::PeerTransport(_), Event::Built(true)) =>
                (Phase::Peering, Action::InstallClient),
            (Phase::PeerTransport(_), Event::Built(false)) =>
                (Phase::Aborted, Action::Abort(BootstrapError::Transport)),
            (p, _) => (p, Action::Ignore),
        };
        self.phase = p;
        a
    }

    /// The role chosen, once the negotiation has completed.
    pub fn role(&self) -> (r: Option<Role>)
        ensures
            r == role_of(self.phase),
    {
        match self.phase {
            Phase::Hosting => Some(Role::Host),
            Phase::Peering => Some(Role::Peer),
            _ => None,
        }
    }

    /// Whether the negotiation has ended, with a role or aborted.
    pub fn is_finished(&self) -> (r: bool)
        ensures
            r == (self.phase is Hosting || self.phase is Peering || self.phase is Aborted),
    {
        match self.phase {
            Phase::Hosting | Phase::Peering | Phase::Aborted => true,
            _ => false,
        }
    }
}

proof fn lemma_occurrences_concat(x: Action, rest: Seq<Action>, a: Action)
    ensures
        occurrences(seq![x] + rest, a) == (if x == a { 1nat } else { 0nat }) + occurrences(rest, a),
{
    let s = seq![x] + rest;
    assert(s.drop_first() =~= rest);
}

/// A settled role never changes: every later event is ignored.
pub proof fn lemma_role_is_final(p: Phase, e: Event)
    requires
        p is Hosting || p is Peering || p is Aborted,
    ensures
        transition(p, e) == (p, Action::Ignore),
{
}

/// Each install happens exactly once on a completed negotiation, and on the
/// matching side only: a host installs the server transport and creates its
/// marker once and never installs a client; a peer the other way round.
/// The count of installs, plus one for a phase that has already installed,
/// equals one for the role reached at the end.
pub proof fn lemma_installs_match_role(p: Phase, evs: Seq<Event>)
    ensures
        occurrences(run(p, evs).1, Action::InstallServer) + (if p is Hosting { 1nat } else { 0nat })
            == (if run(p, evs).0 is Hosting { 1nat } else { 0nat }),
        occurrences(run(p, evs).1, Action::InstallClient) + (if p is Peering { 1nat } else { 0nat })
            == (if run(p, evs).0 is Peering { 1nat } else { 0nat }),
    decreases evs.len(),
{
    if evs.len() > 0 {
        let (q, a) = transition(p, evs[0]);
        lemma_installs_match_role(q, evs.drop_first());
        lemma_occurrences_concat(a, run(q, evs.drop_first()).1, Action::InstallServer);
        lemma_occurrences_concat(a, run(q, evs.drop_first()).1, Action::InstallClient);
    }
}

/// Role exclusivity: a negotiation from the start that completes has
/// installed exactly one transport, the one of its role, and never both.
pub proof fn lemma_role_exclusive(evs: Seq<Event>)
    ensures
        ({
            let (end, acts) = run(Phase::Unresolved, evs);
            &&& end is Hosting ==> occurrences(acts, Action::InstallServer) == 1
                && occurrences(acts, Action::InstallClient) == 0
            &&& end is Peering ==> occurrences(acts, Action::InstallClient) == 1
                && occurrences(acts, Action::InstallServer) == 0
            &&& !(end is Hosting || end is Peering) ==> occurrences(acts, Action::InstallServer)
                == 0 && occurrences(acts, Action::InstallClient) == 0
        }),
{
    lemma_installs_match_role(Phase::Unresolved, evs);
}

/// Once on the peer path, a negotiation never becomes the host.
pub proof fn lemma_peer_path_closed(p: Phase, evs: Seq<Event>)
    requires
        on_peer_path(p),
    ensures
        on_peer_path(run(p, evs).0),
    decreases evs.len(),
{
    if evs.len() > 0 {
        lemma_peer_path_closed(transition(p, evs[0]).0, evs.drop_first());
    }
}

/// Fallback: when the host port cannot be bound, the negotiation turns to the
/// peer attempt, and whatever follows, it never ends as the host.
pub proof fn lemma_bind_failure_falls_back(t: Timestamp, evs: Seq<Event>)
    ensures
        transition(Phase::HostBind(t), Event::Bound(false)) == (Phase::PeerClock, Action::ReadClock),
        !(run(Phase::HostBind(t), seq![Event::Bound(false)] + evs).0 is Hosting),
{
    let all = seq![Event::Bound(false)] + evs;
    assert(all.drop_first() =~= evs);
    lemma_peer_path_closed(Phase::PeerClock, evs);
}

} // verus!
