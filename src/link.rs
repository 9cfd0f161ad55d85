//! The supervisor that keeps a network endpoint connected, forever.
//!
//! The supervisor only decides; whoever runs it performs each `Action` (open
//! a socket, sleep, accept, pump a session) and reports how it went as an
//! `Event`. No failure is fatal: a failed open is followed by a fixed
//! backoff and a new attempt, without end.
use vstd::prelude::*;

verus! {

/// Milliseconds to sleep after a failed bind or connect.
pub const BACKOFF_MS: u64 = 2000;

/// Transport protocol of an endpoint.
#[derive(Clone, Copy, Debug, PartialEq, Eq, Structural)]
pub enum Protocol {
    Tcp,
    Udp,
}

/// What an endpoint does with its address.
#[derive(Clone, Copy, Debug, PartialEq, Eq, Structural)]
pub enum Role {
    /// Bind the address and wait for peers.
    Listen,
    /// Reach out to the address.
    Connect,
}

/// A configured network role; it does not change after startup.
#[derive(Clone, Copy, Debug, PartialEq, Eq, Structural)]
pub struct EndpointConfig {
    pub role: Role,
    pub protocol: Protocol,
    /// Seconds of silence after which a connection is dropped; for a UDP
    /// listener, zero also means that datagrams from every source are taken.
    pub inactivity_secs: u32,
}

/// The socket operation that opening an endpoint performs.
#[derive(Clone, Copy, Debug, PartialEq, Eq, Structural)]
pub enum OpenKind {
    /// Bind a TCP listener on the address.
    TcpBind,
    /// Connect a TCP stream to the address.
    TcpConnect,
    /// Bind a UDP socket on the address.
    UdpBind,
    /// Bind a UDP socket on an ephemeral local port and aim it at the address.
    UdpConnect,
}

/// Where the supervisor stands.
#[derive(Clone, Copy, Debug, PartialEq, Eq, Structural)]
pub enum LinkState {
    /// Nothing is open; the next step opens.
    Idle,
    /// An open failed; the next step sleeps the backoff.
    Backoff,
    /// A TCP listener is bound; the next step accepts.
    Listening,
    /// A connection is up; the next step pumps it until it ends.
    Connected,
}

/// The step that the supervisor asks for.
#[derive(Clone, Copy, Debug, PartialEq, Eq, Structural)]
pub enum Action {
    Open(OpenKind),
    Sleep(u64),
    Accept,
    Pump,
}

/// How a step went.
#[derive(Clone, Copy, Debug, PartialEq, Eq, Structural)]
pub enum Event {
    /// The bind or connect succeeded.
    Opened,
    /// The bind or connect failed.
    OpenFailed,
    /// The backoff sleep is over.
    Slept,
    /// A peer was accepted.
    Accepted,
    /// Accepting failed; the listener is given up.
    AcceptFailed,
    /// The session ended: a read or write failed, the peer went silent, or
    /// the channel closed.
    SessionEnded,
}

/// The endpoint supervisor: a configuration and a state.
#[derive(Clone, Copy, Debug, PartialEq, Eq, Structural)]
pub struct Link {
    pub config: EndpointConfig,
    pub state: LinkState,
}

/// The socket operation that opens an endpoint of this configuration.
pub open spec fn open_kind_of(c: EndpointConfig) -> OpenKind {
    match (c.protocol, c.role) {
        (Protocol::Tcp, Role::Listen) => OpenKind::TcpBind,
        (Protocol::Tcp, Role::Connect) => OpenKind::TcpConnect,
        (Protocol::Udp, Role::Listen) => OpenKind::UdpBind,
        (Protocol::Udp, Role::Connect) => OpenKind::UdpConnect,
    }
}

/// The step asked for in a state.
pub open spec fn action_of(c: EndpointConfig, s: LinkState) -> Action {
    match s {
        LinkState::Idle => Action::Open(open_kind_of(c)),
        LinkState::Backoff => Action::Sleep(BACKOFF_MS),
        LinkState::Listening => Action::Accept,
        LinkState::Connected => Action::Pump,
    }
}

/// The state after an event; an event that does not answer the step of the
/// state leaves it as it is.
pub open spec fn next_link_state(c: EndpointConfig, s: LinkState, e: Event) -> LinkState {
    match (s, e) {
        (LinkState::Idle, Event::Opened) => if open_kind_of(c) == OpenKind::TcpBind {
            LinkState::Listening
        } else {
            LinkState::Connected
        },
        (LinkState::Idle, Event::OpenFailed) => LinkState::Backoff,
        (LinkState::Backoff, Event::Slept) => LinkState::Idle,
        (LinkState::Listening, Event::Accepted) => LinkState::Connected,
        (LinkState::Listening, Event::AcceptFailed) => LinkState::Idle,
        (LinkState::Connected, Event::SessionEnded) => if open_kind_of(c) == OpenKind::TcpBind {
            LinkState::Listening
        } else {
            LinkState::Idle
        },
        _ => s,
    }
}

/// The state after a sequence of events.
pub open spec fn run_link(c: EndpointConfig, s: LinkState, events: Seq<Event>) -> LinkState
    decreases events.len(),
{
    if events.len() == 0 {
        s
    } else {
        next_link_state(c, run_link(c, s, events.drop_last()), events.last())
    }
}

/// The number of backoff sleeps asked for while a sequence of events is
/// handled, the one asked for after the last event included.
pub open spec fn sleeps_in(c: EndpointConfig, s: LinkState, events: Seq<Event>) -> nat
    decreases events.len(),
{
    let here: nat = if action_of(c, run_link(c, s, events)) is Sleep { 1 } else { 0 };
    if events.len() == 0 {
        here
    } else {
        sleeps_in(c, s, events.drop_last()) + here
    }
}

/// The events of `k` failed attempts, each followed by its backoff.
pub open spec fn failed_attempts(k: nat) -> Seq<Event>
    decreases k,
{
    if k == 0 {
        Seq::empty()
    } else {
        failed_attempts((k - 1) as nat).push(Event::OpenFailed).push(Event::Slept)
    }
}

proof fn lemma_failed_attempts(c: EndpointConfig, k: nat)
    ensures
        run_link(c, LinkState::Idle, failed_attempts(k)) == LinkState::Idle,
        sleeps_in(c, LinkState::Idle, failed_attempts(k)) == k,
    decreases k,
{
    if k > 0 {
        let before = failed_attempts((k - 1) as nat);
        lemma_failed_attempts(c, (k - 1) as nat);
        let failed = before.push(Event::OpenFailed);
        assert(failed.drop_last() =~= before);
        assert(failed_attempts(k).drop_last() =~= failed);
        assert(failed_attempts(k) == failed.push(Event::Slept));
        assert(run_link(c, LinkState::Idle, failed) == LinkState::Backoff);
        assert(sleeps_in(c, LinkState::Idle, failed) == k);
        assert(run_link(c, LinkState::Idle, failed_attempts(k)) == LinkState::Idle);
    }
}

/// Reconnecting converges: an endpoint that reaches out, whose first `k`
/// attempts fail and whose next attempt succeeds, ends up connected, having
/// asked for exactly `k` backoff sleeps on the way.
pub proof fn lemma_reconnect_converges(c: EndpointConfig, k: nat)
    requires
        c.role == Role::Connect,
    ensures
        run_link(c, LinkState::Idle, failed_attempts(k).push(Event::Opened))
            == LinkState::Connected,
        sleeps_in(c, LinkState::Idle, failed_attempts(k).push(Event::Opened)) == k,
{
    lemma_failed_attempts(c, k);
    assert(failed_attempts(k).push(Event::Opened).drop_last() =~= failed_attempts(k));
}

/// A listener goes back to accepting when a session ends, without building a
/// new listener and without a backoff.
pub proof fn lemma_listener_kept(c: EndpointConfig)
    requires
        c.role == Role::Listen,
        c.protocol == Protocol::Tcp,
    ensures
        next_link_state(c, LinkState::Connected, Event::SessionEnded) == LinkState::Listening,
        action_of(c, LinkState::Listening) == Action::Accept,
{
}

/// No failure stops the supervisor: a failed open leads to the backoff and
/// then to a new open, a failed accept to a new open, and a connection is
/// left only when its session ends.
pub proof fn lemma_never_gives_up(c: EndpointConfig, e: Event)
    ensures
        next_link_state(c, LinkState::Idle, Event::OpenFailed) == LinkState::Backoff,
        action_of(c, LinkState::Backoff) == Action::Sleep(BACKOFF_MS),
        next_link_state(c, LinkState::Backoff, Event::Slept) == LinkState::Idle,
        action_of(c, LinkState::Idle) == Action::Open(open_kind_of(c)),
        next_link_state(c, LinkState::Listening, Event::AcceptFailed) == LinkState::Idle,
        next_link_state(c, LinkState::Connected, e) != LinkState::Connected ==> e
            == Event::SessionEnded,
{
}

/// What a receiving session does after a read from its connection.
#[derive(Clone, Copy, Debug, PartialEq, Eq, Structural)]
pub enum ReadStep {
    /// Put these many bytes of the read into the channel, then read again.
    Deliver(usize),
    /// The connection is dead: end the session and reconnect.
    End,
}

/// Decides a receiving session's next move from a read's result: `None` for
/// a failed read (an error or the inactivity timeout), `Some(n)` for `n`
/// bytes read. Zero bytes means the peer closed the connection.
pub fn read_step(got: Option<usize>) -> (r: ReadStep)
    ensures
        r == (match got {
            Some(n) if n > 0 => ReadStep::Deliver(n),
            _ => ReadStep::End,
        }),
{
    match got {
        Some(n) => if n > 0 {
            ReadStep::Deliver(n)
        } else {
            ReadStep::End
        },
        None => ReadStep::End,
    }
}

impl EndpointConfig {
    /// The socket operation that opens this endpoint.
    pub fn open_kind(&self) -> (r: OpenKind)
        ensures
            r == open_kind_of(*self),
    {
        match (self.protocol, self.role) {
            (Protocol::Tcp, Role::Listen) => OpenKind::TcpBind,
            (Protocol::Tcp, Role::Connect) => OpenKind::TcpConnect,
            (Protocol::Udp, Role::Listen) => OpenKind::UdpBind,
            (Protocol::Udp, Role::Connect) => OpenKind::UdpConnect,
        }
    }

    /// Whether a UDP receiver ties itself to the source of its first
    /// datagram, and from then on drops the session after the inactivity
    /// timeout: only when silence is watched for. With no inactivity timeout
    /// every source is taken, so senders may come and go.
    pub fn locks_to_first_peer(&self) -> (r: bool)
        ensures
            r == (self.protocol == Protocol::Udp && self.inactivity_secs != 0),
    {
        self.protocol == Protocol::Udp && self.inactivity_secs != 0
    }
}

impl Link {
    /// A supervisor with nothing open.
    pub fn new(config: EndpointConfig) -> (r: Self)
        ensures
            r.config == config,
            r.state == LinkState::Idle,
    {
        Link { config, state: LinkState::Idle }
    }

    /// The step to perform now.
    pub fn action(&self) -> (r: Action)
        ensures
            r == action_of(self.config, self.state),
    {
        match self.state {
            LinkState::Idle => Action::Open(self.config.open_kind()),
            LinkState::Backoff => Action::Sleep(BACKOFF_MS),
            LinkState::Listening => Action::Accept,
            LinkState::Connected => Action::Pump,
        }
    }

    /// Takes in how the last step went and returns the next step.
    pub fn step(&mut self, event: Event) -> (r: Action)
        ensures
            final(self).config == old(self).config,
            final(self).state == next_link_state(old(self).config, old(self).state, event),
            r == action_of(final(self).config, final(self).state),
    {
        let bound_listener = self.config.open_kind() == OpenKind::TcpBind;
        let next = match (self.state, event) {
            (LinkState::Idle, Event::Opened) => if bound_listener {
                LinkState::Listening
            } else {
                LinkState::Connected
            },
            (LinkState::Idle, Event::OpenFailed) => LinkState::Backoff,
            (LinkState::Backoff, Event::Slept) => LinkState::Idle,
            (LinkState::Listening, Event::Accepted) => LinkState::Connected,
            (LinkState::Listening, Event::AcceptFailed) => LinkState::Idle,
            (LinkState::Connected, Event::SessionEnded) => if bound_listener {
                LinkState::Listening
            } else {
                LinkState::Idle
            },
            _ => self.state,
        };
        self.state = next;
        self.action()
    }
}

} // verus!
