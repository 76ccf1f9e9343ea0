//! Peer discovery on the local network: a host announces its session to a
//! multicast group at a fixed interval, and a listener turns the announcements
//! it hears into events.

use vstd::prelude::*;
use vstd::string::*;

use crate::json::{json_string, quote_json};
use crate::text::{decimal_digits, decimal_text};

verus! {

/// The UDP port of the discovery group.
pub const MULTICAST_PORT: u16 = 58432;

/// Seconds between two announcements.
pub const BROADCAST_INTERVAL_SECS: u64 = 5;

/// The time-to-live of an announcement: it stays on the local link.
pub const MULTICAST_TTL: u32 = 1;

/// The largest datagram that the listener takes in, in bytes.
pub const DATAGRAM_CAPACITY: usize = 1024;

/// The IPv4 address of the discovery group, 239.255.42.17.
pub fn multicast_group() -> (octets: [u8; 4])
    ensures
        octets@ == seq![239u8, 255u8, 42u8, 17u8],
{
    let octets: [u8; 4] = [239, 255, 42, 17];
    assert(octets@ =~= seq![239u8, 255u8, 42u8, 17u8]);
    octets
}

/// What a host announces: the TCP port of its session and the version it runs.
#[derive(Debug)]
pub struct ServerInfo {
    pub port: u16,
    pub version: String,
}

/// A session heard of on the network: who announced it, and what.
#[derive(Debug)]
pub struct DiscoveredPeer {
    /// The address the announcement came from, as text.
    pub host: String,
    /// The port that was announced.
    pub port: u16,
    /// The version that was announced.
    pub version: String,
}

/// The datagram that announces a session: a compact JSON object with the
/// port and the version.
pub open spec fn announcement_text(port: u16, version: Seq<char>) -> Seq<char> {
    "{\"port\":"@ + decimal_digits(port as nat) + ",\"version\":"@ + json_string(version) + "}"@
}

/// The text handed to the interface for a discovered session: a compact JSON
/// object with the host, the port and the version.
pub open spec fn discovery_event_text(host: Seq<char>, port: u16, version: Seq<char>) -> Seq<char> {
    "{\"host\":"@ + json_string(host) + ",\"port\":"@ + decimal_digits(port as nat)
        + ",\"version\":"@ + json_string(version) + "}"@
}

/// Writes the datagram that announces `info`.
pub fn encode_announcement(info: &ServerInfo) -> (text: String)
    ensures
        text@ == announcement_text(info.port, info.version@),
{
    let mut text = String::from_str("{\"port\":");
    text.append(decimal_text(info.port as u64).as_str());
    text.append(",\"version\":");
    text.append(quote_json(info.version.as_str()).as_str());
    text.append("}");
    assert(text@ =~= announcement_text(info.port, info.version@));
    text
}

/// Writes the event that tells the interface of `peer`.
pub fn discovery_event(peer: &DiscoveredPeer) -> (text: String)
    ensures
        text@ == discovery_event_text(peer.host@, peer.port, peer.version@),
{
    let mut text = String::from_str("{\"host\":");
    text.append(quote_json(peer.host.as_str()).as_str());
    text.append(",\"port\":");
    text.append(decimal_text(peer.port as u64).as_str());
    text.append(",\"version\":");
    text.append(quote_json(peer.version.as_str()).as_str());
    text.append("}");
    assert(text@ =~= discovery_event_text(peer.host@, peer.port, peer.version@));
    text
}

/// Where the announcing loop of a host stands.
#[derive(Clone, Copy, Debug, PartialEq, Eq)]
pub enum BroadcasterState {
    /// The stop signal is being looked at.
    Checking,
    /// An announcement is being sent.
    Sending,
    /// The interval between two announcements runs.
    Sleeping,
    /// The loop is over: nothing is sent any more.
    Finished,
}

/// What the announcing loop is told.
#[derive(Clone, Copy, Debug, PartialEq, Eq)]
pub enum BroadcasterEvent {
    /// The stop signal was looked at; `requested` says whether it was given.
    StopChecked { requested: bool },
    /// The announcement was handed to the network; `delivered` says whether
    /// the network took it.
    Sent { delivered: bool },
    /// The interval is over.
    Woke,
}

/// What the announcing loop asks for next.
#[derive(Debug)]
pub enum BroadcasterAction {
    /// Look at the stop signal, then report `StopChecked`.
    CheckStop,
    /// Send this datagram to the discovery group, then report `Sent`.
    Announce(String),
    /// Wait this many seconds, then report `Woke`.
    Sleep(u64),
    /// Leave the loop.
    Exit,
    /// Nothing: the event does not belong to this state.
    Idle,
}

/// A `BroadcasterAction` with its datagram as a sequence of characters.
pub enum BroadcasterActionView {
    CheckStop,
    Announce(Seq<char>),
    Sleep(u64),
    Exit,
    Idle,
}

impl View for BroadcasterAction {
    type V = BroadcasterActionView;

    open spec fn view(&self) -> BroadcasterActionView {
        match self {
            BroadcasterAction::CheckStop => BroadcasterActionView::CheckStop,
            BroadcasterAction::Announce(text) => BroadcasterActionView::Announce(text@),
            BroadcasterAction::Sleep(secs) => BroadcasterActionView::Sleep(*secs),
            BroadcasterAction::Exit => BroadcasterActionView::Exit,
            BroadcasterAction::Idle => BroadcasterActionView::Idle,
        }
    }
}

/// The state that follows `state` on `event`, and what is asked for, for a
/// host that announces `port` and `version`.
pub open spec fn broadcaster_next(
    state: BroadcasterState,
    event: BroadcasterEvent,
    port: u16,
    version: Seq<char>,
) -> (BroadcasterState, BroadcasterActionView) {
    match (state, event) {
        (BroadcasterState::Checking, BroadcasterEvent::StopChecked { requested }) => if requested {
            (BroadcasterState::Finished, BroadcasterActionView::Exit)
        } else {
            (
                BroadcasterState::Sending,
                BroadcasterActionView::Announce(announcement_text(port, version)),
            )
        },
        (BroadcasterState::Sending, BroadcasterEvent::Sent { delivered }) => if delivered {
            (BroadcasterState::Sleeping, BroadcasterActionView::Sleep(BROADCAST_INTERVAL_SECS))
        } else {
            (BroadcasterState::Finished, BroadcasterActionView::Exit)
        },
        (BroadcasterState::Sleeping, BroadcasterEvent::Woke) => (
            BroadcasterState::Checking,
            BroadcasterActionView::CheckStop,
        ),
        _ => (state, BroadcasterActionView::Idle),
    }
}

/// Begins the announcing loop: the stop signal is looked at before anything
/// is sent.
pub fn broadcaster_start() -> (begin: (BroadcasterState, BroadcasterAction))
    ensures
        begin.0 == BroadcasterState::Checking,
        begin.1@ == BroadcasterActionView::CheckStop,
{
    (BroadcasterState::Checking, BroadcasterAction::CheckStop)
}

/// Takes one event: gives the next state and what to do next.
pub fn broadcaster_step(state: BroadcasterState, event: BroadcasterEvent, info: &ServerInfo) -> (next:
    (BroadcasterState, BroadcasterAction))
    ensures
        (next.0, next.1@) == broadcaster_next(state, event, info.port, info.version@),
{
    match state {
        BroadcasterState::Checking => match event {
            BroadcasterEvent::StopChecked { requested } => {
                if requested {
                    (BroadcasterState::Finished, BroadcasterAction::Exit)
                } else {
                    (
                        BroadcasterState::Sending,
                        BroadcasterAction::Announce(encode_announcement(info)),
                    )
                }
            },
            _ => (state, BroadcasterAction::Idle),
        },
        BroadcasterState::Sending => match event {
            BroadcasterEvent::Sent { delivered } => {
                if delivered {
                    (BroadcasterState::Sleeping, BroadcasterAction::Sleep(BROADCAST_INTERVAL_SECS))
                } else {
                    (BroadcasterState::Finished, BroadcasterAction::Exit)
                }
            },
            _ => (state, BroadcasterAction::Idle),
        },
        BroadcasterState::Sleeping => match event {
            BroadcasterEvent::Woke => (BroadcasterState::Checking, BroadcasterAction::CheckStop),
            _ => (state, BroadcasterAction::Idle),
        },
        BroadcasterState::Finished => (state, BroadcasterAction::Idle),
    }
}

/// The state reached from `state` after `events`, taken in order.
pub open spec fn broadcaster_run(
    state: BroadcasterState,
    events: Seq<BroadcasterEvent>,
    port: u16,
    version: Seq<char>,
) -> BroadcasterState
    decreases events.len(),
{
    if events.len() == 0 {
        state
    } else {
        broadcaster_run(
            broadcaster_next(state, events.first(), port, version).0,
            events.drop_first(),
            port,
            version,
        )
    }
}

/// How many announcements are sent while `events` are taken.
pub open spec fn announcements_sent(
    state: BroadcasterState,
    events: Seq<BroadcasterEvent>,
    port: u16,
    version: Seq<char>,
) -> nat
    decreases events.len(),
{
    if events.len() == 0 {
        0
    } else {
        let (next, action) = broadcaster_next(state, events.first(), port, version);
        let now: nat = if action is Announce {
            1
        } else {
            0
        };
        now + announcements_sent(next, events.drop_first(), port, version)
    }
}

/// How many intervals are waited out while `events` are taken: the wakings
/// that come while the loop sleeps.
pub open spec fn intervals_completed(
    state: BroadcasterState,
    events: Seq<BroadcasterEvent>,
    port: u16,
    version: Seq<char>,
) -> nat
    decreases events.len(),
{
    if events.len() == 0 {
        0
    } else {
        let next = broadcaster_next(state, events.first(), port, version).0;
        let now: nat = if state == BroadcasterState::Sleeping && events.first()
            == BroadcasterEvent::Woke {
            1
        } else {
            0
        };
        now + intervals_completed(next, events.drop_first(), port, version)
    }
}

/// Once the loop is over it stays over and sends nothing, whatever it is
/// told: after a stop has been seen there is no further announcement.
pub proof fn lemma_nothing_sent_after_finish(
    events: Seq<BroadcasterEvent>,
    port: u16,
    version: Seq<char>,
)
    ensures
        broadcaster_run(BroadcasterState::Finished, events, port, version)
            == BroadcasterState::Finished,
        announcements_sent(BroadcasterState::Finished, events, port, version) == 0,
    decreases events.len(),
{
    if events.len() > 0 {
        lemma_nothing_sent_after_finish(events.drop_first(), port, version);
    }
}

/// A loop that begins by looking at the stop signal sends at most one
/// announcement more than it has waited out intervals, an interval that is
/// still running not counted. A loop taken up while it sends or sleeps sends
/// no more announcements than it waits out intervals from then on.
pub proof fn lemma_announcements_bounded_by_intervals(
    state: BroadcasterState,
    events: Seq<BroadcasterEvent>,
    port: u16,
    version: Seq<char>,
)
    ensures
        announcements_sent(state, events, port, version) <= intervals_completed(
            state,
            events,
            port,
            version,
        ) + 1,
        state != BroadcasterState::Checking ==> announcements_sent(state, events, port, version)
            <= intervals_completed(state, events, port, version),
    decreases events.len(),
{
    if events.len() > 0 {
        let next = broadcaster_next(state, events.first(), port, version).0;
        lemma_announcements_bounded_by_intervals(next, events.drop_first(), port, version);
    }
}

/// Every announcement carries the port and the version that the host was
/// started with, and is sent only right after the stop signal was looked at
/// and found not given.
pub proof fn lemma_announce_follows_clear_check(
    state: BroadcasterState,
    event: BroadcasterEvent,
    port: u16,
    version: Seq<char>,
)
    requires
        broadcaster_next(state, event, port, version).1 is Announce,
    ensures
        state == BroadcasterState::Checking,
        event == (BroadcasterEvent::StopChecked { requested: false }),
        broadcaster_next(state, event, port, version).1 == BroadcasterActionView::Announce(
            announcement_text(port, version),
        ),
{
}

/// One more than `n`, held at the largest value a counter can carry.
pub open spec fn counted_up(n: u64) -> u64 {
    if n < u64::MAX {
        (n + 1) as u64
    } else {
        n
    }
}

/// Adds one to a counter, up to the largest value it can carry.
fn count_up(n: u64) -> (more: u64)
    ensures
        more == counted_up(n),
{
    if n < u64::MAX {
        n + 1
    } else {
        n
    }
}

/// The announcing side of a hosted session: what it announces, where its
/// loop stands, whether it was told to stop, how many announcements it has
/// asked for and how many intervals it has waited out.
#[derive(Debug)]
pub struct UdpServer {
    info: ServerInfo,
    state: BroadcasterState,
    stop_requested: bool,
    announced: u64,
    waited: u64,
}

/// A `UdpServer` with its version as a sequence of characters.
pub struct UdpServerView {
    pub port: u16,
    pub version: Seq<char>,
    pub state: BroadcasterState,
    pub stop_requested: bool,
    pub announced: u64,
    pub waited: u64,
}

impl UdpServerView {
    /// The announcements asked for are at most one more than the intervals
    /// waited out, and no more than those while the stop signal is looked at.
    pub open spec fn in_step(self) -> bool {
        &&& self.announced <= self.waited + 1
        &&& self.state == BroadcasterState::Checking ==> self.announced <= self.waited
    }

    /// The server as `start_server` leaves it: about to look at the stop
    /// signal, not told to stop, with nothing announced and nothing waited.
    pub open spec fn begun(port: u16, version: Seq<char>) -> UdpServerView {
        UdpServerView {
            port,
            version,
            state: BroadcasterState::Checking,
            stop_requested: false,
            announced: 0,
            waited: 0,
        }
    }
}

/// The event as the loop of a server takes it: a look at the stop signal
/// finds it given where the server was told to stop, whatever was reported.
pub open spec fn heeded(event: BroadcasterEvent, stop_requested: bool) -> BroadcasterEvent {
    match event {
        BroadcasterEvent::StopChecked { requested } => BroadcasterEvent::StopChecked {
            requested: requested || stop_requested,
        },
        _ => event,
    }
}

/// The server after `event`, and what its loop asks for: the loop moves as
/// `broadcaster_next` says, an announcement asked for is counted, and so is
/// an interval that ends while the loop sleeps.
pub open spec fn server_next(server: UdpServerView, event: BroadcasterEvent) -> (
    UdpServerView,
    BroadcasterActionView,
) {
    let (state, action) = broadcaster_next(
        server.state,
        heeded(event, server.stop_requested),
        server.port,
        server.version,
    );
    (
        UdpServerView {
            state,
            announced: if action is Announce {
                counted_up(server.announced)
            } else {
                server.announced
            },
            waited: if server.state == BroadcasterState::Sleeping && event
                == BroadcasterEvent::Woke {
                counted_up(server.waited)
            } else {
                server.waited
            },
            ..server
        },
        action,
    )
}

/// The server after `events`, taken in order.
pub open spec fn server_run(server: UdpServerView, events: Seq<BroadcasterEvent>) -> UdpServerView
    decreases events.len(),
{
    if events.len() == 0 {
        server
    } else {
        server_run(server_next(server, events.first()).0, events.drop_first())
    }
}

/// How many announcements the loop of `server` asks for while `events` are
/// taken.
pub open spec fn announcements_asked(server: UdpServerView, events: Seq<BroadcasterEvent>) -> nat
    decreases events.len(),
{
    if events.len() == 0 {
        0
    } else {
        let (next, action) = server_next(server, events.first());
        let now: nat = if action is Announce {
            1
        } else {
            0
        };
        now + announcements_asked(next, events.drop_first())
    }
}

/// How many intervals the loop of `server` waits out while `events` are
/// taken: the wakings that come while it sleeps.
pub open spec fn intervals_ended(server: UdpServerView, events: Seq<BroadcasterEvent>) -> nat
    decreases events.len(),
{
    if events.len() == 0 {
        0
    } else {
        let now: nat = if server.state == BroadcasterState::Sleeping && events.first()
            == BroadcasterEvent::Woke {
            1
        } else {
            0
        };
        now + intervals_ended(server_next(server, events.first()).0, events.drop_first())
    }
}

impl View for UdpServer {
    type V = UdpServerView;

    closed spec fn view(&self) -> UdpServerView {
        UdpServerView {
            port: self.info.port,
            version: self.info.version@,
            state: self.state,
            stop_requested: self.stop_requested,
            announced: self.announced,
            waited: self.waited,
        }
    }
}

impl UdpServer {
    #[verifier::type_invariant]
    spec fn counts_in_step(self) -> bool {
        self@.in_step()
    }

    /// What the server announces.
    pub fn info(&self) -> (info: &ServerInfo)
        ensures
            info.port == self@.port,
            info.version@ == self@.version,
    {
        &self.info
    }

    /// Where the announcing loop stands.
    pub fn state(&self) -> (state: BroadcasterState)
        ensures
            state == self@.state,
    {
        self.state
    }

    /// Whether the server was told to stop.
    pub fn stop_requested(&self) -> (requested: bool)
        ensures
            requested == self@.stop_requested,
    {
        self.stop_requested
    }

    /// How many announcements the loop has asked for since the start: never
    /// more than one above the intervals waited out.
    pub fn announced(&self) -> (count: u64)
        ensures
            count == self@.announced,
            count <= self@.waited + 1,
    {
        proof {
            use_type_invariant(self);
        }
        self.announced
    }

    /// How many intervals the loop has waited out since the start.
    pub fn waited(&self) -> (count: u64)
        ensures
            count == self@.waited,
            self@.announced <= count + 1,
    {
        proof {
            use_type_invariant(self);
        }
        self.waited
    }

    /// Takes one event of the announcing loop and says what to do next.
    pub fn step(&mut self, event: BroadcasterEvent) -> (action: BroadcasterAction)
        ensures
            (final(self)@, action@) == server_next(old(self)@, event),
            final(self)@.in_step(),
    {
        proof {
            use_type_invariant(&*self);
        }
        let taken = match event {
            BroadcasterEvent::StopChecked { requested } => BroadcasterEvent::StopChecked {
                requested: requested || self.stop_requested,
            },
            other => other,
        };
        let woke = match (self.state, event) {
            (BroadcasterState::Sleeping, BroadcasterEvent::Woke) => true,
            _ => false,
        };
        let next = broadcaster_step(self.state, taken, &self.info);
        let announces = match &next.1 {
            BroadcasterAction::Announce(_) => true,
            _ => false,
        };
        if woke {
            self.waited = count_up(self.waited);
        }
        self.state = next.0;
        if announces {
            self.announced = count_up(self.announced);
        }
        next.1
    }

    /// Tells the server to stop. From then on its loop asks for no
    /// announcement, whatever it is told: it leaves at its next look at the
    /// stop signal. What was announced up to here is at most one more than
    /// the intervals waited out.
    pub fn stop(&mut self)
        ensures
            final(self)@ == (UdpServerView { stop_requested: true, ..old(self)@ }),
            final(self)@.announced <= final(self)@.waited + 1,
            forall|events: Seq<BroadcasterEvent>| #[trigger]
                announcements_asked(final(self)@, events) == 0,
            forall|events: Seq<BroadcasterEvent>| #[trigger]
                server_run(final(self)@, events).announced == final(self)@.announced,
    {
        proof {
            use_type_invariant(&*self);
        }
        self.stop_requested = true;
        proof {
            let stopped = self@;
            assert forall|events: Seq<BroadcasterEvent>| #[trigger]
                announcements_asked(stopped, events) == 0 by {
                lemma_stopped_server_is_silent(stopped, events);
            }
            assert forall|events: Seq<BroadcasterEvent>| #[trigger]
                server_run(stopped, events).announced == stopped.announced by {
                lemma_stopped_server_is_silent(stopped, events);
            }
        }
    }
}

/// Begins to announce a session of `version` that takes connections on
/// `port`: the stop signal is looked at before anything is sent.
pub fn start_server(port: u16, version: &str) -> (begin: (UdpServer, BroadcasterAction))
    ensures
        begin.0@ == UdpServerView::begun(port, version@),
        begin.1@ == BroadcasterActionView::CheckStop,
{
    let server = UdpServer {
        info: ServerInfo { port, version: String::from_str(version) },
        state: BroadcasterState::Checking,
        stop_requested: false,
        announced: 0,
        waited: 0,
    };
    (server, BroadcasterAction::CheckStop)
}

/// A server that was told to stop asks for no announcement any more,
/// whatever its loop is told, and stays told to stop: its count of
/// announcements stands still.
pub proof fn lemma_stopped_server_is_silent(server: UdpServerView, events: Seq<BroadcasterEvent>)
    requires
        server.stop_requested,
    ensures
        announcements_asked(server, events) == 0,
        server_run(server, events).announced == server.announced,
        server_run(server, events).stop_requested,
    decreases events.len(),
{
    if events.len() > 0 {
        lemma_stopped_server_is_silent(server_next(server, events.first()).0, events.drop_first());
    }
}

/// A server that was told to stop is over, at the latest, once its loop has
/// sent what it was sending, slept the interval it was in and looked at the
/// stop signal; once over it stays over.
pub proof fn lemma_stopped_server_finishes(server: UdpServerView, delivered: bool, requested: bool)
    requires
        server.stop_requested,
    ensures
        server_run(
            server,
            seq![
                BroadcasterEvent::Sent { delivered },
                BroadcasterEvent::Woke,
                BroadcasterEvent::StopChecked { requested },
            ],
        ).state == BroadcasterState::Finished,
{
    let events = seq![
        BroadcasterEvent::Sent { delivered },
        BroadcasterEvent::Woke,
        BroadcasterEvent::StopChecked { requested },
    ];
    let first = server_next(server, events[0]).0;
    let second = server_next(first, events[1]).0;
    let third = server_next(second, events[2]).0;
    assert(events.drop_first() =~= seq![events[1], events[2]]);
    assert(events.drop_first().drop_first() =~= seq![events[2]]);
    assert(events.drop_first().drop_first().drop_first() =~= Seq::<BroadcasterEvent>::empty());
    reveal_with_fuel(server_run, 4);
    assert(server_run(server, events) == third);
}

/// From its start on, whatever its loop is told, a server has asked for at
/// most one announcement more than it has waited out intervals, an interval
/// that is still running not counted.
pub proof fn lemma_server_announces_at_most_one_ahead(
    server: UdpServerView,
    events: Seq<BroadcasterEvent>,
)
    requires
        server.in_step(),
    ensures
        server_run(server, events).in_step(),
        server_run(server, events).announced <= server_run(server, events).waited + 1,
    decreases events.len(),
{
    if events.len() > 0 {
        lemma_server_announces_at_most_one_ahead(
            server_next(server, events.first()).0,
            events.drop_first(),
        );
    }
}

/// Whatever its loop is told, a server asks for at most one announcement
/// more than it waits out intervals, an interval that is still running not
/// counted; taken up while it sends or sleeps, for no more than it waits out
/// from then on.
pub proof fn lemma_server_announcements_bounded_by_intervals(
    server: UdpServerView,
    events: Seq<BroadcasterEvent>,
)
    ensures
        announcements_asked(server, events) <= intervals_ended(server, events) + 1,
        server.state != BroadcasterState::Checking ==> announcements_asked(server, events)
            <= intervals_ended(server, events),
    decreases events.len(),
{
    if events.len() > 0 {
        lemma_server_announcements_bounded_by_intervals(
            server_next(server, events.first()).0,
            events.drop_first(),
        );
    }
}

/// The counters of a server count what its loop does: as long as they fit,
/// they go up by the announcements asked for and by the intervals waited out.
pub proof fn lemma_server_counts_its_loop(server: UdpServerView, events: Seq<BroadcasterEvent>)
    requires
        server.announced + announcements_asked(server, events) <= u64::MAX,
        server.waited + intervals_ended(server, events) <= u64::MAX,
    ensures
        server_run(server, events).announced == server.announced + announcements_asked(
            server,
            events,
        ),
        server_run(server, events).waited == server.waited + intervals_ended(server, events),
    decreases events.len(),
{
    if events.len() > 0 {
        lemma_server_counts_its_loop(server_next(server, events.first()).0, events.drop_first());
    }
}

/// A `DiscoveredPeer` with its texts as sequences of characters.
pub struct DiscoveredPeerView {
    pub host: Seq<char>,
    pub port: u16,
    pub version: Seq<char>,
}

impl View for DiscoveredPeer {
    type V = DiscoveredPeerView;

    open spec fn view(&self) -> DiscoveredPeerView {
        DiscoveredPeerView { host: self.host@, port: self.port, version: self.version@ }
    }
}

/// Where the receiving loop of a listener stands.
#[derive(Clone, Copy, Debug, PartialEq, Eq)]
pub enum ListenerState {
    /// The stop signal is being looked at.
    Checking,
    /// The next datagram is waited for.
    Receiving,
    /// A discovered session is being handed to the consumer.
    Publishing,
    /// The loop is over.
    Finished,
}

/// What the receiving loop is told.
#[derive(Debug)]
pub enum ListenerEvent {
    /// The stop signal was looked at; `requested` says whether it was given.
    StopChecked { requested: bool },
    /// A datagram came in from `source`; `announcement` holds what it
    /// announces, or nothing where it is not an announcement.
    Datagram { source: String, announcement: Option<ServerInfo> },
    /// The socket failed or was closed.
    ReceiveFailed,
    /// The discovered session was handed on; `accepted` says whether the
    /// consumer is still there.
    Published { accepted: bool },
}

/// What the receiving loop asks for next.
#[derive(Debug)]
pub enum ListenerAction {
    /// Look at the stop signal, then report `StopChecked`.
    CheckStop,
    /// Wait for the next datagram, then report `Datagram` or `ReceiveFailed`.
    Receive,
    /// Hand this session to the consumer, then report `Published`.
    Publish(DiscoveredPeer),
    /// Leave the loop.
    Exit,
    /// Nothing: the event does not belong to this state.
    Idle,
}

/// A `ListenerAction` with the session it publishes as a view.
pub enum ListenerActionView {
    CheckStop,
    Receive,
    Publish(DiscoveredPeerView),
    Exit,
    Idle,
}

impl View for ListenerAction {
    type V = ListenerActionView;

    open spec fn view(&self) -> ListenerActionView {
        match self {
            ListenerAction::CheckStop => ListenerActionView::CheckStop,
            ListenerAction::Receive => ListenerActionView::Receive,
            ListenerAction::Publish(peer) => ListenerActionView::Publish(peer@),
            ListenerAction::Exit => ListenerActionView::Exit,
            ListenerAction::Idle => ListenerActionView::Idle,
        }
    }
}

/// The session that an announcement heard from `source` makes known: the
/// sender's address with the announced port and version.
pub open spec fn peer_of(source: Seq<char>, info: ServerInfo) -> DiscoveredPeerView {
    DiscoveredPeerView { host: source, port: info.port, version: info.version@ }
}

/// The state that follows `state` on `event`, and what is asked for.
pub open spec fn listener_next(state: ListenerState, event: ListenerEvent) -> (
    ListenerState,
    ListenerActionView,
) {
    match (state, event) {
        (ListenerState::Checking, ListenerEvent::StopChecked { requested }) => if requested {
            (ListenerState::Finished, ListenerActionView::Exit)
        } else {
            (ListenerState::Receiving, ListenerActionView::Receive)
        },
        (ListenerState::Receiving, ListenerEvent::Datagram { source, announcement }) => match announcement {
            Some(info) => (
                ListenerState::Publishing,
                ListenerActionView::Publish(peer_of(source@, info)),
            ),
            None => (ListenerState::Checking, ListenerActionView::CheckStop),
        },
        (ListenerState::Receiving, ListenerEvent::ReceiveFailed) => (
            ListenerState::Finished,
            ListenerActionView::Exit,
        ),
        (ListenerState::Publishing, ListenerEvent::Published { accepted }) => if accepted {
            (ListenerState::Checking, ListenerActionView::CheckStop)
        } else {
            (ListenerState::Finished, ListenerActionView::Exit)
        },
        _ => (state, ListenerActionView::Idle),
    }
}

/// Begins the receiving loop: the stop signal is looked at before the first
/// datagram is waited for.
pub fn listener_start() -> (begin: (ListenerState, ListenerAction))
    ensures
        begin.0 == ListenerState::Checking,
        begin.1@ == ListenerActionView::CheckStop,
{
    (ListenerState::Checking, ListenerAction::CheckStop)
}

/// Takes one event: gives the next state and what to do next.
pub fn listener_step(state: ListenerState, event: ListenerEvent) -> (next: (
    ListenerState,
    ListenerAction,
))
    ensures
        (next.0, next.1@) == listener_next(state, event),
{
    match state {
        ListenerState::Checking => match event {
            ListenerEvent::StopChecked { requested } => {
                if requested {
                    (ListenerState::Finished, ListenerAction::Exit)
                } else {
                    (ListenerState::Receiving, ListenerAction::Receive)
                }
            },
            _ => (state, ListenerAction::Idle),
        },
        ListenerState::Receiving => match event {
            ListenerEvent::Datagram { source, announcement } => match announcement {
                Some(info) => {
                    let peer = DiscoveredPeer {
                        host: source,
                        port: info.port,
                        version: info.version,
                    };
                    (ListenerState::Publishing, ListenerAction::Publish(peer))
                },
                None => (ListenerState::Checking, ListenerAction::CheckStop),
            },
            ListenerEvent::ReceiveFailed => (ListenerState::Finished, ListenerAction::Exit),
            _ => (state, ListenerAction::Idle),
        },
        ListenerState::Publishing => match event {
            ListenerEvent::Published { accepted } => {
                if accepted {
                    (ListenerState::Checking, ListenerAction::CheckStop)
                } else {
                    (ListenerState::Finished, ListenerAction::Exit)
                }
            },
            _ => (state, ListenerAction::Idle),
        },
        ListenerState::Finished => (state, ListenerAction::Idle),
    }
}

/// The listening side of discovery: where its receiving loop stands and
/// whether it was told to stop.
#[derive(Clone, Copy, Debug)]
pub struct Client {
    pub state: ListenerState,
    pub stop_requested: bool,
}

/// The event as the loop of a listener takes it: a look at the stop signal
/// finds it given where the listener was told to stop, whatever was reported.
pub open spec fn heeded_by_listener(event: ListenerEvent, stop_requested: bool) -> ListenerEvent {
    match event {
        ListenerEvent::StopChecked { requested } => ListenerEvent::StopChecked {
            requested: requested || stop_requested,
        },
        _ => event,
    }
}

/// The listener after `event`, and what its loop asks for: the loop moves as
/// `listener_next` says.
pub open spec fn client_next(client: Client, event: ListenerEvent) -> (Client, ListenerActionView) {
    let (state, action) = listener_next(
        client.state,
        heeded_by_listener(event, client.stop_requested),
    );
    (Client { state, ..client }, action)
}

/// How often the loop of `client` asks for a datagram while `events` are
/// taken.
pub open spec fn receives_asked(client: Client, events: Seq<ListenerEvent>) -> nat
    decreases events.len(),
{
    if events.len() == 0 {
        0
    } else {
        let (next, action) = client_next(client, events.first());
        let now: nat = if action is Receive {
            1
        } else {
            0
        };
        now + receives_asked(next, events.drop_first())
    }
}

/// How many sessions the loop of `client` hands to the consumer while
/// `events` are taken.
pub open spec fn sessions_handed_on(client: Client, events: Seq<ListenerEvent>) -> nat
    decreases events.len(),
{
    if events.len() == 0 {
        0
    } else {
        let (next, action) = client_next(client, events.first());
        let now: nat = if action is Publish {
            1
        } else {
            0
        };
        now + sessions_handed_on(next, events.drop_first())
    }
}

impl Client {
    /// Takes one event of the receiving loop and says what to do next.
    pub fn step(&mut self, event: ListenerEvent) -> (action: ListenerAction)
        ensures
            (*final(self), action@) == client_next(*old(self), event),
    {
        let taken = match event {
            ListenerEvent::StopChecked { requested } => ListenerEvent::StopChecked {
                requested: requested || self.stop_requested,
            },
            other => other,
        };
        let next = listener_step(self.state, taken);
        self.state = next.0;
        next.1
    }

    /// Tells the listener to stop. From then on its loop waits for no
    /// further datagram, whatever it is told: it leaves at its next look at
    /// the stop signal, or at once where the wait it is in fails because the
    /// socket was closed. At most the one datagram it was waiting for is
    /// still handed on.
    pub fn stop(&mut self)
        ensures
            *final(self) == (Client { stop_requested: true, ..*old(self) }),
            forall|events: Seq<ListenerEvent>| #[trigger]
                receives_asked(*final(self), events) == 0,
            forall|events: Seq<ListenerEvent>| #[trigger]
                sessions_handed_on(*final(self), events) <= 1,
            client_next(*final(self), ListenerEvent::ReceiveFailed).0.state == (if old(self).state
                == ListenerState::Receiving {
                ListenerState::Finished
            } else {
                old(self).state
            }),
    {
        self.stop_requested = true;
        proof {
            let stopped = *self;
            assert forall|events: Seq<ListenerEvent>| #[trigger]
                receives_asked(stopped, events) == 0 by {
                lemma_stopped_client_waits_no_more(stopped, events);
            }
            assert forall|events: Seq<ListenerEvent>| #[trigger]
                sessions_handed_on(stopped, events) <= 1 by {
                lemma_stopped_client_waits_no_more(stopped, events);
            }
        }
    }
}

/// Begins to listen for announcements: the stop signal is looked at before
/// the first datagram is waited for.
pub fn start_discovery() -> (begin: (Client, ListenerAction))
    ensures
        begin.0 == (Client { state: ListenerState::Checking, stop_requested: false }),
        begin.1@ == ListenerActionView::CheckStop,
{
    (Client { state: ListenerState::Checking, stop_requested: false }, ListenerAction::CheckStop)
}

/// A listener that was told to stop waits for no further datagram, whatever
/// its loop is told, and hands on at most the session announced by the
/// datagram it was waiting for when it was told.
pub proof fn lemma_stopped_client_waits_no_more(client: Client, events: Seq<ListenerEvent>)
    requires
        client.stop_requested,
    ensures
        receives_asked(client, events) == 0,
        sessions_handed_on(client, events) <= 1,
        client.state != ListenerState::Receiving ==> sessions_handed_on(client, events) == 0,
    decreases events.len(),
{
    if events.len() > 0 {
        lemma_stopped_client_waits_no_more(client_next(client, events.first()).0, events.drop_first());
    }
}

/// How many sessions are handed to the consumer while `events` are taken.
pub open spec fn sessions_published(state: ListenerState, events: Seq<ListenerEvent>) -> nat
    decreases events.len(),
{
    if events.len() == 0 {
        0
    } else {
        let (next, action) = listener_next(state, events.first());
        let now: nat = if action is Publish {
            1
        } else {
            0
        };
        now + sessions_published(next, events.drop_first())
    }
}

/// How many of `events` are datagrams that announce a session.
pub open spec fn announcements_heard(events: Seq<ListenerEvent>) -> nat
    decreases events.len(),
{
    if events.len() == 0 {
        0
    } else {
        let now: nat = match events.first() {
            ListenerEvent::Datagram { source, announcement } => if announcement is Some {
                1
            } else {
                0
            },
            _ => 0,
        };
        now + announcements_heard(events.drop_first())
    }
}

/// A datagram that is no announcement makes no event and does not end the
/// loop: the listener goes back to the stop signal, then waits for the next
/// datagram, and an announcement that follows is published with the sender's
/// address and the announced port and version.
pub proof fn lemma_malformed_datagram_is_skipped(
    source: String,
    later_source: String,
    later: ServerInfo,
)
    ensures
        listener_next(
            ListenerState::Receiving,
            ListenerEvent::Datagram { source, announcement: None },
        ) == (ListenerState::Checking, ListenerActionView::CheckStop),
        listener_next(ListenerState::Checking, ListenerEvent::StopChecked { requested: false })
            == (ListenerState::Receiving, ListenerActionView::Receive),
        listener_next(
            ListenerState::Receiving,
            ListenerEvent::Datagram { source: later_source, announcement: Some(later) },
        ) == (
            ListenerState::Publishing,
            ListenerActionView::Publish(peer_of(later_source@, later)),
        ),
{
}

/// The listener never publishes more sessions than it heard announcements,
/// whatever else comes in.
pub proof fn lemma_published_at_most_heard(state: ListenerState, events: Seq<ListenerEvent>)
    ensures
        sessions_published(state, events) <= announcements_heard(events),
    decreases events.len(),
{
    if events.len() > 0 {
        lemma_published_at_most_heard(listener_next(state, events.first()).0, events.drop_first());
    }
}

/// The sessions handed to the consumer while `events` are taken, in the
/// order in which they are handed on.
pub open spec fn peers_published(state: ListenerState, events: Seq<ListenerEvent>) -> Seq<
    DiscoveredPeerView,
>
    decreases events.len(),
{
    if events.len() == 0 {
        Seq::<DiscoveredPeerView>::empty()
    } else {
        let (next, action) = listener_next(state, events.first());
        let rest = peers_published(next, events.drop_first());
        match action {
            ListenerActionView::Publish(peer) => seq![peer] + rest,
            _ => rest,
        }
    }
}

/// The sessions announced by the datagrams among `events`, in the order in
/// which they came in.
pub open spec fn peers_heard(events: Seq<ListenerEvent>) -> Seq<DiscoveredPeerView>
    decreases events.len(),
{
    if events.len() == 0 {
        Seq::<DiscoveredPeerView>::empty()
    } else {
        let rest = peers_heard(events.drop_first());
        match events.first() {
            ListenerEvent::Datagram { source, announcement: Some(info) } => seq![
                peer_of(source@, info),
            ] + rest,
            _ => rest,
        }
    }
}

/// Whether the items of `part` stand in `whole` in the same order, with
/// other items between them or not.
pub open spec fn in_order_within(part: Seq<DiscoveredPeerView>, whole: Seq<DiscoveredPeerView>) -> bool
    decreases whole.len(),
{
    if part.len() == 0 {
        true
    } else if whole.len() == 0 {
        false
    } else if part.first() == whole.first() {
        in_order_within(part.drop_first(), whole.drop_first())
    } else {
        in_order_within(part, whole.drop_first())
    }
}

/// What stands in order within a sequence still does so without its first
/// item.
proof fn lemma_in_order_without_first(part: Seq<DiscoveredPeerView>, whole: Seq<DiscoveredPeerView>)
    requires
        part.len() > 0,
        in_order_within(part, whole),
    ensures
        in_order_within(part.drop_first(), whole),
    decreases whole.len(), 1nat,
{
    if part.first() != whole.first() {
        lemma_in_order_without_first(part, whole.drop_first());
    }
    lemma_in_order_skips(part.drop_first(), whole);
}

/// What stands in order within the rest of a sequence stands in order within
/// the whole of it.
proof fn lemma_in_order_skips(part: Seq<DiscoveredPeerView>, whole: Seq<DiscoveredPeerView>)
    requires
        whole.len() > 0,
        in_order_within(part, whole.drop_first()),
    ensures
        in_order_within(part, whole),
    decreases whole.len(), 0nat,
{
    if part.len() > 0 && part.first() == whole.first() {
        lemma_in_order_without_first(part, whole.drop_first());
    }
}

/// The consumer gets sessions in the order in which their announcements came
/// in: what is published is, item by item and in order, among what was heard.
pub proof fn lemma_published_in_order_heard(state: ListenerState, events: Seq<ListenerEvent>)
    ensures
        in_order_within(peers_published(state, events), peers_heard(events)),
    decreases events.len(),
{
    if events.len() > 0 {
        let (next, action) = listener_next(state, events.first());
        let rest = events.drop_first();
        lemma_published_in_order_heard(next, rest);
        let published = peers_published(next, rest);
        let heard = peers_heard(rest);
        match action {
            ListenerActionView::Publish(peer) => {
                assert(peers_heard(events) == seq![peer] + heard);
                assert((seq![peer] + published).drop_first() =~= published);
                assert((seq![peer] + heard).drop_first() =~= heard);
            },
            _ => {
                match events.first() {
                    ListenerEvent::Datagram { source, announcement: Some(info) } => {
                        let whole = seq![peer_of(source@, info)] + heard;
                        assert(whole.drop_first() =~= heard);
                        lemma_in_order_skips(published, whole);
                    },
                    _ => {},
                }
            },
        }
    }
}

} // verus!
