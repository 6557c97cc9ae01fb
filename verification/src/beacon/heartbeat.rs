//! The heartbeat: the periodic upkeep of the connections of a beacon.
//!
//! A heartbeat keeps the number of peers between a minimum and a maximum, keeps the connection to
//! one beacon only, and keeps the trusted peers connected. It is a state machine: the node
//! performs the pending [`Action`] and hands the [`Event`] that answers it to
//! [`Heartbeat::step`], until the pending action is [`Action::Stop`].

use crate::beacon::peer::{
    at_most, excess, pop_first, take_at_most, take_untrusted, untrusted, PeerAddr,
};
use crate::beacon::sampling::{
    choose_from_iter, choose_from_slice, drawn_from, lemma_draw_nothing,
};
use vstd::prelude::*;

verus! {

/// The number of seconds between two heartbeats.
pub const HEARTBEAT_IN_SECS: u64 = 9;

/// The number of connected peers above which peers get disconnected.
pub const MAXIMUM_NUMBER_OF_PEERS: usize = 21;

/// The number of connected peers below which candidates are tried.
pub const MINIMUM_NUMBER_OF_PEERS: usize = 1;

/// The number of beacons that stay connected.
pub const MAXIMUM_NUMBER_OF_BEACONS: usize = 1;

/// The number of connected peers that are asked for more addresses.
pub const NUMBER_OF_PEERS_TO_ASK: usize = 3;

/// What the node is to do next.
#[derive(Clone, Copy, Debug, PartialEq, Eq, Structural)]
pub enum Action {
    /// Count the connected peers. Answered by `Event::Count`.
    CountPeers,
    /// List the connected peers. Answered by `Event::Addrs`.
    ListPeers,
    /// List the connected beacons. Answered by `Event::Addrs`.
    ListBeacons,
    /// List the candidate peers. Answered by `Event::Addrs`.
    ListCandidates,
    /// Look up whether a peer is connected. Answered by `Event::Connected`.
    CheckConnected(PeerAddr),
    /// Connect to a peer. Answered by `Event::Attempted`.
    Connect(PeerAddr),
    /// Disconnect from a peer. Answered by `Event::Done`.
    Disconnect(PeerAddr),
    /// Remove a peer from the candidates. Answered by `Event::Done`.
    ForgetCandidate(PeerAddr),
    /// Put a peer on the list of restricted peers. Answered by `Event::Done`.
    Restrict(PeerAddr),
    /// Ask a peer for the addresses of more peers. Answered by `Event::Done`.
    RequestPeers(PeerAddr),
    /// The heartbeat is over.
    Stop,
}

/// What came of an action.
pub enum Event<Q> {
    /// So many peers are connected.
    Count(usize),
    /// The addresses that were asked for.
    Addrs(Q),
    /// Whether the peer is connected.
    Connected(bool),
    /// Whether the attempt to connect succeeded.
    Attempted(bool),
    /// The action was carried out.
    Done,
}

impl View for Event<Vec<PeerAddr>> {
    type V = Event<Seq<PeerAddr>>;

    open spec fn view(&self) -> Event<Seq<PeerAddr>> {
        match *self {
            Event::Count(count) => Event::Count(count),
            Event::Addrs(addrs) => Event::Addrs(addrs@),
            Event::Connected(connected) => Event::Connected(connected),
            Event::Attempted(connected) => Event::Attempted(connected),
            Event::Done => Event::Done,
        }
    }
}

/// How far a heartbeat is. The first address of a queue is the one that the pending action is
/// about.
pub enum Stage<Q> {
    /// Finding out how many peers there are.
    CountPeers,
    /// Finding out which peers there are, when there are `excess` too many.
    ListPeers { excess: usize },
    /// Disconnecting from peers in excess.
    DropPeers { queue: Q },
    /// Finding out which beacons are connected.
    ListBeacons,
    /// Disconnecting from beacons in excess.
    DropBeacons { queue: Q },
    /// Finding out whether trusted peer number `next` is connected.
    CheckTrusted { next: usize },
    /// Connecting to trusted peer number `next`.
    JoinTrusted { next: usize },
    /// Finding out how many peers there are by now.
    Recount,
    /// Finding out which candidates there are, when `num_connected` peers are too few.
    ListCandidates { num_connected: usize },
    /// Connecting to a candidate.
    TryCandidate { queue: Q, num_connected: usize },
    /// Removing a candidate that was tried.
    ForgetCandidate { queue: Q, num_connected: usize, connected: bool },
    /// Restricting a candidate that could not be connected to.
    RestrictCandidate { queue: Q, num_connected: usize },
    /// Finding out which peers could be asked for more.
    ListPeersToAsk,
    /// Asking peers for more.
    AskPeers { queue: Q },
    /// Nothing is left to do.
    Finished,
}

impl View for Stage<Vec<PeerAddr>> {
    type V = Stage<Seq<PeerAddr>>;

    open spec fn view(&self) -> Stage<Seq<PeerAddr>> {
        match *self {
            Stage::CountPeers => Stage::CountPeers,
            Stage::ListPeers { excess } => Stage::ListPeers { excess },
            Stage::DropPeers { queue } => Stage::DropPeers { queue: queue@ },
            Stage::ListBeacons => Stage::ListBeacons,
            Stage::DropBeacons { queue } => Stage::DropBeacons { queue: queue@ },
            Stage::CheckTrusted { next } => Stage::CheckTrusted { next },
            Stage::JoinTrusted { next } => Stage::JoinTrusted { next },
            Stage::Recount => Stage::Recount,
            Stage::ListCandidates { num_connected } => Stage::ListCandidates { num_connected },
            Stage::TryCandidate { queue, num_connected } => Stage::TryCandidate {
                queue: queue@,
                num_connected,
            },
            Stage::ForgetCandidate { queue, num_connected, connected } => Stage::ForgetCandidate {
                queue: queue@,
                num_connected,
                connected,
            },
            Stage::RestrictCandidate { queue, num_connected } => Stage::RestrictCandidate {
                queue: queue@,
                num_connected,
            },
            Stage::ListPeersToAsk => Stage::ListPeersToAsk,
            Stage::AskPeers { queue } => Stage::AskPeers { queue: queue@ },
            Stage::Finished => Stage::Finished,
        }
    }
}

/// A heartbeat under way.
pub struct Heartbeat {
    trusted: Vec<PeerAddr>,
    stage: Stage<Vec<PeerAddr>>,
}

/// The model of a `Heartbeat`.
pub struct HeartbeatView {
    pub trusted: Seq<PeerAddr>,
    pub stage: Stage<Seq<PeerAddr>>,
}

impl View for Heartbeat {
    type V = HeartbeatView;

    closed spec fn view(&self) -> HeartbeatView {
        HeartbeatView { trusted: self.trusted@, stage: self.stage@ }
    }
}

/// A heartbeat that has not done anything yet.
pub open spec fn started(trusted: Seq<PeerAddr>) -> HeartbeatView {
    HeartbeatView { trusted, stage: Stage::CountPeers }
}

/// Where the disconnecting of peers leads to, with these left to disconnect from.
pub open spec fn drop_peers(queue: Seq<PeerAddr>) -> Stage<Seq<PeerAddr>> {
    if queue.len() > 0 {
        Stage::DropPeers { queue }
    } else {
        Stage::ListBeacons
    }
}

/// Where the check of trusted peers leads to, from number `next` on.
pub open spec fn check_trusted(trusted: Seq<PeerAddr>, next: int) -> Stage<Seq<PeerAddr>> {
    if next < trusted.len() {
        Stage::CheckTrusted { next: next as usize }
    } else {
        Stage::Recount
    }
}

/// Where the disconnecting of beacons leads to, with these left to disconnect from.
pub open spec fn drop_beacons(trusted: Seq<PeerAddr>, queue: Seq<PeerAddr>) -> Stage<
    Seq<PeerAddr>,
> {
    if queue.len() > 0 {
        Stage::DropBeacons { queue }
    } else {
        check_trusted(trusted, 0)
    }
}

/// Where the trying of candidates leads to, with these left to try. Peers are asked for more
/// addresses afterwards if there are any.
pub open spec fn try_candidates(queue: Seq<PeerAddr>, num_connected: usize) -> Stage<
    Seq<PeerAddr>,
> {
    if queue.len() > 0 {
        Stage::TryCandidate { queue, num_connected }
    } else if num_connected > 0 {
        Stage::ListPeersToAsk
    } else {
        Stage::Finished
    }
}

/// Where the asking of peers leads to, with these left to ask.
pub open spec fn ask_peers(queue: Seq<PeerAddr>) -> Stage<Seq<PeerAddr>> {
    if queue.len() > 0 {
        Stage::AskPeers { queue }
    } else {
        Stage::Finished
    }
}

impl HeartbeatView {
    /// What holds of every heartbeat: a queue that is worked on is not empty, no trusted peer is
    /// dropped as a peer in excess, and candidates are tried only if peers are missing, as many
    /// as are missing.
    pub open spec fn wf(self) -> bool {
        match self.stage {
            Stage::ListPeers { excess } => excess > 0,
            Stage::DropPeers { queue } => {
                &&& queue.len() > 0
                &&& forall|i: int|
                    0 <= i < queue.len() ==> !self.trusted.contains(#[trigger] queue[i])
            },
            Stage::DropBeacons { queue } => queue.len() > 0,
            Stage::CheckTrusted { next } => next < self.trusted.len(),
            Stage::JoinTrusted { next } => next < self.trusted.len(),
            Stage::ListCandidates { num_connected } => num_connected < MINIMUM_NUMBER_OF_PEERS,
            Stage::TryCandidate { queue, num_connected } => {
                0 < queue.len() <= MINIMUM_NUMBER_OF_PEERS - num_connected
            },
            Stage::ForgetCandidate { queue, num_connected, connected } => {
                0 < queue.len() <= MINIMUM_NUMBER_OF_PEERS - num_connected
            },
            Stage::RestrictCandidate { queue, num_connected } => {
                0 < queue.len() <= MINIMUM_NUMBER_OF_PEERS - num_connected
            },
            Stage::AskPeers { queue } => queue.len() > 0,
            _ => true,
        }
    }

    /// The pending action.
    pub open spec fn action(self) -> Action {
        match self.stage {
            Stage::CountPeers => Action::CountPeers,
            Stage::ListPeers { excess } => Action::ListPeers,
            Stage::DropPeers { queue } => Action::Disconnect(queue[0]),
            Stage::ListBeacons => Action::ListBeacons,
            Stage::DropBeacons { queue } => Action::Disconnect(queue[0]),
            Stage::CheckTrusted { next } => Action::CheckConnected(self.trusted[next as int]),
            Stage::JoinTrusted { next } => Action::Connect(self.trusted[next as int]),
            Stage::Recount => Action::CountPeers,
            Stage::ListCandidates { num_connected } => Action::ListCandidates,
            Stage::TryCandidate { queue, num_connected } => Action::Connect(queue[0]),
            Stage::ForgetCandidate { queue, num_connected, connected } => Action::ForgetCandidate(
                queue[0],
            ),
            Stage::RestrictCandidate { queue, num_connected } => Action::Restrict(queue[0]),
            Stage::ListPeersToAsk => Action::ListPeers,
            Stage::AskPeers { queue } => Action::RequestPeers(queue[0]),
            Stage::Finished => Action::Stop,
        }
    }

    /// Whether `event` answers the pending action.
    pub open spec fn fits(self, event: Event<Seq<PeerAddr>>) -> bool {
        match self.action() {
            Action::CountPeers => event is Count,
            Action::ListPeers | Action::ListBeacons | Action::ListCandidates => event is Addrs,
            Action::CheckConnected(addr) => event is Connected,
            Action::Connect(addr) => event is Attempted,
            Action::Disconnect(addr) | Action::ForgetCandidate(addr) | Action::Restrict(addr)
            | Action::RequestPeers(addr) => event is Done,
            Action::Stop => false,
        }
    }

    /// Whether `sample` can be what is drawn at random when `event` comes in.
    pub open spec fn may_draw(self, event: Event<Seq<PeerAddr>>, sample: Seq<PeerAddr>) -> bool {
        match (self.stage, event) {
            (Stage::ListBeacons, Event::Addrs(beacons)) => drawn_from(
                beacons,
                excess(beacons.len(), MAXIMUM_NUMBER_OF_BEACONS as nat),
                sample,
            ),
            (Stage::ListPeersToAsk, Event::Addrs(peers)) => drawn_from(
                peers,
                NUMBER_OF_PEERS_TO_ASK as nat,
                sample,
            ),
            _ => sample.len() == 0,
        }
    }

    /// The stage after `event`, when `sample` is drawn. An event that does not answer the
    /// pending action changes nothing.
    pub open spec fn next_stage(self, event: Event<Seq<PeerAddr>>, sample: Seq<PeerAddr>) -> Stage<
        Seq<PeerAddr>,
    > {
        match (self.stage, event) {
            (Stage::CountPeers, Event::Count(count)) => {
                if count > MAXIMUM_NUMBER_OF_PEERS {
                    Stage::ListPeers { excess: (count - MAXIMUM_NUMBER_OF_PEERS) as usize }
                } else {
                    Stage::ListBeacons
                }
            },
            (Stage::ListPeers { excess }, Event::Addrs(peers)) => drop_peers(
                at_most(untrusted(peers, self.trusted), excess as nat),
            ),
            (Stage::DropPeers { queue }, Event::Done) => drop_peers(queue.drop_first()),
            (Stage::ListBeacons, Event::Addrs(beacons)) => drop_beacons(self.trusted, sample),
            (Stage::DropBeacons { queue }, Event::Done) => drop_beacons(
                self.trusted,
                queue.drop_first(),
            ),
            (Stage::CheckTrusted { next }, Event::Connected(connected)) => {
                if connected {
                    check_trusted(self.trusted, next + 1)
                } else {
                    Stage::JoinTrusted { next }
                }
            },
            (Stage::JoinTrusted { next }, Event::Attempted(connected)) => check_trusted(
                self.trusted,
                next + 1,
            ),
            (Stage::Recount, Event::Count(count)) => {
                if count < MINIMUM_NUMBER_OF_PEERS {
                    Stage::ListCandidates { num_connected: count }
                } else {
                    Stage::Finished
                }
            },
            (Stage::ListCandidates { num_connected }, Event::Addrs(candidates)) => try_candidates(
                at_most(candidates, excess(MINIMUM_NUMBER_OF_PEERS as nat, num_connected as nat)),
                num_connected,
            ),
            (Stage::TryCandidate { queue, num_connected }, Event::Attempted(connected)) => {
                Stage::ForgetCandidate { queue, num_connected, connected }
            },
            (Stage::ForgetCandidate { queue, num_connected, connected }, Event::Done) => {
                if connected {
                    try_candidates(queue.drop_first(), num_connected)
                } else {
                    Stage::RestrictCandidate { queue, num_connected }
                }
            },
            (Stage::RestrictCandidate { queue, num_connected }, Event::Done) => try_candidates(
                queue.drop_first(),
                num_connected,
            ),
            (Stage::ListPeersToAsk, Event::Addrs(peers)) => ask_peers(sample),
            (Stage::AskPeers { queue }, Event::Done) => ask_peers(queue.drop_first()),
            _ => self.stage,
        }
    }

    /// The heartbeat after `event`, when `sample` is drawn.
    pub open spec fn next(
        self,
        event: Event<Seq<PeerAddr>>,
        sample: Seq<PeerAddr>,
    ) -> HeartbeatView {
        HeartbeatView { stage: self.next_stage(event, sample), ..self }
    }
}

/// Draws all beacons but one at random, if there is more than one.
pub fn excess_beacons(beacons: &Vec<PeerAddr>) -> (sample: Vec<PeerAddr>)
    ensures
        drawn_from(
            beacons@,
            excess(beacons@.len(), MAXIMUM_NUMBER_OF_BEACONS as nat),
            sample@,
        ),
{
    let num_excess: usize = beacons.len().saturating_sub(MAXIMUM_NUMBER_OF_BEACONS);
    if num_excess > 0 {
        let copy: Vec<PeerAddr> = beacons.clone();
        proof {
            assert(copy@ =~= beacons@);
        }
        choose_from_iter(copy, num_excess)
    } else {
        proof {
            lemma_draw_nothing(beacons@);
        }
        Vec::new()
    }
}

/// Draws some of the connected peers at random.
pub fn peers_to_ask(peers: &Vec<PeerAddr>) -> (sample: Vec<PeerAddr>)
    ensures
        drawn_from(peers@, NUMBER_OF_PEERS_TO_ASK as nat, sample@),
{
    choose_from_slice(peers, NUMBER_OF_PEERS_TO_ASK)
}

impl Stage<Vec<PeerAddr>> {
    fn drop_peers(queue: Vec<PeerAddr>) -> (stage: Self)
        ensures
            stage@ == drop_peers(queue@),
    {
        if queue.len() > 0 {
            Stage::DropPeers { queue }
        } else {
            Stage::ListBeacons
        }
    }

    fn check_trusted(trusted: &Vec<PeerAddr>, next: usize) -> (stage: Self)
        ensures
            stage@ == check_trusted(trusted@, next as int),
    {
        if next < trusted.len() {
            Stage::CheckTrusted { next }
        } else {
            Stage::Recount
        }
    }

    fn drop_beacons(trusted: &Vec<PeerAddr>, queue: Vec<PeerAddr>) -> (stage: Self)
        ensures
            stage@ == drop_beacons(trusted@, queue@),
    {
        if queue.len() > 0 {
            Stage::DropBeacons { queue }
        } else {
            Self::check_trusted(trusted, 0)
        }
    }

    fn try_candidates(queue: Vec<PeerAddr>, num_connected: usize) -> (stage: Self)
        ensures
            stage@ == try_candidates(queue@, num_connected),
    {
        if queue.len() > 0 {
            Stage::TryCandidate { queue, num_connected }
        } else if num_connected > 0 {
            Stage::ListPeersToAsk
        } else {
            Stage::Finished
        }
    }

    fn ask_peers(queue: Vec<PeerAddr>) -> (stage: Self)
        ensures
            stage@ == ask_peers(queue@),
    {
        if queue.len() > 0 {
            Stage::AskPeers { queue }
        } else {
            Stage::Finished
        }
    }
}

/// Every step keeps a heartbeat well-formed.
pub proof fn lemma_next_keeps_wf(
    heartbeat: HeartbeatView,
    event: Event<Seq<PeerAddr>>,
    sample: Seq<PeerAddr>,
)
    requires
        heartbeat.wf(),
    ensures
        heartbeat.next(event, sample).wf(),
{
    if let (Stage::ListPeers { excess }, Event::Addrs(peers)) = (heartbeat.stage, event) {
        let keep = |addr: PeerAddr| !heartbeat.trusted.contains(addr);
        assert forall|i: int| 0 <= i < untrusted(peers, heartbeat.trusted).len() implies
            !heartbeat.trusted.contains(#[trigger] untrusted(peers, heartbeat.trusted)[i]) by {
            peers.lemma_filter_pred(keep, i);
        }
    }
}

impl Heartbeat {
    #[verifier::type_invariant]
    spec fn inv(self) -> bool {
        self@.wf()
    }

    /// Starts a heartbeat of a node with the given trusted peers.
    pub fn new(trusted: Vec<PeerAddr>) -> (heartbeat: Self)
        ensures
            heartbeat@ == started(trusted@),
    {
        Heartbeat { trusted, stage: Stage::CountPeers }
    }

    /// Returns the pending action.
    pub fn action(&self) -> (action: Action)
        ensures
            action == self@.action(),
    {
        proof {
            use_type_invariant(self);
        }
        match &self.stage {
            Stage::CountPeers => Action::CountPeers,
            Stage::ListPeers { excess: _ } => Action::ListPeers,
            Stage::DropPeers { queue } => Action::Disconnect(queue[0]),
            Stage::ListBeacons => Action::ListBeacons,
            Stage::DropBeacons { queue } => Action::Disconnect(queue[0]),
            Stage::CheckTrusted { next } => Action::CheckConnected(self.trusted[*next]),
            Stage::JoinTrusted { next } => Action::Connect(self.trusted[*next]),
            Stage::Recount => Action::CountPeers,
            Stage::ListCandidates { num_connected: _ } => Action::ListCandidates,
            Stage::TryCandidate { queue, num_connected: _ } => Action::Connect(queue[0]),
            Stage::ForgetCandidate { queue, num_connected: _, connected: _ } => {
                Action::ForgetCandidate(queue[0])
            },
            Stage::RestrictCandidate { queue, num_connected: _ } => Action::Restrict(queue[0]),
            Stage::ListPeersToAsk => Action::ListPeers,
            Stage::AskPeers { queue } => Action::RequestPeers(queue[0]),
            Stage::Finished => Action::Stop,
        }
    }

    /// Draws at random what the answer to the pending action calls for: all connected beacons
    /// but one, or some of the connected peers. Draws nothing otherwise.
    pub fn draw(&self, event: &Event<Vec<PeerAddr>>) -> (sample: Vec<PeerAddr>)
        ensures
            self@.may_draw(event@, sample@),
    {
        match (&self.stage, event) {
            (Stage::ListBeacons, Event::Addrs(beacons)) => excess_beacons(beacons),
            (Stage::ListPeersToAsk, Event::Addrs(peers)) => peers_to_ask(peers),
            _ => Vec::new(),
        }
    }

    /// Goes on with the answer to the pending action. An event that does not answer it changes
    /// nothing.
    pub fn step(self, event: Event<Vec<PeerAddr>>) -> (next: Self)
        ensures
            exists|sample: Seq<PeerAddr>| #[trigger]
                self@.may_draw(event@, sample) && next@ == self@.next(event@, sample),
    {
        let sample = self.draw(&event);
        self.step_with(event, sample)
    }

    /// Goes on with the answer to the pending action, when `sample` is drawn.
    pub fn step_with(self, event: Event<Vec<PeerAddr>>, sample: Vec<PeerAddr>) -> (next: Self)
        ensures
            next@ == self@.next(event@, sample@),
    {
        proof {
            use_type_invariant(&self);
            lemma_next_keeps_wf(self@, event@, sample@);
        }
        let Heartbeat { trusted, stage } = self;
        let stage = match (stage, event) {
            (Stage::CountPeers, Event::Count(count)) => {
                let excess: usize = count.saturating_sub(MAXIMUM_NUMBER_OF_PEERS);
                if excess > 0 {
                    Stage::ListPeers { excess }
                } else {
                    Stage::ListBeacons
                }
            },
            (Stage::ListPeers { excess }, Event::Addrs(peers)) => {
                Stage::drop_peers(take_untrusted(&peers, &trusted, excess))
            },
            (Stage::DropPeers { queue }, Event::Done) => Stage::drop_peers(pop_first(queue)),
            (Stage::ListBeacons, Event::Addrs(_)) => Stage::drop_beacons(&trusted, sample),
            (Stage::DropBeacons { queue }, Event::Done) => {
                Stage::drop_beacons(&trusted, pop_first(queue))
            },
            (Stage::CheckTrusted { next }, Event::Connected(connected)) => {
                if connected {
                    assert(next < trusted.len());
                    Stage::check_trusted(&trusted, next + 1)
                } else {
                    Stage::JoinTrusted { next }
                }
            },
            (Stage::JoinTrusted { next }, Event::Attempted(_)) => {
                assert(next < trusted.len());
                Stage::check_trusted(&trusted, next + 1)
            },
            (Stage::Recount, Event::Count(count)) => {
                let missing: usize = MINIMUM_NUMBER_OF_PEERS.saturating_sub(count);
                if missing > 0 {
                    Stage::ListCandidates { num_connected: count }
                } else {
                    Stage::Finished
                }
            },
            (Stage::ListCandidates { num_connected }, Event::Addrs(candidates)) => {
                let missing: usize = MINIMUM_NUMBER_OF_PEERS.saturating_sub(num_connected);
                Stage::try_candidates(take_at_most(&candidates, missing), num_connected)
            },
            (Stage::TryCandidate { queue, num_connected }, Event::Attempted(connected)) => {
                Stage::ForgetCandidate { queue, num_connected, connected }
            },
            (Stage::ForgetCandidate { queue, num_connected, connected }, Event::Done) => {
                if connected {
                    Stage::try_candidates(pop_first(queue), num_connected)
                } else {
                    Stage::RestrictCandidate { queue, num_connected }
                }
            },
            (Stage::RestrictCandidate { queue, num_connected }, Event::Done) => {
                Stage::try_candidates(pop_first(queue), num_connected)
            },
            (Stage::ListPeersToAsk, Event::Addrs(_)) => Stage::ask_peers(sample),
            (Stage::AskPeers { queue }, Event::Done) => Stage::ask_peers(pop_first(queue)),
            (stage, _) => stage,
        };
        Heartbeat { trusted, stage }
    }
}

} // verus!
