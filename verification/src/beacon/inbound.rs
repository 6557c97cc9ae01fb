//! The processing of a message that a peer sent.
//!
//! A new block is passed on to all other peers. A peer that sends what it should not is
//! restricted and disconnected. As with the heartbeat, the node performs the pending [`Action`]
//! and hands the [`Event`] that answers it to [`Inbound::step`], until the pending action is
//! [`Action::Stop`].

use crate::beacon::peer::{lemma_others_exclude, others, pop_first, without, PeerAddr};
use crate::digest::Digest;
use vstd::prelude::*;

verus! {

/// What a block is announced by.
#[derive(Clone, Copy, Debug, PartialEq, Eq, Structural)]
pub struct BlockHeader {
    pub height: u32,
    pub hash: Digest,
}

/// A message, as far as its processing depends on it.
#[derive(Clone, Copy, Debug, PartialEq, Eq, Structural)]
pub enum Message {
    BlockRequest,
    BlockResponse,
    ChallengeRequest,
    ChallengeResponse,
    PuzzleRequest,
    PuzzleResponse,
    Ping,
    Pong,
    /// A block, announced by its header and not decoded yet.
    UnconfirmedBlock(BlockHeader),
    UnconfirmedSolution,
    UnconfirmedTransaction,
    /// Any other message.
    Other,
}

/// Why a peer is disconnected.
#[derive(Clone, Copy, Debug, PartialEq, Eq, Structural)]
pub enum Rejection {
    /// It sent a message that no beacon should be sent.
    NotHandled,
    /// It sent a block that cannot be decoded.
    Undecodable,
    /// It sent a block that is not the one it announced.
    HeaderMismatch,
}

impl Rejection {
    /// Returns the reason in words, `None` if the decoder knows it better.
    pub fn reason(&self) -> (reason: Option<&'static str>)
        ensures
            match *self {
                Rejection::NotHandled => reason matches Some(text) && text@
                    == "peer sent a message that isn't handled by the beacon"@,
                Rejection::Undecodable => reason is None,
                Rejection::HeaderMismatch => reason matches Some(text) && text@
                    == "deserialized block doesn't match the 'UnconfirmedBlock' header"@,
            },
    {
        match self {
            Rejection::NotHandled => {
                Some("peer sent a message that isn't handled by the beacon")
            },
            Rejection::Undecodable => None,
            Rejection::HeaderMismatch => {
                Some("deserialized block doesn't match the 'UnconfirmedBlock' header")
            },
        }
    }
}

/// What the node is to do next.
#[derive(Clone, Copy, Debug, PartialEq, Eq, Structural)]
pub enum Action {
    /// Record the hash of a block as seen. Answered by `Event::Recorded`.
    RecordBlock(Digest),
    /// Decode the block of the message. Answered by `Event::Decoded`.
    DecodeBlock,
    /// List the connected peers. Answered by `Event::Addrs`.
    ListPeers,
    /// Send the message on to a peer. Answered by `Event::Done`.
    Relay(PeerAddr),
    /// Remove a peer from the known ones. Answered by `Event::Removed`.
    ForgetPeer(PeerAddr),
    /// Put a peer on the list of restricted peers. Answered by `Event::Done`.
    Restrict(PeerAddr),
    /// Disconnect from a peer. Answered by `Event::Done`.
    Disconnect(PeerAddr),
    /// The message is processed.
    Stop,
    /// There is no processing for such a message.
    Unsupported,
}

/// What came of an action.
pub enum Event<Q> {
    /// Whether the block had not been recorded before.
    Recorded(bool),
    /// The header of the decoded block, `None` if it cannot be decoded.
    Decoded(Option<BlockHeader>),
    /// The addresses that were asked for.
    Addrs(Q),
    /// The address that the removed peer listens on, `None` if it was not known.
    Removed(Option<PeerAddr>),
    /// The action was carried out.
    Done,
}

impl View for Event<Vec<PeerAddr>> {
    type V = Event<Seq<PeerAddr>>;

    open spec fn view(&self) -> Event<Seq<PeerAddr>> {
        match *self {
            Event::Recorded(new) => Event::Recorded(new),
            Event::Decoded(header) => Event::Decoded(header),
            Event::Addrs(addrs) => Event::Addrs(addrs@),
            Event::Removed(addr) => Event::Removed(addr),
            Event::Done => Event::Done,
        }
    }
}

/// How far the processing is. The first address of a queue is the one that the pending action is
/// about.
pub enum Stage<Q> {
    /// Recording an announced block.
    RecordBlock { header: BlockHeader },
    /// Decoding a block that was not seen before.
    DecodeBlock { header: BlockHeader },
    /// Finding out which peers the block could be sent on to.
    ListPeers,
    /// Sending the block on.
    Relay { queue: Q },
    /// Removing a peer that is rejected.
    ForgetPeer { rejection: Rejection },
    /// Restricting a peer that is rejected.
    RestrictPeer { addr: PeerAddr, rejection: Rejection },
    /// Disconnecting from a peer that is rejected.
    DropPeer { rejection: Rejection },
    /// Nothing is left to do.
    Finished { rejected: Option<Rejection> },
    /// There is no processing for the message.
    Unsupported,
}

impl View for Stage<Vec<PeerAddr>> {
    type V = Stage<Seq<PeerAddr>>;

    open spec fn view(&self) -> Stage<Seq<PeerAddr>> {
        match *self {
            Stage::RecordBlock { header } => Stage::RecordBlock { header },
            Stage::DecodeBlock { header } => Stage::DecodeBlock { header },
            Stage::ListPeers => Stage::ListPeers,
            Stage::Relay { queue } => Stage::Relay { queue: queue@ },
            Stage::ForgetPeer { rejection } => Stage::ForgetPeer { rejection },
            Stage::RestrictPeer { addr, rejection } => Stage::RestrictPeer { addr, rejection },
            Stage::DropPeer { rejection } => Stage::DropPeer { rejection },
            Stage::Finished { rejected } => Stage::Finished { rejected },
            Stage::Unsupported => Stage::Unsupported,
        }
    }
}

/// A message being processed.
pub struct Inbound {
    source: PeerAddr,
    stage: Stage<Vec<PeerAddr>>,
}

/// The model of an `Inbound`.
pub struct InboundView {
    pub source: PeerAddr,
    pub stage: Stage<Seq<PeerAddr>>,
}

impl View for Inbound {
    type V = InboundView;

    closed spec fn view(&self) -> InboundView {
        InboundView { source: self.source, stage: self.stage@ }
    }
}

/// Where the processing of a message starts.
pub open spec fn first_stage(message: Message) -> Stage<Seq<PeerAddr>> {
    match message {
        Message::BlockRequest
        | Message::BlockResponse
        | Message::ChallengeRequest
        | Message::ChallengeResponse
        | Message::PuzzleRequest
        | Message::PuzzleResponse => Stage::ForgetPeer { rejection: Rejection::NotHandled },
        Message::UnconfirmedBlock(header) => Stage::RecordBlock { header },
        Message::Ping
        | Message::Pong
        | Message::UnconfirmedSolution
        | Message::UnconfirmedTransaction => Stage::Finished { rejected: None },
        Message::Other => Stage::Unsupported,
    }
}

/// A message that has just been received.
pub open spec fn received(source: PeerAddr, message: Message) -> InboundView {
    InboundView { source, stage: first_stage(message) }
}

/// Where the sending on leads to, with these peers left to send to.
pub open spec fn relay(queue: Seq<PeerAddr>) -> Stage<Seq<PeerAddr>> {
    if queue.len() > 0 {
        Stage::Relay { queue }
    } else {
        Stage::Finished { rejected: None }
    }
}

/// The verdict on a block that was announced by one header and turned out to have another.
pub open spec fn header_verdict(announced: BlockHeader, decoded: Option<BlockHeader>) -> Result<
    (),
    Rejection,
> {
    match decoded {
        None => Err(Rejection::Undecodable),
        Some(header) => if header == announced {
            Ok(())
        } else {
            Err(Rejection::HeaderMismatch)
        },
    }
}

impl InboundView {
    /// What holds of every message being processed: a queue that is worked on is not empty and
    /// does not hold the source of the message.
    pub open spec fn wf(self) -> bool {
        self.stage matches Stage::Relay { queue } ==> {
            &&& queue.len() > 0
            &&& forall|i: int| 0 <= i < queue.len() ==> #[trigger] queue[i] != self.source
        }
    }

    /// The pending action.
    pub open spec fn action(self) -> Action {
        match self.stage {
            Stage::RecordBlock { header } => Action::RecordBlock(header.hash),
            Stage::DecodeBlock { header } => Action::DecodeBlock,
            Stage::ListPeers => Action::ListPeers,
            Stage::Relay { queue } => Action::Relay(queue[0]),
            Stage::ForgetPeer { rejection } => Action::ForgetPeer(self.source),
            Stage::RestrictPeer { addr, rejection } => Action::Restrict(addr),
            Stage::DropPeer { rejection } => Action::Disconnect(self.source),
            Stage::Finished { rejected } => Action::Stop,
            Stage::Unsupported => Action::Unsupported,
        }
    }

    /// Why the source is rejected, `None` if it is not, or not yet.
    pub open spec fn rejection(self) -> Option<Rejection> {
        match self.stage {
            Stage::ForgetPeer { rejection } => Some(rejection),
            Stage::RestrictPeer { addr, rejection } => Some(rejection),
            Stage::DropPeer { rejection } => Some(rejection),
            Stage::Finished { rejected } => rejected,
            _ => None,
        }
    }

    /// Whether `event` answers the pending action.
    pub open spec fn fits(self, event: Event<Seq<PeerAddr>>) -> bool {
        match self.action() {
            Action::RecordBlock(hash) => event is Recorded,
            Action::DecodeBlock => event is Decoded,
            Action::ListPeers => event is Addrs,
            Action::ForgetPeer(addr) => event is Removed,
            Action::Relay(addr) | Action::Restrict(addr) | Action::Disconnect(addr) => {
                event is Done
            },
            Action::Stop | Action::Unsupported => false,
        }
    }

    /// The stage after `event`. An event that does not answer the pending action changes
    /// nothing.
    pub open spec fn next_stage(self, event: Event<Seq<PeerAddr>>) -> Stage<Seq<PeerAddr>> {
        match (self.stage, event) {
            (Stage::RecordBlock { header }, Event::Recorded(new)) => {
                if new {
                    Stage::DecodeBlock { header }
                } else {
                    Stage::Finished { rejected: None }
                }
            },
            (Stage::DecodeBlock { header }, Event::Decoded(decoded)) => {
                match header_verdict(header, decoded) {
                    Ok(()) => Stage::ListPeers,
                    Err(rejection) => Stage::ForgetPeer { rejection },
                }
            },
            (Stage::ListPeers, Event::Addrs(peers)) => relay(others(peers, self.source)),
            (Stage::Relay { queue }, Event::Done) => relay(queue.drop_first()),
            (Stage::ForgetPeer { rejection }, Event::Removed(known)) => {
                match known {
                    Some(addr) => Stage::RestrictPeer { addr, rejection },
                    None => Stage::DropPeer { rejection },
                }
            },
            (Stage::RestrictPeer { addr, rejection }, Event::Done) => {
                Stage::DropPeer { rejection }
            },
            (Stage::DropPeer { rejection }, Event::Done) => {
                Stage::Finished { rejected: Some(rejection) }
            },
            _ => self.stage,
        }
    }

    /// The processing after `event`.
    pub open spec fn next(self, event: Event<Seq<PeerAddr>>) -> InboundView {
        InboundView { stage: self.next_stage(event), ..self }
    }
}

/// Decides whether a block is the one that was announced.
pub fn check_header(announced: BlockHeader, decoded: Option<BlockHeader>) -> (verdict: Result<
    (),
    Rejection,
>)
    ensures
        verdict == header_verdict(announced, decoded),
{
    match decoded {
        None => Err(Rejection::Undecodable),
        Some(header) => {
            if announced.height != header.height || announced.hash != header.hash {
                Err(Rejection::HeaderMismatch)
            } else {
                Ok(())
            }
        },
    }
}

impl Stage<Vec<PeerAddr>> {
    fn relay(queue: Vec<PeerAddr>) -> (stage: Self)
        ensures
            stage@ == relay(queue@),
    {
        if queue.len() > 0 {
            Stage::Relay { queue }
        } else {
            Stage::Finished { rejected: None }
        }
    }
}

/// Every step keeps the processing well-formed.
pub proof fn lemma_next_keeps_wf(inbound: InboundView, event: Event<Seq<PeerAddr>>)
    requires
        inbound.wf(),
    ensures
        inbound.next(event).wf(),
{
    if let (Stage::ListPeers, Event::Addrs(peers)) = (inbound.stage, event) {
        lemma_others_exclude(peers, inbound.source);
    }
}

impl Inbound {
    #[verifier::type_invariant]
    spec fn inv(self) -> bool {
        self@.wf()
    }

    /// Starts the processing of `message`, which `source` sent.
    pub fn process_message(source: PeerAddr, message: Message) -> (inbound: Self)
        ensures
            inbound@ == received(source, message),
    {
        match message {
            // A violation of the protocol.
            Message::BlockRequest
            | Message::BlockResponse
            | Message::ChallengeRequest
            | Message::ChallengeResponse
            | Message::PuzzleRequest
            | Message::PuzzleResponse => Inbound {
                source,
                stage: Stage::ForgetPeer { rejection: Rejection::NotHandled },
            },
            Message::UnconfirmedBlock(header) => Self::process_unconfirmed_block(source, header),
            // Valid messages that call for nothing yet.
            Message::Ping
            | Message::Pong
            | Message::UnconfirmedSolution
            | Message::UnconfirmedTransaction => Inbound {
                source,
                stage: Stage::Finished { rejected: None },
            },
            Message::Other => Inbound { source, stage: Stage::Unsupported },
        }
    }

    /// Starts the processing of a block that `source` announced by `header`.
    pub fn process_unconfirmed_block(source: PeerAddr, header: BlockHeader) -> (inbound: Self)
        ensures
            inbound@ == received(source, Message::UnconfirmedBlock(header)),
    {
        Inbound { source, stage: Stage::RecordBlock { header } }
    }

    /// Returns the pending action.
    pub fn action(&self) -> (action: Action)
        ensures
            action == self@.action(),
    {
        proof {
            use_type_invariant(self);
        }
        match &self.stage {
            Stage::RecordBlock { header } => Action::RecordBlock(header.hash),
            Stage::DecodeBlock { header: _ } => Action::DecodeBlock,
            Stage::ListPeers => Action::ListPeers,
            Stage::Relay { queue } => Action::Relay(queue[0]),
            Stage::ForgetPeer { rejection: _ } => Action::ForgetPeer(self.source),
            Stage::RestrictPeer { addr, rejection: _ } => Action::Restrict(*addr),
            Stage::DropPeer { rejection: _ } => Action::Disconnect(self.source),
            Stage::Finished { rejected: _ } => Action::Stop,
            Stage::Unsupported => Action::Unsupported,
        }
    }

    /// Returns why the source is rejected, `None` if it is not, or not yet.
    pub fn rejection(&self) -> (rejection: Option<Rejection>)
        ensures
            rejection == self@.rejection(),
    {
        match &self.stage {
            Stage::ForgetPeer { rejection } => Some(*rejection),
            Stage::RestrictPeer { addr: _, rejection } => Some(*rejection),
            Stage::DropPeer { rejection } => Some(*rejection),
            Stage::Finished { rejected } => *rejected,
            _ => None,
        }
    }

    /// Goes on with the answer to the pending action. An event that does not answer it changes
    /// nothing.
    pub fn step(self, event: Event<Vec<PeerAddr>>) -> (next: Self)
        ensures
            next@ == self@.next(event@),
    {
        proof {
            use_type_invariant(&self);
            lemma_next_keeps_wf(self@, event@);
        }
        let Inbound { source, stage } = self;
        let stage = match (stage, event) {
            (Stage::RecordBlock { header }, Event::Recorded(new)) => {
                if new {
                    Stage::DecodeBlock { header }
                } else {
                    Stage::Finished { rejected: None }
                }
            },
            (Stage::DecodeBlock { header }, Event::Decoded(decoded)) => {
                match check_header(header, decoded) {
                    Ok(()) => Stage::ListPeers,
                    Err(rejection) => Stage::ForgetPeer { rejection },
                }
            },
            (Stage::ListPeers, Event::Addrs(peers)) => Stage::relay(without(&peers, source)),
            (Stage::Relay { queue }, Event::Done) => Stage::relay(pop_first(queue)),
            (Stage::ForgetPeer { rejection }, Event::Removed(known)) => match known {
                Some(addr) => Stage::RestrictPeer { addr, rejection },
                None => Stage::DropPeer { rejection },
            },
            (Stage::RestrictPeer { addr: _, rejection }, Event::Done) => {
                Stage::DropPeer { rejection }
            },
            (Stage::DropPeer { rejection }, Event::Done) => {
                Stage::Finished { rejected: Some(rejection) }
            },
            (stage, _) => stage,
        };
        Inbound { source, stage }
    }
}

} // verus!
