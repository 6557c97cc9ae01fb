//! What holds of the processing of every message, whatever the node reports back.

use crate::beacon::inbound::{
    first_stage, header_verdict, lemma_next_keeps_wf, received, relay, Action, BlockHeader, Event, InboundView,
    Message, Rejection, Stage,
};
use crate::beacon::peer::{others, PeerAddr};
use vstd::prelude::*;

verus! {

/// The processing after the given events, one after the other.
pub open spec fn run(start: InboundView, events: Seq<Event<Seq<PeerAddr>>>) -> InboundView
    decreases events.len(),
{
    if events.len() == 0 {
        start
    } else {
        run(start, events.drop_last()).next(events.last())
    }
}

/// The processing stays well-formed and remembers who sent the message.
pub proof fn law_run_keeps_wf(
    source: PeerAddr,
    message: Message,
    events: Seq<Event<Seq<PeerAddr>>>,
)
    ensures
        run(received(source, message), events).wf(),
        run(received(source, message), events).source == source,
    decreases events.len(),
{
    if events.len() > 0 {
        law_run_keeps_wf(source, message, events.drop_last());
        lemma_next_keeps_wf(run(received(source, message), events.drop_last()), events.last());
    }
}

/// No block is sent back to the peer that it came from.
pub proof fn law_source_gets_nothing_back(
    source: PeerAddr,
    message: Message,
    events: Seq<Event<Seq<PeerAddr>>>,
)
    ensures
        run(received(source, message), events).action() matches Action::Relay(addr) ==> addr
            != source,
{
    law_run_keeps_wf(source, message, events);
}

/// Whether a beacon may be sent messages of this kind.
pub open spec fn is_valid(message: Message) -> bool {
    match message {
        Message::Ping
        | Message::Pong
        | Message::UnconfirmedBlock(_)
        | Message::UnconfirmedSolution
        | Message::UnconfirmedTransaction => true,
        _ => false,
    }
}

/// A message of a valid kind is processed, and nobody is ever rejected for its kind. Unless it is
/// a block, that is the end of it.
pub proof fn law_valid_message_is_accepted(
    source: PeerAddr,
    message: Message,
    events: Seq<Event<Seq<PeerAddr>>>,
)
    requires
        is_valid(message),
    ensures
        ({
            let inbound = run(received(source, message), events);
            &&& !(inbound.stage is Unsupported)
            &&& inbound.rejection() != Some(Rejection::NotHandled)
            &&& !(message is UnconfirmedBlock) ==> inbound.action() == Action::Stop
                && inbound.rejection() is None
        }),
    decreases events.len(),
{
    if events.len() > 0 {
        law_valid_message_is_accepted(source, message, events.drop_last());
    }
}

/// The processing is unsupported exactly of messages of no listed kind.
pub proof fn law_listed_kinds_are_supported(
    source: PeerAddr,
    message: Message,
    events: Seq<Event<Seq<PeerAddr>>>,
)
    ensures
        run(received(source, message), events).action() == Action::Unsupported <==> message
            is Other,
    decreases events.len(),
{
    if events.len() > 0 {
        law_listed_kinds_are_supported(source, message, events.drop_last());
    }
}

/// A block that was seen before is neither decoded nor sent on, and nobody is blamed for it.
pub proof fn law_known_block_is_ignored(source: PeerAddr, header: BlockHeader)
    ensures
        received(source, Message::UnconfirmedBlock(header)).next(Event::Recorded(false)).stage
            == (Stage::<Seq<PeerAddr>>::Finished { rejected: None }),
{
}

/// Whether event `k` reports that a block with the announced header was recorded for the first
/// time.
pub open spec fn recorded_at(
    source: PeerAddr,
    header: BlockHeader,
    events: Seq<Event<Seq<PeerAddr>>>,
    k: int,
) -> bool {
    let start = received(source, Message::UnconfirmedBlock(header));
    &&& 0 <= k < events.len()
    &&& run(start, events.take(k)).action() == Action::RecordBlock(header.hash)
    &&& events[k] == Event::<Seq<PeerAddr>>::Recorded(true)
}

/// Whether event `k` reports that the block was decoded and has the announced header.
pub open spec fn decoded_at(
    source: PeerAddr,
    header: BlockHeader,
    events: Seq<Event<Seq<PeerAddr>>>,
    k: int,
) -> bool {
    let start = received(source, Message::UnconfirmedBlock(header));
    &&& 0 <= k < events.len()
    &&& run(start, events.take(k)).action() == Action::DecodeBlock
    &&& events[k] == Event::<Seq<PeerAddr>>::Decoded(Some(header))
}

/// Where the processing of a block stands tells what was reported before.
proof fn lemma_reported_so_far(
    source: PeerAddr,
    header: BlockHeader,
    events: Seq<Event<Seq<PeerAddr>>>,
)
    ensures
        ({
            let stage = run(received(source, Message::UnconfirmedBlock(header)), events).stage;
            &&& stage matches Stage::RecordBlock { header: announced } ==> announced == header
            &&& stage matches Stage::DecodeBlock { header: announced } ==> announced == header
            &&& stage is DecodeBlock || stage is ListPeers || stage is Relay ==> exists|k: int|
                recorded_at(source, header, events, k)
            &&& stage is ListPeers || stage is Relay ==> exists|k: int|
                decoded_at(source, header, events, k)
        }),
    decreases events.len(),
{
    if events.len() > 0 {
        let before = events.drop_last();
        let last = before.len() as int;
        lemma_reported_so_far(source, header, before);
        assert(events.take(last) =~= before);
        let stage = run(received(source, Message::UnconfirmedBlock(header)), before).stage;
        if stage is DecodeBlock || stage is ListPeers || stage is Relay {
            let k = choose|k: int| recorded_at(source, header, before, k);
            assert(before.take(k) =~= events.take(k));
            assert(recorded_at(source, header, events, k));
        }
        if stage is ListPeers || stage is Relay {
            let k = choose|k: int| decoded_at(source, header, before, k);
            assert(before.take(k) =~= events.take(k));
            assert(decoded_at(source, header, events, k));
        }
        if stage is RecordBlock && events.last() == Event::<Seq<PeerAddr>>::Recorded(true) {
            assert(recorded_at(source, header, events, last));
        }
        if stage is DecodeBlock && events.last() == Event::<Seq<PeerAddr>>::Decoded(Some(header)) {
            assert(decoded_at(source, header, events, last));
        }
    }
}

/// A block is sent on only if it was not seen before and is the one that was announced.
pub proof fn law_relayed_block_is_new_and_as_announced(
    source: PeerAddr,
    header: BlockHeader,
    events: Seq<Event<Seq<PeerAddr>>>,
)
    requires
        run(received(source, Message::UnconfirmedBlock(header)), events).action() is Relay,
    ensures
        exists|k: int| recorded_at(source, header, events, k),
        exists|k: int| decoded_at(source, header, events, k),
{
    lemma_reported_so_far(source, header, events);
}

/// So many reports that the pending action was carried out.
pub open spec fn dones(n: nat) -> Seq<Event<Seq<PeerAddr>>> {
    Seq::new(n, |i: int| Event::Done)
}

/// Every connected peer but the source gets the block, in order.
pub proof fn law_all_others_get_the_block(inbound: InboundView, peers: Seq<PeerAddr>, n: nat)
    requires
        inbound.stage is ListPeers,
        n <= others(peers, inbound.source).len(),
    ensures
        ({
            let targets = others(peers, inbound.source);
            let sent = run(inbound.next(Event::Addrs(peers)), dones(n));
            &&& n < targets.len() ==> sent.action() == Action::Relay(targets[n as int])
            &&& sent.stage == relay(targets.skip(n as int))
            &&& n == targets.len() ==> sent.action() == Action::Stop && sent.rejection() is None
        }),
    decreases n,
{
    let targets = others(peers, inbound.source);
    if n == 0 {
        assert(targets.skip(0) =~= targets);
    } else {
        law_all_others_get_the_block(inbound, peers, (n - 1) as nat);
        assert(dones(n).drop_last() =~= dones((n - 1) as nat));
        assert(targets.skip(n - 1).drop_first() =~= targets.skip(n as int));
    }
}

/// A peer that is rejected is forgotten and disconnected. In between, the address that it listens
/// on is restricted, exactly if the peer was known.
pub proof fn law_rejected_peer_is_disconnected(inbound: InboundView, known: Option<PeerAddr>)
    requires
        inbound.stage is ForgetPeer,
    ensures
        inbound.action() == Action::ForgetPeer(inbound.source),
        ({
            let forgotten = inbound.next(Event::Removed(known));
            let restricted = if known is Some {
                forgotten.next(Event::Done)
            } else {
                forgotten
            };
            &&& known matches Some(addr) ==> forgotten.action() == Action::Restrict(addr)
            &&& restricted.action() == Action::Disconnect(inbound.source)
            &&& restricted.next(Event::Done).action() == Action::Stop
            &&& restricted.next(Event::Done).rejection() == inbound.rejection()
        }),
{
}

/// Only blocks are recorded, decoded and sent on. A peer is rejected for what it sent only: for a
/// message that no beacon should be sent, or for a block that cannot be decoded or is not the
/// announced one.
pub proof fn law_rejection_fits_message(
    source: PeerAddr,
    message: Message,
    events: Seq<Event<Seq<PeerAddr>>>,
)
    ensures
        ({
            let stage = run(received(source, message), events).stage;
            stage is RecordBlock || stage is DecodeBlock || stage is ListPeers || stage is Relay
        }) ==> message is UnconfirmedBlock,
        run(received(source, message), events).rejection() matches Some(rejection) ==> {
            if rejection == Rejection::NotHandled {
                first_stage(message) is ForgetPeer
            } else {
                message is UnconfirmedBlock
            }
        },
    decreases events.len(),
{
    if events.len() > 0 {
        law_rejection_fits_message(source, message, events.drop_last());
    }
}

/// How far the processing is from its end: the phase that it is in, and what is left to do there.
pub open spec fn distance(inbound: InboundView) -> (nat, nat) {
    match inbound.stage {
        Stage::RecordBlock { header } => (7, 0),
        Stage::DecodeBlock { header } => (6, 0),
        Stage::ListPeers => (5, 0),
        Stage::Relay { queue } => (4, queue.len()),
        Stage::ForgetPeer { rejection } => (3, 0),
        Stage::RestrictPeer { addr, rejection } => (2, 0),
        Stage::DropPeer { rejection } => (1, 0),
        Stage::Finished { rejected } => (0, 0),
        Stage::Unsupported => (0, 0),
    }
}

/// Every answer to the pending action brings the processing closer to its end. Anything else
/// leaves it where it is.
pub proof fn law_answers_make_progress(inbound: InboundView, event: Event<Seq<PeerAddr>>)
    requires
        inbound.wf(),
    ensures
        inbound.fits(event) ==> {
            let from = distance(inbound);
            let to = distance(inbound.next(event));
            to.0 < from.0 || (to.0 == from.0 && to.1 < from.1)
        },
        !inbound.fits(event) ==> inbound.next(event) == inbound,
{
}

/// A block is recorded by its own hash before anything else happens to it, and decoded next if it
/// was not recorded before.
pub proof fn law_block_is_recorded_first(source: PeerAddr, header: BlockHeader)
    ensures
        ({
            let announced = received(source, Message::UnconfirmedBlock(header));
            &&& announced.source == source
            &&& announced.action() == Action::RecordBlock(header.hash)
            &&& announced.next(Event::Recorded(true)).action() == Action::DecodeBlock
            &&& announced.next(Event::Recorded(false)).action() == Action::Stop
            &&& announced.next(Event::Recorded(false)).rejection() is None
        }),
{
}

/// Every block that is the one announced is accepted: its source is not rejected, and the peers to
/// send it on to are listed.
pub proof fn law_announced_block_is_accepted(source: PeerAddr, header: BlockHeader)
    ensures
        ({
            let decoded = received(source, Message::UnconfirmedBlock(header)).next(
                Event::Recorded(true),
            ).next(Event::Decoded(Some(header)));
            &&& decoded.action() == Action::ListPeers
            &&& decoded.rejection() is None
            &&& decoded.source == source
        }),
{
}

/// Every block that differs from the one announced, in height or in hash, gets its source
/// rejected for it. So does every block that cannot be decoded.
pub proof fn law_other_block_is_rejected(
    source: PeerAddr,
    header: BlockHeader,
    other: BlockHeader,
)
    requires
        other.height != header.height || other.hash != header.hash,
    ensures
        ({
            let recorded = received(source, Message::UnconfirmedBlock(header)).next(
                Event::Recorded(true),
            );
            let mismatched = recorded.next(Event::Decoded(Some(other)));
            let undecodable = recorded.next(Event::Decoded(None));
            &&& mismatched.action() == Action::ForgetPeer(source)
            &&& mismatched.rejection() == Some(Rejection::HeaderMismatch)
            &&& undecodable.action() == Action::ForgetPeer(source)
            &&& undecodable.rejection() == Some(Rejection::Undecodable)
        }),
{
}

/// Whether two headers are taken for the same depends on nothing but their being the same: it does
/// not matter which one was announced, nor who announced it.
pub proof fn law_headers_are_compared_evenly(
    source: PeerAddr,
    other_source: PeerAddr,
    a: BlockHeader,
    b: BlockHeader,
)
    ensures
        header_verdict(a, Some(b)) == header_verdict(b, Some(a)),
        header_verdict(a, Some(b)) is Ok <==> a == b,
        received(source, Message::UnconfirmedBlock(a)).stage == received(
            other_source,
            Message::UnconfirmedBlock(a),
        ).stage,
{
}

/// Every message that no beacon should be sent gets its source rejected for it.
pub proof fn law_violation_is_rejected(source: PeerAddr, message: Message)
    requires
        ({
            ||| message is BlockRequest
            ||| message is BlockResponse
            ||| message is ChallengeRequest
            ||| message is ChallengeResponse
            ||| message is PuzzleRequest
            ||| message is PuzzleResponse
        }),
    ensures
        received(source, message).action() == Action::ForgetPeer(source),
        received(source, message).rejection() == Some(Rejection::NotHandled),
{
}

/// While a peer is rejected, the reason stays the same.
pub proof fn law_reason_stays(inbound: InboundView, event: Event<Seq<PeerAddr>>)
    requires
        inbound.rejection() is Some,
    ensures
        inbound.next(event).rejection() == inbound.rejection(),
        inbound.next(event).source == inbound.source,
{
}

/// An event that is no answer to the pending action changes nothing.
pub proof fn law_other_answers_are_ignored(inbound: InboundView, event: Event<Seq<PeerAddr>>)
    requires
        ({
            let action = inbound.action();
            ||| action is Stop
            ||| action is Unsupported
            ||| event is Recorded && !(action is RecordBlock)
            ||| event is Decoded && !(action is DecodeBlock)
            ||| event is Addrs && !(action is ListPeers)
            ||| event is Removed && !(action is ForgetPeer)
            ||| event is Done && !(action is Relay || action is Restrict || action is Disconnect)
        }),
    ensures
        inbound.next(event) == inbound,
{
}

/// Reports are taken at their word.
pub proof fn law_reports_are_taken_at_their_word(
    new: bool,
    header: Option<BlockHeader>,
    addrs: Vec<PeerAddr>,
    addr: Option<PeerAddr>,
)
    ensures
        Event::<Vec<PeerAddr>>::Recorded(new)@ == Event::<Seq<PeerAddr>>::Recorded(new),
        Event::<Vec<PeerAddr>>::Decoded(header)@ == Event::<Seq<PeerAddr>>::Decoded(header),
        Event::<Vec<PeerAddr>>::Addrs(addrs)@ == Event::<Seq<PeerAddr>>::Addrs(addrs@),
        Event::<Vec<PeerAddr>>::Removed(addr)@ == Event::<Seq<PeerAddr>>::Removed(addr),
        Event::<Vec<PeerAddr>>::Done@ == Event::<Seq<PeerAddr>>::Done,
{
}

} // verus!
