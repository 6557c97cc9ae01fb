//! What holds of every heartbeat, whatever the network answers.

use crate::beacon::heartbeat::{
    check_trusted, drop_beacons, drop_peers, lemma_next_keeps_wf, started, try_candidates, Action,
    Event, HeartbeatView, Stage, MAXIMUM_NUMBER_OF_BEACONS, MAXIMUM_NUMBER_OF_PEERS,
    MINIMUM_NUMBER_OF_PEERS, NUMBER_OF_PEERS_TO_ASK,
};
use crate::beacon::peer::{excess, untrusted, PeerAddr};
use crate::beacon::sampling::drawn_from;
use vstd::multiset::Multiset;
use vstd::prelude::*;

verus! {

/// An event together with what is drawn when it comes in.
pub struct Input {
    pub event: Event<Seq<PeerAddr>>,
    pub sample: Seq<PeerAddr>,
}

/// The heartbeat after the given inputs, one after the other.
pub open spec fn run(start: HeartbeatView, inputs: Seq<Input>) -> HeartbeatView
    decreases inputs.len(),
{
    if inputs.len() == 0 {
        start
    } else {
        run(start, inputs.drop_last()).next(inputs.last().event, inputs.last().sample)
    }
}

/// A heartbeat stays well-formed and keeps its list of trusted peers.
pub proof fn law_run_keeps_wf(trusted: Seq<PeerAddr>, inputs: Seq<Input>)
    ensures
        run(started(trusted), inputs).wf(),
        run(started(trusted), inputs).trusted == trusted,
    decreases inputs.len(),
{
    if inputs.len() > 0 {
        law_run_keeps_wf(trusted, inputs.drop_last());
        lemma_next_keeps_wf(
            run(started(trusted), inputs.drop_last()),
            inputs.last().event,
            inputs.last().sample,
        );
    }
}

/// While peers in excess are dropped, no trusted peer is disconnected.
pub proof fn law_trusted_peers_are_not_in_excess(trusted: Seq<PeerAddr>, inputs: Seq<Input>)
    requires
        run(started(trusted), inputs).stage is DropPeers,
    ensures
        run(started(trusted), inputs).action() matches Action::Disconnect(addr)
            && !trusted.contains(addr),
{
    law_run_keeps_wf(trusted, inputs);
}

/// With no more than the maximum number of peers, none is dropped for being in excess.
pub proof fn law_no_excess_no_drop(heartbeat: HeartbeatView, count: usize, sample: Seq<PeerAddr>)
    requires
        heartbeat.stage is CountPeers,
        count <= MAXIMUM_NUMBER_OF_PEERS,
    ensures
        heartbeat.next(Event::Count(count), sample).stage is ListBeacons,
{
}

/// With more than the maximum number of peers, of which enough are not trusted, dropping those
/// in excess leaves exactly the maximum.
pub proof fn law_dropping_leaves_the_maximum(
    heartbeat: HeartbeatView,
    peers: Seq<PeerAddr>,
    count_sample: Seq<PeerAddr>,
    list_sample: Seq<PeerAddr>,
)
    requires
        heartbeat.stage is CountPeers,
        MAXIMUM_NUMBER_OF_PEERS < peers.len() <= usize::MAX,
        untrusted(peers, heartbeat.trusted).len() >= peers.len() - MAXIMUM_NUMBER_OF_PEERS,
    ensures
        heartbeat.next(Event::Count(peers.len() as usize), count_sample).next(
            Event::Addrs(peers),
            list_sample,
        ).stage matches Stage::DropPeers { queue } && {
            &&& peers.len() - queue.len() == MAXIMUM_NUMBER_OF_PEERS
            &&& queue == untrusted(peers, heartbeat.trusted).take(queue.len() as int)
        },
{
}

/// Of any number of beacons, all but one get drawn when only one is to stay.
proof fn lemma_one_is_not_drawn(beacons: Seq<PeerAddr>, sample: Seq<PeerAddr>) -> (stays: int)
    requires
        beacons.len() > 0,
        beacons.no_duplicates(),
        drawn_from(beacons, excess(beacons.len(), MAXIMUM_NUMBER_OF_BEACONS as nat), sample),
    ensures
        0 <= stays < beacons.len(),
        !sample.contains(beacons[stays]),
        forall|i: int|
            0 <= i < beacons.len() && i != stays ==> sample.contains(#[trigger] beacons[i]),
        forall|i: int| 0 <= i < sample.len() ==> beacons.contains(#[trigger] sample[i]),
{
    broadcast use vstd::multiset::group_multiset_axioms;
    broadcast use vstd::seq_lib::group_to_multiset_ensures;

    let all = beacons.to_multiset();
    let gone = sample.to_multiset();
    let left = all.sub(gone);
    beacons.lemma_multiset_has_no_duplicates();
    assert(left.len() == 1);
    let beacon = left.choose();
    assert(left.count(beacon) > 0);
    assert(all.count(beacon) == 1);
    let stays = choose|i: int| 0 <= i < beacons.len() && beacons[i] == beacon;
    assert(beacons.contains(beacon));
    assert forall|i: int| 0 <= i < beacons.len() && i != stays implies sample.contains(
        #[trigger] beacons[i],
    ) by {
        let other = beacons[i];
        assert(beacons.contains(other));
        if left.count(other) > 0 {
            let pair = Multiset::singleton(beacon).add(Multiset::singleton(other));
            assert(pair.subset_of(left));
            assert(left.sub(pair).len() == left.len() - 2);
        }
    }
    assert forall|i: int| 0 <= i < sample.len() implies beacons.contains(#[trigger] sample[i]) by {
        assert(sample.contains(sample[i]));
        assert(gone.count(sample[i]) > 0);
        assert(all.count(sample[i]) > 0);
    }
    stays
}

/// So many reports that the pending action was carried out.
pub open spec fn dones(n: nat) -> Seq<Input> {
    Seq::new(n, |i: int| Input { event: Event::Done, sample: Seq::empty() })
}

/// Every peer in the queue of those to drop gets disconnected, in order, and then the beacons
/// have their turn.
pub proof fn law_queued_peers_are_dropped(heartbeat: HeartbeatView, n: nat)
    requires
        heartbeat.wf(),
        heartbeat.stage matches Stage::DropPeers { queue } && n <= queue.len(),
    ensures
        heartbeat.stage matches Stage::DropPeers { queue } && {
            &&& n < queue.len() ==> run(heartbeat, dones(n)).action() == Action::Disconnect(
                queue[n as int],
            )
            &&& run(heartbeat, dones(n)).stage == drop_peers(queue.skip(n as int))
            &&& n == queue.len() ==> run(heartbeat, dones(n)).action() == Action::ListBeacons
        },
    decreases n,
{
    if let Stage::DropPeers { queue } = heartbeat.stage {
        if n == 0 {
            assert(queue.skip(0) =~= queue);
        } else {
            law_queued_peers_are_dropped(heartbeat, (n - 1) as nat);
            assert(dones(n).drop_last() =~= dones((n - 1) as nat));
            assert(queue.skip(n - 1).drop_first() =~= queue.skip(n as int));
        }
    }
}

/// Every beacon in the queue of those to drop gets disconnected, in order, and then the trusted
/// peers have their turn.
pub proof fn law_queued_beacons_are_dropped(heartbeat: HeartbeatView, n: nat)
    requires
        heartbeat.wf(),
        heartbeat.stage matches Stage::DropBeacons { queue } && n <= queue.len(),
    ensures
        heartbeat.stage matches Stage::DropBeacons { queue } && {
            &&& n < queue.len() ==> run(heartbeat, dones(n)).action() == Action::Disconnect(
                queue[n as int],
            )
            &&& run(heartbeat, dones(n)).stage == drop_beacons(
                heartbeat.trusted,
                queue.skip(n as int),
            )
            &&& run(heartbeat, dones(n)).trusted == heartbeat.trusted
            &&& n == queue.len() && heartbeat.trusted.len() > 0 ==> run(
                heartbeat,
                dones(n),
            ).action() == Action::CheckConnected(heartbeat.trusted[0])
            &&& n == queue.len() && heartbeat.trusted.len() == 0 ==> run(
                heartbeat,
                dones(n),
            ).stage is Recount
        },
    decreases n,
{
    if let Stage::DropBeacons { queue } = heartbeat.stage {
        if n == 0 {
            assert(queue.skip(0) =~= queue);
        } else {
            law_queued_beacons_are_dropped(heartbeat, (n - 1) as nat);
            assert(dones(n).drop_last() =~= dones((n - 1) as nat));
            assert(queue.skip(n - 1).drop_first() =~= queue.skip(n as int));
        }
    }
}

/// Of any number of connected beacons, one stays connected. All others get disconnected before
/// the trusted peers have their turn, and nobody else does.
pub proof fn law_one_beacon_stays(
    heartbeat: HeartbeatView,
    beacons: Seq<PeerAddr>,
    sample: Seq<PeerAddr>,
) -> (stays: int)
    requires
        heartbeat.stage is ListBeacons,
        heartbeat.may_draw(Event::Addrs(beacons), sample),
        beacons.len() > 0,
        beacons.no_duplicates(),
    ensures
        0 <= stays < beacons.len(),
        ({
            let listed = heartbeat.next(Event::Addrs(beacons), sample);
            let after = |n: nat| run(listed, dones(n));
            &&& forall|n: nat|
                n < sample.len() ==> ((#[trigger] after(n)).action() matches Action::Disconnect(addr)
                    && addr != beacons[stays] && beacons.contains(addr))
            &&& forall|i: int|
                0 <= i < beacons.len() && i != stays ==> exists|n: nat|
                    n < sample.len() && (#[trigger] after(n)).action() == Action::Disconnect(
                        #[trigger] beacons[i],
                    )
            &&& after(sample.len()).stage == check_trusted(heartbeat.trusted, 0)
        }),
{
    let stays = lemma_one_is_not_drawn(beacons, sample);
    let listed = heartbeat.next(Event::Addrs(beacons), sample);
    let after = |n: nat| run(listed, dones(n));
    if sample.len() == 0 {
        assert(dones(0).len() == 0);
    } else {
        assert forall|n: nat| n < sample.len() implies (#[trigger] after(n)).action()
            == Action::Disconnect(sample[n as int]) by {
            law_queued_beacons_are_dropped(listed, n);
        }
        assert forall|n: nat| n < sample.len() implies ((#[trigger] after(n)).action() matches
            Action::Disconnect(addr) && addr != beacons[stays] && beacons.contains(addr)) by {
            assert(sample.contains(sample[n as int]));
        }
        law_queued_beacons_are_dropped(listed, sample.len());
    }
    assert forall|i: int| 0 <= i < beacons.len() && i != stays implies exists|n: nat|
        n < sample.len() && (#[trigger] after(n)).action() == Action::Disconnect(
            #[trigger] beacons[i],
        ) by {
        let k = choose|k: int| 0 <= k < sample.len() && sample[k] == beacons[i];
        assert(sample.contains(beacons[i]));
        assert(after(k as nat).action() == Action::Disconnect(beacons[i]));
    }
    stays
}

/// How many trusted peers were checked, from the first one on.
spec fn num_checked(heartbeat: HeartbeatView) -> int {
    match heartbeat.stage {
        Stage::CountPeers
        | Stage::ListPeers { .. }
        | Stage::DropPeers { .. }
        | Stage::ListBeacons
        | Stage::DropBeacons { .. } => 0,
        Stage::CheckTrusted { next } => next as int,
        Stage::JoinTrusted { next } => next + 1,
        _ => heartbeat.trusted.len() as int,
    }
}

/// Whether input `k` answers if trusted peer number `i` is connected, and leads to a connection
/// attempt if it is not.
pub open spec fn checks_trusted(
    trusted: Seq<PeerAddr>,
    inputs: Seq<Input>,
    i: int,
    k: int,
) -> bool {
    &&& 0 <= k < inputs.len()
    &&& run(started(trusted), inputs.take(k)).action() == Action::CheckConnected(trusted[i])
    &&& inputs[k].event is Connected
    &&& inputs[k].event == Event::<Seq<PeerAddr>>::Connected(false) ==> run(
        started(trusted),
        inputs.take(k + 1),
    ).action() == Action::Connect(trusted[i])
}

proof fn lemma_checked_so_far(trusted: Seq<PeerAddr>, inputs: Seq<Input>, i: int) -> (k: int)
    requires
        trusted.len() <= usize::MAX,
        0 <= i < num_checked(run(started(trusted), inputs)),
    ensures
        checks_trusted(trusted, inputs, i, k),
    decreases inputs.len(),
{
    let before = inputs.drop_last();
    law_run_keeps_wf(trusted, before);
    let last = before.len() as int;
    assert(inputs.take(last) =~= before);
    assert(inputs.take(last + 1) =~= inputs);
    if i < num_checked(run(started(trusted), before)) {
        let k = lemma_checked_so_far(trusted, before, i);
        assert(before.take(k) =~= inputs.take(k));
        assert(before.take(k + 1) =~= inputs.take(k + 1));
        k
    } else {
        last
    }
}

/// A heartbeat that comes to its end has looked up every trusted peer, and has tried to connect
/// to each that was not connected.
pub proof fn law_trusted_peers_are_joined(trusted: Seq<PeerAddr>, inputs: Seq<Input>, i: int)
    requires
        trusted.len() <= usize::MAX,
        run(started(trusted), inputs).stage is Finished,
        0 <= i < trusted.len(),
    ensures
        exists|k: int| checks_trusted(trusted, inputs, i, k),
{
    law_run_keeps_wf(trusted, inputs);
    let k = lemma_checked_so_far(trusted, inputs, i);
}

/// A candidate that was tried is removed from the candidates, and then restricted exactly if the
/// connection failed.
pub proof fn law_candidate_is_settled(
    heartbeat: HeartbeatView,
    connected: bool,
    samples: Seq<Seq<PeerAddr>>,
)
    requires
        heartbeat.stage is TryCandidate,
    ensures
        ({
            let tried = heartbeat.next(Event::Attempted(connected), samples[0]);
            let forgotten = tried.next(Event::Done, samples[1]);
            let restricted = forgotten.next(Event::Done, samples[2]);
            heartbeat.stage matches Stage::TryCandidate { queue, num_connected } && {
                &&& heartbeat.action() == Action::Connect(queue[0])
                &&& tried.action() == Action::ForgetCandidate(queue[0])
                &&& connected ==> forgotten.stage == try_candidates(
                    queue.drop_first(),
                    num_connected,
                )
                &&& !connected ==> forgotten.action() == Action::Restrict(queue[0])
                &&& !connected ==> restricted.stage == try_candidates(
                    queue.drop_first(),
                    num_connected,
                )
            }
        }),
{
}

/// Candidates are tried only while no peer is connected, and at most one of them. So there never
/// is a peer to ask for more addresses.
pub proof fn law_peers_are_never_asked(trusted: Seq<PeerAddr>, inputs: Seq<Input>)
    ensures
        ({
            let heartbeat = run(started(trusted), inputs);
            &&& !(heartbeat.action() is RequestPeers)
            &&& !(heartbeat.stage is ListPeersToAsk)
            &&& heartbeat.stage matches Stage::TryCandidate { queue, num_connected }
                ==> num_connected == 0 && queue.len() == 1
        }),
    decreases inputs.len(),
{
    law_run_keeps_wf(trusted, inputs);
    if inputs.len() > 0 {
        law_run_keeps_wf(trusted, inputs.drop_last());
        law_peers_are_never_asked(trusted, inputs.drop_last());
    }
}

/// How far a heartbeat is from its end: the phase that it is in, and what is left to do there.
pub open spec fn distance(heartbeat: HeartbeatView) -> (nat, nat) {
    match heartbeat.stage {
        Stage::CountPeers => (11, 0),
        Stage::ListPeers { excess } => (10, 0),
        Stage::DropPeers { queue } => (9, queue.len()),
        Stage::ListBeacons => (8, 0),
        Stage::DropBeacons { queue } => (7, queue.len()),
        Stage::CheckTrusted { next } => (6, (2 * (heartbeat.trusted.len() - next) + 1) as nat),
        Stage::JoinTrusted { next } => (6, (2 * (heartbeat.trusted.len() - next)) as nat),
        Stage::Recount => (5, 0),
        Stage::ListCandidates { num_connected } => (4, 0),
        Stage::TryCandidate { queue, num_connected } => (3, 3 * queue.len() + 2),
        Stage::ForgetCandidate { queue, num_connected, connected } => (3, 3 * queue.len() + 1),
        Stage::RestrictCandidate { queue, num_connected } => (3, 3 * queue.len()),
        Stage::ListPeersToAsk => (2, 0),
        Stage::AskPeers { queue } => (1, queue.len()),
        Stage::Finished => (0, 0),
    }
}

/// Every answer to the pending action brings the heartbeat closer to its end: to a later phase,
/// or further in the same one. Anything else leaves it where it is.
pub proof fn law_answers_make_progress(
    heartbeat: HeartbeatView,
    event: Event<Seq<PeerAddr>>,
    sample: Seq<PeerAddr>,
)
    requires
        heartbeat.wf(),
        heartbeat.trusted.len() <= usize::MAX,
    ensures
        heartbeat.fits(event) ==> {
            let from = distance(heartbeat);
            let to = distance(heartbeat.next(event, sample));
            to.0 < from.0 || (to.0 == from.0 && to.1 < from.1)
        },
        !heartbeat.fits(event) ==> heartbeat.next(event, sample) == heartbeat,
{
}

/// A heartbeat is over exactly when it has nothing left to do.
pub proof fn law_stop_is_final(heartbeat: HeartbeatView)
    ensures
        heartbeat.action() is Stop <==> heartbeat.stage is Finished,
        heartbeat.action() is Stop <==> distance(heartbeat) == (0nat, 0nat),
{
}

/// A heartbeat begins by counting the peers.
pub proof fn law_counting_comes_first(trusted: Seq<PeerAddr>)
    ensures
        started(trusted).action() == Action::CountPeers,
        started(trusted).stage is CountPeers,
        started(trusted).trusted == trusted,
{
}

/// Whatever comes in, the list of trusted peers stays.
pub proof fn law_trusted_peers_stay(
    heartbeat: HeartbeatView,
    event: Event<Seq<PeerAddr>>,
    sample: Seq<PeerAddr>,
)
    ensures
        heartbeat.next(event, sample).trusted == heartbeat.trusted,
{
}

/// A draw matters only when beacons or peers to ask were listed.
pub proof fn law_draw_matters_after_lists_only(
    heartbeat: HeartbeatView,
    event: Event<Seq<PeerAddr>>,
    sample: Seq<PeerAddr>,
    other: Seq<PeerAddr>,
)
    requires
        !(event is Addrs) || !(heartbeat.stage is ListBeacons || heartbeat.stage
            is ListPeersToAsk),
    ensures
        heartbeat.next(event, sample) == heartbeat.next(event, other),
        heartbeat.may_draw(event, sample) <==> sample.len() == 0,
{
}

/// An event that is no answer to the pending action changes nothing.
pub proof fn law_other_answers_are_ignored(
    heartbeat: HeartbeatView,
    event: Event<Seq<PeerAddr>>,
    sample: Seq<PeerAddr>,
)
    requires
        ({
            let action = heartbeat.action();
            ||| action is Stop
            ||| event is Count && !(action is CountPeers)
            ||| event is Addrs && !(action is ListPeers || action is ListBeacons || action
                is ListCandidates)
            ||| event is Connected && !(action is CheckConnected)
            ||| event is Attempted && !(action is Connect)
            ||| event is Done && !(action is Disconnect || action is ForgetCandidate || action
                is Restrict || action is RequestPeers)
        }),
    ensures
        heartbeat.next(event, sample) == heartbeat,
{
}

/// Peers are listed to be dropped exactly if there are more than the maximum; otherwise the
/// beacons have their turn.
pub proof fn law_excess_calls_for_the_list_of_peers(
    heartbeat: HeartbeatView,
    count: usize,
    sample: Seq<PeerAddr>,
)
    requires
        heartbeat.stage is CountPeers,
    ensures
        ({
            let counted = heartbeat.next(Event::Count(count), sample);
            if count > MAXIMUM_NUMBER_OF_PEERS {
                &&& counted.stage is ListPeers
                &&& counted.action() == Action::ListPeers
            } else {
                counted.action() == Action::ListBeacons
            }
        }),
{
}

/// Of the peers listed, the first untrusted ones are dropped, one after the other: as many as were
/// counted above the maximum, or all of them if there are fewer.
pub proof fn law_first_untrusted_peers_are_dropped(
    heartbeat: HeartbeatView,
    count: usize,
    peers: Seq<PeerAddr>,
    count_sample: Seq<PeerAddr>,
    list_sample: Seq<PeerAddr>,
)
    requires
        heartbeat.stage is CountPeers,
        count > MAXIMUM_NUMBER_OF_PEERS,
    ensures
        ({
            let candidates = untrusted(peers, heartbeat.trusted);
            let listed = heartbeat.next(Event::Count(count), count_sample).next(
                Event::Addrs(peers),
                list_sample,
            );
            if candidates.len() == 0 {
                listed.action() == Action::ListBeacons
            } else {
                &&& listed.action() == Action::Disconnect(candidates[0])
                &&& listed.stage matches Stage::DropPeers { queue } && {
                    &&& queue.is_prefix_of(candidates)
                    &&& queue.len() <= count - MAXIMUM_NUMBER_OF_PEERS
                    &&& queue.len() == count - MAXIMUM_NUMBER_OF_PEERS || queue == candidates
                }
            }
        }),
{
    let candidates = untrusted(peers, heartbeat.trusted);
    if candidates.len() <= count - MAXIMUM_NUMBER_OF_PEERS {
        assert(candidates.take(candidates.len() as int) =~= candidates);
    }
}

/// All beacons but one are drawn, none more often than it is connected.
pub proof fn law_all_beacons_but_one_are_drawn(
    heartbeat: HeartbeatView,
    beacons: Seq<PeerAddr>,
    sample: Seq<PeerAddr>,
)
    requires
        heartbeat.stage is ListBeacons,
        heartbeat.may_draw(Event::Addrs(beacons), sample),
    ensures
        beacons.len() > 0 ==> sample.len() + 1 == beacons.len(),
        beacons.len() == 0 ==> sample.len() == 0,
        sample.to_multiset().subset_of(beacons.to_multiset()),
{
}

/// The beacons that are drawn are those to drop, in the order drawn. If none is, the trusted peers
/// have their turn.
pub proof fn law_drawn_beacons_are_dropped(
    heartbeat: HeartbeatView,
    beacons: Seq<PeerAddr>,
    sample: Seq<PeerAddr>,
)
    requires
        heartbeat.stage is ListBeacons,
    ensures
        ({
            let listed = heartbeat.next(Event::Addrs(beacons), sample);
            if sample.len() > 0 {
                listed.stage == (Stage::DropBeacons { queue: sample })
            } else if heartbeat.trusted.len() > 0 {
                listed.stage == (Stage::<Seq<PeerAddr>>::CheckTrusted { next: 0 })
            } else {
                listed.stage is Recount
            }
        }),
{
}

/// Each trusted peer has its turn: it is looked up and, if it is not connected, connected to.
/// However that ends, the next one has its turn, and after the last one the peers are counted
/// again.
pub proof fn law_each_trusted_peer_has_its_turn(
    heartbeat: HeartbeatView,
    next: usize,
    succeeded: bool,
    samples: Seq<Seq<PeerAddr>>,
)
    requires
        heartbeat.stage == (Stage::<Seq<PeerAddr>>::CheckTrusted { next }),
        next < heartbeat.trusted.len() <= usize::MAX,
    ensures
        ({
            let trusted = heartbeat.trusted;
            let present = heartbeat.next(Event::Connected(true), samples[0]);
            let absent = heartbeat.next(Event::Connected(false), samples[0]);
            let attempted = absent.next(Event::Attempted(succeeded), samples[1]);
            &&& heartbeat.action() == Action::CheckConnected(trusted[next as int])
            &&& absent.action() == Action::Connect(trusted[next as int])
            &&& attempted == present
            &&& if next + 1 < trusted.len() {
                &&& present.stage == (Stage::<Seq<PeerAddr>>::CheckTrusted {
                    next: (next + 1) as usize,
                })
                &&& present.action() == Action::CheckConnected(trusted[next + 1])
            } else {
                &&& present.stage is Recount
                &&& present.action() == Action::CountPeers
            }
        }),
{
}

/// Whatever the trusted peers are, candidates are tried exactly if peers are missing: the first
/// ones listed, as many as are missing, or all of them if there are fewer.
pub proof fn law_missing_peers_call_for_candidates(
    heartbeat: HeartbeatView,
    count: usize,
    candidates: Seq<PeerAddr>,
    count_sample: Seq<PeerAddr>,
    list_sample: Seq<PeerAddr>,
)
    requires
        heartbeat.stage is Recount,
    ensures
        ({
            let counted = heartbeat.next(Event::Count(count), count_sample);
            let listed = counted.next(Event::Addrs(candidates), list_sample);
            if count >= MINIMUM_NUMBER_OF_PEERS {
                counted.action() == Action::Stop
            } else {
                &&& counted.action() == Action::ListCandidates
                &&& candidates.len() > 0 ==> listed.action() == Action::Connect(candidates[0])
                &&& candidates.len() > 0 ==> (listed.stage matches Stage::TryCandidate {
                    queue,
                    num_connected,
                } && {
                    &&& num_connected == count
                    &&& queue.is_prefix_of(candidates)
                    &&& queue.len() <= MINIMUM_NUMBER_OF_PEERS - count
                    &&& queue.len() == MINIMUM_NUMBER_OF_PEERS - count || queue == candidates
                })
                &&& candidates.len() == 0 && count == 0 ==> listed.action() == Action::Stop
                &&& candidates.len() == 0 && count > 0 ==> listed.action() == Action::ListPeers
            }
        }),
{
    if count < MINIMUM_NUMBER_OF_PEERS && candidates.len() <= MINIMUM_NUMBER_OF_PEERS - count {
        assert(candidates.take(candidates.len() as int) =~= candidates);
    }
}

/// Once a candidate is settled, whether or not it connected, the next one is tried. After the last
/// one, peers that were connected before are listed to be asked for more; without any, the
/// heartbeat is over.
pub proof fn law_each_candidate_has_its_turn(
    heartbeat: HeartbeatView,
    connected: bool,
    samples: Seq<Seq<PeerAddr>>,
)
    requires
        heartbeat.stage matches Stage::TryCandidate { queue, num_connected } && queue.len() > 0,
    ensures
        ({
            let forgotten = heartbeat.next(Event::Attempted(connected), samples[0]).next(
                Event::Done,
                samples[1],
            );
            let settled = if connected {
                forgotten
            } else {
                forgotten.next(Event::Done, samples[2])
            };
            heartbeat.stage matches Stage::TryCandidate { queue, num_connected } && {
                &&& queue.len() > 1 ==> settled.stage == (Stage::TryCandidate {
                    queue: queue.skip(1),
                    num_connected,
                })
                &&& queue.len() > 1 ==> settled.action() == Action::Connect(queue[1])
                &&& queue.len() == 1 && num_connected == 0 ==> settled.action() == Action::Stop
                &&& queue.len() == 1 && num_connected > 0 ==> settled.stage is ListPeersToAsk
                    && settled.action() == Action::ListPeers
            }
        }),
{
    if let Stage::TryCandidate { queue, num_connected } = heartbeat.stage {
        assert(queue.drop_first() =~= queue.skip(1));
    }
}

/// The peers that are drawn are asked for more, one after the other, and then the heartbeat is
/// over.
pub proof fn law_drawn_peers_are_asked(
    heartbeat: HeartbeatView,
    peers: Seq<PeerAddr>,
    sample: Seq<PeerAddr>,
    n: nat,
)
    requires
        heartbeat.stage is ListPeersToAsk,
        n <= sample.len(),
    ensures
        ({
            let asked = run(heartbeat.next(Event::Addrs(peers), sample), dones(n));
            if n < sample.len() {
                &&& asked.stage == (Stage::AskPeers { queue: sample.skip(n as int) })
                &&& asked.action() == Action::RequestPeers(sample[n as int])
            } else {
                &&& asked.stage is Finished
                &&& asked.action() == Action::Stop
            }
        }),
    decreases n,
{
    if n == 0 {
        assert(sample.skip(0) =~= sample);
    } else {
        law_drawn_peers_are_asked(heartbeat, peers, sample, (n - 1) as nat);
        assert(dones(n).drop_last() =~= dones((n - 1) as nat));
        assert(sample.skip(n - 1).drop_first() =~= sample.skip(n as int));
    }
}

/// So many peers are asked for more as are to be asked, or all if there are fewer, and only
/// connected ones.
pub proof fn law_connected_peers_are_asked(
    heartbeat: HeartbeatView,
    peers: Seq<PeerAddr>,
    sample: Seq<PeerAddr>,
)
    requires
        heartbeat.stage is ListPeersToAsk,
        heartbeat.may_draw(Event::Addrs(peers), sample),
    ensures
        peers.len() >= NUMBER_OF_PEERS_TO_ASK ==> sample.len() == NUMBER_OF_PEERS_TO_ASK,
        peers.len() < NUMBER_OF_PEERS_TO_ASK ==> sample.len() == peers.len(),
        sample.to_multiset().subset_of(peers.to_multiset()),
{
}

/// Reports are taken at their word.
pub proof fn law_reports_are_taken_at_their_word(
    count: usize,
    addrs: Vec<PeerAddr>,
    yes: bool,
)
    ensures
        Event::<Vec<PeerAddr>>::Count(count)@ == Event::<Seq<PeerAddr>>::Count(count),
        Event::<Vec<PeerAddr>>::Addrs(addrs)@ == Event::<Seq<PeerAddr>>::Addrs(addrs@),
        Event::<Vec<PeerAddr>>::Connected(yes)@ == Event::<Seq<PeerAddr>>::Connected(yes),
        Event::<Vec<PeerAddr>>::Attempted(yes)@ == Event::<Seq<PeerAddr>>::Attempted(yes),
        Event::<Vec<PeerAddr>>::Done@ == Event::<Seq<PeerAddr>>::Done,
{
}

} // verus!
