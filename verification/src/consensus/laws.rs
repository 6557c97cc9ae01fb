//! What holds of a validator over any sequence of requests.

use crate::consensus::certificate::{
    Block, BlockHash, QuorumCertificate, QuorumCertificateView, Round, TimeoutCertificate,
    TimeoutCertificateView,
};
use crate::consensus::ledger::{pending_state, Ledger};
use crate::consensus::message::{TimeoutInfo, Vote};
use crate::consensus::safety::{
    commit_candidate, consecutive, max, safe_to_extend, vote_info_of, vote_request, Request, SafetyView,
};
use vstd::prelude::*;

verus! {

/// What a validator remembers after the given requests, one after the other.
pub open spec fn run(start: SafetyView, requests: Seq<Request>) -> SafetyView
    decreases requests.len(),
{
    if requests.len() == 0 {
        start
    } else {
        run(start, requests.drop_last()).after(requests.last())
    }
}

/// Whether request number `i` is granted.
pub open spec fn granted(start: SafetyView, requests: Seq<Request>, i: int) -> bool {
    &&& 0 <= i < requests.len()
    &&& run(start, requests.take(i)).grants(requests[i])
}

/// The round that a request is about.
pub open spec fn round_of(request: Request) -> int {
    match request {
        Request::Vote { block_round, qc_round, tc } => block_round,
        Request::Timeout { round, qc_round, tc } => round,
    }
}

/// The round of the certificate that comes with a request.
pub open spec fn qc_round_of(request: Request) -> int {
    match request {
        Request::Vote { block_round, qc_round, tc } => qc_round,
        Request::Timeout { round, qc_round, tc } => qc_round,
    }
}

/// The order of two raises of the highest vote round does not matter: the highest of the old
/// round and both new ones is remembered. Repeating a raise changes nothing.
pub proof fn law_raising_the_vote_round_commutes(safety: SafetyView, a: int, b: int)
    ensures
        safety.raise_vote_round(a).raise_vote_round(b) == safety.raise_vote_round(
            b,
        ).raise_vote_round(a),
        safety.raise_vote_round(a).raise_vote_round(b) == (SafetyView {
            highest_vote_round: max(safety.highest_vote_round, max(a, b)),
            ..safety
        }),
        safety.raise_vote_round(a).raise_vote_round(a) == safety.raise_vote_round(a),
{
}

/// The order of two raises of the highest certified round does not matter: the highest of the old
/// round and both new ones is remembered. Repeating a raise changes nothing.
pub proof fn law_raising_the_qc_round_commutes(safety: SafetyView, a: int, b: int)
    ensures
        safety.raise_qc_round(a).raise_qc_round(b) == safety.raise_qc_round(b).raise_qc_round(a),
        safety.raise_qc_round(a).raise_qc_round(b) == (SafetyView {
            highest_qc_round: max(safety.highest_qc_round, max(a, b)),
            ..safety
        }),
        safety.raise_qc_round(a).raise_qc_round(a) == safety.raise_qc_round(a),
{
}

/// Raising the highest vote round and raising the highest certified round do not interfere.
pub proof fn law_raises_do_not_interfere(safety: SafetyView, round: int, qc_round: int)
    ensures
        safety.raise_vote_round(round).raise_qc_round(qc_round) == safety.raise_qc_round(
            qc_round,
        ).raise_vote_round(round),
{
}

/// A raise remembers the higher of the old round and the new one, and touches nothing else.
pub proof fn law_raise_keeps_the_higher_round(safety: SafetyView, round: int)
    ensures
        ({
            let raised = safety.raise_vote_round(round);
            &&& raised.highest_vote_round >= round
            &&& raised.highest_vote_round >= safety.highest_vote_round
            &&& raised.highest_vote_round == round || raised == safety
            &&& raised.highest_qc_round == safety.highest_qc_round
            &&& raised.private_key == safety.private_key
            &&& raised.public_keys == safety.public_keys
        }),
        ({
            let raised = safety.raise_qc_round(round);
            &&& raised.highest_qc_round >= round
            &&& raised.highest_qc_round >= safety.highest_qc_round
            &&& raised.highest_qc_round == round || raised == safety
            &&& raised.highest_vote_round == safety.highest_vote_round
            &&& raised.private_key == safety.private_key
            &&& raised.public_keys == safety.public_keys
        }),
{
}

/// A refused request leaves no trace.
pub proof fn law_refusal_changes_nothing(safety: SafetyView, request: Request)
    requires
        !safety.grants(request),
    ensures
        safety.after(request) == safety,
{
}

/// No request lowers what is remembered, and none touches the keys.
pub proof fn law_memory_never_shrinks(safety: SafetyView, request: Request)
    ensures
        safety.after(request).highest_vote_round >= safety.highest_vote_round,
        safety.after(request).highest_qc_round >= safety.highest_qc_round,
        safety.after(request).private_key == safety.private_key,
        safety.after(request).public_keys == safety.public_keys,
{
}

/// From a well-formed start, the highest certified round stays at most the highest voted round.
pub proof fn law_run_keeps_wf(start: SafetyView, requests: Seq<Request>)
    requires
        start.wf(),
    ensures
        run(start, requests).wf(),
    decreases requests.len(),
{
    if requests.len() > 0 {
        law_run_keeps_wf(start, requests.drop_last());
    }
}

/// If nothing above the highest vote round is certified to begin with, nothing ever is.
pub proof fn law_certified_rounds_stay_below_voted_rounds(
    start: SafetyView,
    requests: Seq<Request>,
)
    requires
        0 <= start.highest_qc_round <= start.highest_vote_round,
    ensures
        0 <= run(start, requests).highest_qc_round <= run(start, requests).highest_vote_round,
    decreases requests.len(),
{
    if requests.len() > 0 {
        law_certified_rounds_stay_below_voted_rounds(start, requests.drop_last());
    }
}

/// What is remembered only grows over time.
pub proof fn law_run_never_shrinks(start: SafetyView, requests: Seq<Request>, i: int, j: int)
    requires
        0 <= i <= j <= requests.len(),
    ensures
        run(start, requests.take(i)).highest_vote_round <= run(
            start,
            requests.take(j),
        ).highest_vote_round,
        run(start, requests.take(i)).highest_qc_round <= run(
            start,
            requests.take(j),
        ).highest_qc_round,
    decreases j - i,
{
    if i < j {
        law_run_never_shrinks(start, requests, i, j - 1);
        assert(requests.take(j).drop_last() =~= requests.take(j - 1));
    }
}

/// What a granted request leaves in memory stays there.
proof fn lemma_granted_is_remembered(
    start: SafetyView,
    requests: Seq<Request>,
    i: int,
    j: int,
)
    requires
        granted(start, requests, i),
        i < j <= requests.len(),
    ensures
        run(start, requests.take(j)).highest_vote_round >= round_of(requests[i]),
        requests[i] is Vote ==> run(start, requests.take(j)).highest_qc_round >= qc_round_of(
            requests[i],
        ),
{
    assert(requests.take(i + 1).drop_last() =~= requests.take(i));
    law_run_never_shrinks(start, requests, i + 1, j);
}

/// Votes are in strictly increasing rounds; in particular there is at most one vote per round.
pub proof fn law_votes_in_increasing_rounds(
    start: SafetyView,
    requests: Seq<Request>,
    i: int,
    j: int,
)
    requires
        i < j,
        granted(start, requests, i),
        granted(start, requests, j),
        requests[i] is Vote,
        requests[j] is Vote,
    ensures
        round_of(requests[i]) < round_of(requests[j]),
{
    lemma_granted_is_remembered(start, requests, i, j);
}

/// After giving up on a round, the validator votes in higher rounds only.
pub proof fn law_no_vote_in_abandoned_round(
    start: SafetyView,
    requests: Seq<Request>,
    i: int,
    j: int,
)
    requires
        i < j,
        granted(start, requests, i),
        granted(start, requests, j),
        requests[i] is Timeout,
        requests[j] is Vote,
    ensures
        round_of(requests[i]) < round_of(requests[j]),
{
    lemma_granted_is_remembered(start, requests, i, j);
}

/// A round below one that was voted in or given up on is never given up on. The round of a vote
/// itself still can be.
pub proof fn law_no_timeout_in_past_round(
    start: SafetyView,
    requests: Seq<Request>,
    i: int,
    j: int,
)
    requires
        i < j,
        granted(start, requests, i),
        granted(start, requests, j),
        requests[j] is Timeout,
    ensures
        round_of(requests[i]) <= round_of(requests[j]),
{
    lemma_granted_is_remembered(start, requests, i, j);
}

/// A timeout never comes with a certificate older than one that was voted on before.
pub proof fn law_timeout_respects_voted_certificates(
    start: SafetyView,
    requests: Seq<Request>,
    i: int,
    j: int,
)
    requires
        i < j,
        granted(start, requests, i),
        granted(start, requests, j),
        requests[i] is Vote,
        requests[j] is Timeout,
    ensures
        qc_round_of(requests[i]) <= qc_round_of(requests[j]),
{
    lemma_granted_is_remembered(start, requests, i, j);
}

/// Asking again for a vote that was granted gets it refused; asking again for a timeout that was
/// granted gets it granted again, with nothing new to remember.
pub proof fn law_repeated_request(safety: SafetyView, request: Request)
    requires
        safety.grants(request),
    ensures
        request is Vote ==> !safety.after(request).grants(request),
        request is Timeout ==> safety.after(request).grants(request),
        safety.after(request).after(request) == safety.after(request),
{
}

/// A granted vote extends a smaller round: either the round right before, or the round right
/// before timed out and nobody who timed out there knew a higher certificate.
pub proof fn law_vote_is_justified(
    safety: SafetyView,
    block_round: int,
    qc_round: int,
    tc: TimeoutCertificateView,
)
    requires
        safety.grants(Request::Vote { block_round, qc_round, tc }),
    ensures
        qc_round < block_round,
        consecutive(block_round, qc_round) || consecutive(block_round, tc.round),
        consecutive(block_round, qc_round) || forall|i: int|
            0 <= i < tc.tmo_high_qc_rounds.len() ==> #[trigger] tc.tmo_high_qc_rounds[i]
                <= qc_round,
{
}

/// A granted timeout is for a round above that of its certificate, which was entered from the
/// round right before.
pub proof fn law_timeout_is_justified(
    safety: SafetyView,
    round: int,
    qc_round: int,
    tc: TimeoutCertificateView,
)
    requires
        safety.grants(Request::Timeout { round, qc_round, tc }),
    ensures
        qc_round < round,
        consecutive(round, qc_round) || consecutive(round, tc.round),
{
}

/// A vote is owed for a block above every round that was voted in, given up on or certified,
/// if the block extends the round right before, or if the round right before timed out and
/// everybody who timed out there reported a round up to that of the block's certificate.
pub proof fn law_safe_vote_is_granted(
    safety: SafetyView,
    block_round: int,
    qc_round: int,
    tc: TimeoutCertificateView,
)
    requires
        block_round > safety.highest_vote_round,
        block_round > safety.highest_qc_round,
        block_round > qc_round,
        block_round - qc_round == 1 || (block_round - tc.round == 1 && forall|i: int|
            0 <= i < tc.tmo_high_qc_rounds.len() ==> #[trigger] tc.tmo_high_qc_rounds[i]
                <= qc_round),
    ensures
        safety.grants(Request::Vote { block_round, qc_round, tc }),
{
}

/// Each of these is reason enough to refuse a vote: a round that is not above those remembered
/// or that of the certificate, a gap that no timeout bridges, and a gap over which somebody
/// reported a higher certificate.
pub proof fn law_unsafe_vote_is_refused(
    safety: SafetyView,
    block_round: int,
    qc_round: int,
    tc: TimeoutCertificateView,
)
    requires
        ({
            ||| block_round <= safety.highest_vote_round
            ||| block_round <= safety.highest_qc_round
            ||| block_round <= qc_round
            ||| block_round - qc_round != 1 && block_round - tc.round != 1
            ||| block_round - qc_round != 1 && exists|i: int|
                0 <= i < tc.tmo_high_qc_rounds.len() && #[trigger] tc.tmo_high_qc_rounds[i]
                    > qc_round
        }),
    ensures
        !safety.grants(Request::Vote { block_round, qc_round, tc }),
{
}

/// A block with a higher certificate gets the vote that one with a lower certificate gets.
pub proof fn law_higher_certificate_keeps_vote(
    safety: SafetyView,
    block_round: int,
    qc_round: int,
    higher_qc_round: int,
    tc: TimeoutCertificateView,
)
    requires
        safety.grants(Request::Vote { block_round, qc_round, tc }),
        qc_round <= higher_qc_round < block_round,
    ensures
        safety.grants(Request::Vote { block_round, qc_round: higher_qc_round, tc }),
{
}

/// Having voted less, and having fewer reports to go by, never costs a vote.
pub proof fn law_less_known_keeps_vote(
    safety: SafetyView,
    earlier: SafetyView,
    block_round: int,
    qc_round: int,
    tc: TimeoutCertificateView,
    fewer: TimeoutCertificateView,
)
    requires
        safety.grants(Request::Vote { block_round, qc_round, tc }),
        earlier.highest_vote_round <= safety.highest_vote_round,
        earlier.highest_qc_round <= safety.highest_qc_round,
        fewer.round == tc.round,
        forall|i: int|
            0 <= i < fewer.tmo_high_qc_rounds.len() ==> tc.tmo_high_qc_rounds.contains(
                #[trigger] fewer.tmo_high_qc_rounds[i],
            ),
    ensures
        earlier.grants(Request::Vote { block_round, qc_round, tc: fewer }),
{
    assert forall|i: int|
        block_round - qc_round != 1 && 0 <= i < fewer.tmo_high_qc_rounds.len() implies #[trigger]
        fewer.tmo_high_qc_rounds[i] <= qc_round by {
        let j = choose|j: int|
            0 <= j < tc.tmo_high_qc_rounds.len() && tc.tmo_high_qc_rounds[j]
                == fewer.tmo_high_qc_rounds[i];
        assert(tc.tmo_high_qc_rounds[j] <= qc_round);
    }
}

/// A block that extends the round right before needs no timeout certificate.
pub proof fn law_direct_extension_ignores_timeouts(
    safety: SafetyView,
    block_round: int,
    tc: TimeoutCertificateView,
    other: TimeoutCertificateView,
)
    ensures
        safety.grants(Request::Vote { block_round, qc_round: block_round - 1, tc })
            == safety.grants(Request::Vote { block_round, qc_round: block_round - 1, tc: other }),
{
}

/// The rounds that a timeout certificate reports are asked for only where they decide: where
/// they do not, any others give the same answer, and where they do, a single report settles it.
pub proof fn law_reports_are_consulted_where_they_decide(
    safety: SafetyView,
    block_round: Round,
    qc_round: Round,
    tc: TimeoutCertificateView,
    other: TimeoutCertificateView,
    report: Round,
)
    requires
        other.round == tc.round,
    ensures
        !safety.consults_tc_rounds(block_round as int, qc_round as int, tc) ==> safety.grants(
            Request::Vote { block_round: block_round as int, qc_round: qc_round as int, tc },
        ) == safety.grants(
            Request::Vote { block_round: block_round as int, qc_round: qc_round as int, tc: other },
        ),
        safety.consults_tc_rounds(block_round as int, qc_round as int, tc) ==> (safety.grants(
            Request::Vote {
                block_round: block_round as int,
                qc_round: qc_round as int,
                tc: TimeoutCertificateView { tmo_high_qc_rounds: seq![report], ..tc },
            },
        ) <==> report <= qc_round),
{
    let single = TimeoutCertificateView { tmo_high_qc_rounds: seq![report], ..tc };
    assert(single.tmo_high_qc_rounds[0] == report);
}

/// A timeout is owed in a round above that of the certificate and not below those voted in, with
/// a certificate not below those voted on, if the certificate or a timeout is of the round right
/// before. What a timeout certificate reports does not matter.
pub proof fn law_safe_timeout_is_granted(
    safety: SafetyView,
    round: int,
    qc_round: int,
    tc: TimeoutCertificateView,
)
    requires
        qc_round >= safety.highest_qc_round,
        round >= safety.highest_vote_round,
        round > qc_round,
        round - qc_round == 1 || round - tc.round == 1,
    ensures
        safety.grants(Request::Timeout { round, qc_round, tc }),
{
}

/// Each of these is reason enough to refuse a timeout: a certificate below one voted on, a round
/// below one voted in, a round not above that of the certificate, and no way into the round.
pub proof fn law_unsafe_timeout_is_refused(
    safety: SafetyView,
    round: int,
    qc_round: int,
    tc: TimeoutCertificateView,
)
    requires
        ({
            ||| qc_round < safety.highest_qc_round
            ||| round < safety.highest_vote_round
            ||| round <= qc_round
            ||| round - qc_round != 1 && round - tc.round != 1
        }),
    ensures
        !safety.grants(Request::Timeout { round, qc_round, tc }),
{
}

/// Of a timeout certificate, only the round matters to a timeout.
pub proof fn law_timeout_ignores_reports(
    safety: SafetyView,
    round: int,
    qc_round: int,
    tc: TimeoutCertificateView,
    other: TimeoutCertificateView,
)
    requires
        other.round == tc.round,
    ensures
        safety.grants(Request::Timeout { round, qc_round, tc }) == safety.grants(
            Request::Timeout { round, qc_round, tc: other },
        ),
{
}

/// The memory with `k` added to all rounds.
pub open spec fn shifted(safety: SafetyView, k: int) -> SafetyView {
    SafetyView {
        highest_vote_round: safety.highest_vote_round + k,
        highest_qc_round: safety.highest_qc_round + k,
        ..safety
    }
}

/// Only the distances between rounds matter: with all of them shifted alike, the same requests
/// are granted and what is remembered is shifted alike.
pub proof fn law_rounds_are_relative(
    safety: SafetyView,
    round: int,
    qc_round: int,
    tc: TimeoutCertificateView,
    moved: TimeoutCertificateView,
    k: int,
)
    requires
        moved.round == tc.round + k,
        moved.tmo_high_qc_rounds.len() == tc.tmo_high_qc_rounds.len(),
        forall|i: int|
            #![trigger tc.tmo_high_qc_rounds[i]]
            #![trigger moved.tmo_high_qc_rounds[i]]
            0 <= i < tc.tmo_high_qc_rounds.len() ==> moved.tmo_high_qc_rounds[i]
                == tc.tmo_high_qc_rounds[i] + k,
    ensures
        shifted(safety, k).after(
            Request::Vote { block_round: round + k, qc_round: qc_round + k, tc: moved },
        ) == shifted(safety.after(Request::Vote { block_round: round, qc_round, tc }), k),
        shifted(safety, k).grants(
            Request::Vote { block_round: round + k, qc_round: qc_round + k, tc: moved },
        ) == safety.grants(Request::Vote { block_round: round, qc_round, tc }),
        shifted(safety, k).after(
            Request::Timeout { round: round + k, qc_round: qc_round + k, tc: moved },
        ) == shifted(safety.after(Request::Timeout { round, qc_round, tc }), k),
        shifted(safety, k).grants(
            Request::Timeout { round: round + k, qc_round: qc_round + k, tc: moved },
        ) == safety.grants(Request::Timeout { round, qc_round, tc }),
{
}

/// A granted vote makes its round the highest vote round, and the highest certified round the
/// higher of the old one and that of the block's certificate.
pub proof fn law_granted_vote_is_remembered(
    safety: SafetyView,
    block_round: int,
    qc_round: int,
    tc: TimeoutCertificateView,
)
    requires
        safety.grants(Request::Vote { block_round, qc_round, tc }),
    ensures
        ({
            let after = safety.after(Request::Vote { block_round, qc_round, tc });
            &&& after.highest_vote_round == block_round
            &&& after.highest_qc_round >= qc_round
            &&& after.highest_qc_round >= safety.highest_qc_round
            &&& after.highest_qc_round == qc_round || after.highest_qc_round
                == safety.highest_qc_round
        }),
{
}

/// A granted timeout makes its round the highest vote round and leaves the highest certified
/// round alone.
pub proof fn law_granted_timeout_is_remembered(
    safety: SafetyView,
    round: int,
    qc_round: int,
    tc: TimeoutCertificateView,
)
    requires
        safety.grants(Request::Timeout { round, qc_round, tc }),
    ensures
        ({
            let after = safety.after(Request::Timeout { round, qc_round, tc });
            &&& after.highest_vote_round == round
            &&& after.highest_qc_round == safety.highest_qc_round
        }),
{
}

/// A vote names the block and the block that it extends, each with its round, and the state of
/// the block exactly if that is pending. The request is about the same rounds.
pub proof fn law_vote_is_about_its_block(
    block: Block,
    tc: TimeoutCertificateView,
    pending: Set<BlockHash>,
)
    ensures
        ({
            let info = vote_info_of(block, pending);
            &&& info.id == block.hash
            &&& info.round == block.round
            &&& info.parent_id == block.qc.vote_info.id
            &&& info.parent_round == block.qc.vote_info.round
            &&& info.exec_state_id is Some <==> pending.contains(block.hash)
            &&& vote_request(block, tc) == (Request::Vote {
                block_round: info.round as int,
                qc_round: info.parent_round as int,
                tc,
            })
        }),
{
}

/// A state gets committed exactly if the block comes right after the certified one and the state
/// of the certified one is pending. Nothing else about the certificate matters, and neither does
/// what else is pending.
pub proof fn law_commit_needs_consecutive_rounds_and_pending_state(
    block_round: int,
    qc: QuorumCertificateView,
    pending: Set<BlockHash>,
    other_qc: QuorumCertificateView,
    other_pending: Set<BlockHash>,
)
    requires
        other_qc.vote_info.id == qc.vote_info.id,
        other_qc.vote_info.round == qc.vote_info.round,
        other_pending.contains(qc.vote_info.id) == pending.contains(qc.vote_info.id),
    ensures
        commit_candidate(block_round, qc, pending) is Some <==> block_round
            - qc.vote_info.round == 1 && pending.contains(qc.vote_info.id),
        commit_candidate(block_round, other_qc, other_pending) == commit_candidate(
            block_round,
            qc,
            pending,
        ),
{
}

/// A block has a pending state exactly if it is somewhere in the ledger's list of pending blocks.
pub proof fn law_listed_blocks_are_pending(ledger: Ledger, id: BlockHash)
    ensures
        pending_state(ledger@, id) is Some <==> exists|i: int|
            0 <= i < ledger.pending@.len() && #[trigger] ledger.pending@[i] == id,
{
}

/// The models of certificates and messages leave nothing out.
pub proof fn law_models_are_faithful(
    qc: QuorumCertificate,
    tc: TimeoutCertificate,
    vote: Vote,
    timeout: TimeoutInfo,
)
    ensures
        qc@.vote_info == qc.vote_info,
        qc@.signatures == qc.signatures@,
        tc@.round == tc.round,
        tc@.tmo_high_qc_rounds == tc.tmo_high_qc_rounds@,
        tc@.signatures == tc.signatures@,
        vote@.vote_info == vote.vote_info,
        vote@.ledger_commit_info == vote.ledger_commit_info,
        vote@.high_commit_qc == vote.high_commit_qc@,
        vote@.signature == vote.signature,
        timeout@.round == timeout.round,
        timeout@.high_qc == timeout.high_qc@,
        timeout@.signature == timeout.signature,
{
}

/// Rounds are consecutive exactly if they differ by one, in this order.
pub proof fn law_consecutive_rounds_differ_by_one(block_round: int, round: int)
    ensures
        consecutive(block_round, round) <==> block_round - round == 1,
        consecutive(block_round, round) ==> !consecutive(round, block_round),
{
}

/// A timeout certificate allows an extension exactly if it is of the round right before and every
/// single report in it allows it; a report does if it is not above the certificate extended.
pub proof fn law_every_report_must_allow_extension(
    block_round: int,
    qc_round: int,
    tc: TimeoutCertificateView,
    report: Round,
)
    ensures
        safe_to_extend(
            block_round,
            qc_round,
            TimeoutCertificateView { tmo_high_qc_rounds: seq![], ..tc },
        ) <==> block_round - tc.round == 1,
        safe_to_extend(
            block_round,
            qc_round,
            TimeoutCertificateView {
                tmo_high_qc_rounds: tc.tmo_high_qc_rounds.push(report),
                ..tc
            },
        ) <==> safe_to_extend(block_round, qc_round, tc) && report <= qc_round,
{
    let longer = TimeoutCertificateView {
        tmo_high_qc_rounds: tc.tmo_high_qc_rounds.push(report),
        ..tc
    };
    if safe_to_extend(block_round, qc_round, longer) {
        assert(longer.tmo_high_qc_rounds[tc.tmo_high_qc_rounds.len() as int] == report);
        assert forall|i: int| 0 <= i < tc.tmo_high_qc_rounds.len() implies #[trigger]
            tc.tmo_high_qc_rounds[i] <= qc_round by {
            assert(longer.tmo_high_qc_rounds[i] <= qc_round);
        }
    }
}

} // verus!
