//! The safety rules: when a validator may vote, and when it may give up on a round.

use crate::consensus::certificate::{
    Block, BlockHash, BlockTree, LedgerCommitInfo, QuorumCertificate, QuorumCertificateView, Round,
    Signature, StateId, TimeoutCertificate, TimeoutCertificateView, VoteInfo,
};
use crate::consensus::ledger::{pending_state, Ledger};
use crate::consensus::message::{TimeoutInfo, TimeoutInfoView, Vote, VoteView};
use crate::digest::Digest;
use vstd::prelude::*;

verus! {

/// What a validator remembers in order to stay safe.
#[derive(Debug, PartialEq, Eq)]
pub struct Safety {
    /// The private key of the validator. It carries no data yet.
    private_key: (),
    /// The public keys of all validators. They carry no data yet.
    public_keys: Vec<()>,
    /// The highest round that the validator voted or timed out in, initially 0.
    highest_vote_round: Round,
    /// The highest round of a certificate that the validator voted to extend, initially 0.
    highest_qc_round: Round,
}

/// The model of a `Safety`.
#[verifier::ext_equal]
pub struct SafetyView {
    pub private_key: (),
    pub public_keys: Seq<()>,
    pub highest_vote_round: int,
    pub highest_qc_round: int,
}

impl View for Safety {
    type V = SafetyView;

    closed spec fn view(&self) -> SafetyView {
        SafetyView {
            private_key: self.private_key,
            public_keys: self.public_keys@,
            highest_vote_round: self.highest_vote_round as int,
            highest_qc_round: self.highest_qc_round as int,
        }
    }
}

/// Something that a validator is asked to put its name under.
pub enum Request {
    /// To vote for a block of round `block_round` that extends a block of round `qc_round`.
    Vote { block_round: int, qc_round: int, tc: TimeoutCertificateView },
    /// To give up on `round`, with a highest known certificate of round `qc_round`.
    Timeout { round: int, qc_round: int, tc: TimeoutCertificateView },
}

/// Whether `block_round` comes right after `round`.
pub open spec fn consecutive(block_round: int, round: int) -> bool {
    block_round == round + 1
}

/// Whether the timeout certificate allows a block of `block_round` to extend a block of
/// `qc_round`: the round before timed out, and nobody who timed out knew a higher certificate.
pub open spec fn safe_to_extend(
    block_round: int,
    qc_round: int,
    tc: TimeoutCertificateView,
) -> bool {
    &&& consecutive(block_round, tc.round)
    &&& forall|i: int|
        0 <= i < tc.tmo_high_qc_rounds.len() ==> #[trigger] tc.tmo_high_qc_rounds[i] <= qc_round
}

pub open spec fn max(a: int, b: int) -> int {
    if a >= b {
        a
    } else {
        b
    }
}

impl SafetyView {
    /// The validator never voted to extend a round above those that it voted in.
    pub open spec fn wf(self) -> bool {
        0 <= self.highest_qc_round <= self.highest_vote_round
    }

    /// The memory with the highest vote round raised to `round`, unless it is higher already.
    pub open spec fn raise_vote_round(self, round: int) -> SafetyView {
        SafetyView { highest_vote_round: max(self.highest_vote_round, round), ..self }
    }

    /// The memory with the highest certified round raised to `qc_round`, unless it is higher
    /// already.
    pub open spec fn raise_qc_round(self, qc_round: int) -> SafetyView {
        SafetyView { highest_qc_round: max(self.highest_qc_round, qc_round), ..self }
    }

    /// Whether the rounds admit a vote: it must be in a higher round than any vote or timeout
    /// before, and extend a smaller round.
    pub open spec fn round_admits_vote(self, block_round: int, qc_round: int) -> bool {
        &&& block_round > self.highest_vote_round
        &&& block_round > self.highest_qc_round
        &&& block_round > qc_round
    }

    /// Whether it is safe to vote for a block.
    pub open spec fn safe_to_vote(
        self,
        block_round: int,
        qc_round: int,
        tc: TimeoutCertificateView,
    ) -> bool {
        &&& self.round_admits_vote(block_round, qc_round)
        &&& consecutive(block_round, qc_round) || safe_to_extend(block_round, qc_round, tc)
    }

    /// Whether the decision on a vote depends on the rounds that `tc` reports.
    pub open spec fn consults_tc_rounds(
        self,
        block_round: int,
        qc_round: int,
        tc: TimeoutCertificateView,
    ) -> bool {
        &&& self.round_admits_vote(block_round, qc_round)
        &&& !consecutive(block_round, qc_round)
        &&& consecutive(block_round, tc.round)
    }

    /// Whether it is safe to give up on a round: the certificate is not older than one that was
    /// voted on, the round is not past, and a certificate allowed to enter it.
    pub open spec fn safe_to_timeout(
        self,
        round: int,
        qc_round: int,
        tc: TimeoutCertificateView,
    ) -> bool {
        &&& qc_round >= self.highest_qc_round
        &&& round > max(self.highest_vote_round - 1, qc_round)
        &&& consecutive(round, qc_round) || consecutive(round, tc.round)
    }

    /// Whether the request is granted.
    pub open spec fn grants(self, request: Request) -> bool {
        match request {
            Request::Vote { block_round, qc_round, tc } => self.safe_to_vote(
                block_round,
                qc_round,
                tc,
            ),
            Request::Timeout { round, qc_round, tc } => self.safe_to_timeout(round, qc_round, tc),
        }
    }

    /// What the validator remembers after the request was granted or refused.
    pub open spec fn after(self, request: Request) -> SafetyView {
        if !self.grants(request) {
            self
        } else {
            match request {
                Request::Vote { block_round, qc_round, tc } => self.raise_qc_round(
                    qc_round,
                ).raise_vote_round(block_round),
                Request::Timeout { round, qc_round, tc } => self.raise_vote_round(round),
            }
        }
    }
}

/// The request to vote for `block`.
pub open spec fn vote_request(block: Block, tc: TimeoutCertificateView) -> Request {
    Request::Vote {
        block_round: block.round as int,
        qc_round: block.qc.vote_info.round as int,
        tc,
    }
}

/// What a vote for `block` says, given the set of blocks that have a pending state.
pub open spec fn vote_info_of(block: Block, pending: Set<BlockHash>) -> VoteInfo {
    VoteInfo {
        id: block.hash,
        round: block.round,
        parent_id: block.qc.vote_info.id,
        parent_round: block.qc.vote_info.round,
        exec_state_id: pending_state(pending, block.hash),
    }
}

/// The state that gets committed once the votes for a block of `block_round` that extends the
/// block of `qc` form a certificate: the pending state of the extended block if the two rounds
/// are consecutive, else none.
pub open spec fn commit_candidate(
    block_round: int,
    qc: QuorumCertificateView,
    pending: Set<BlockHash>,
) -> Option<StateId> {
    if consecutive(block_round, qc.vote_info.round as int) {
        pending_state(pending, qc.vote_info.id)
    } else {
        None
    }
}

impl Safety {
    /// Returns the memory of a validator that has not voted yet.
    pub fn new() -> (safety: Self)
        ensures
            safety@ == (SafetyView {
                private_key: (),
                public_keys: Seq::empty(),
                highest_vote_round: 0,
                highest_qc_round: 0,
            }),
            safety@.wf(),
    {
        Safety {
            private_key: (),
            public_keys: Vec::new(),
            highest_vote_round: 0,
            highest_qc_round: 0,
        }
    }

    /// Commits not to vote in rounds up to `round`.
    pub fn increase_highest_vote_round(&mut self, round: Round)
        ensures
            final(self)@ == old(self)@.raise_vote_round(round as int),
            old(self)@.wf() ==> final(self)@.wf(),
    {
        if round > self.highest_vote_round {
            self.highest_vote_round = round;
        }
    }

    /// Remembers the round of a certificate that the validator votes to extend.
    fn update_highest_qc_round(&mut self, qc_round: Round)
        ensures
            final(self)@ == old(self)@.raise_qc_round(qc_round as int),
    {
        if qc_round > self.highest_qc_round {
            self.highest_qc_round = qc_round;
        }
    }

    /// Tells whether `block_round` comes right after `round`.
    pub fn consecutive(&self, block_round: Round, round: Round) -> (res: bool)
        ensures
            res == consecutive(block_round as int, round as int),
    {
        round < block_round && round + 1 == block_round
    }

    /// Tells whether the timeout certificate allows a block of `block_round` to extend a block
    /// of `qc_round`.
    pub fn safe_to_extend(
        &self,
        block_round: Round,
        qc_round: Round,
        tc: TimeoutCertificate,
    ) -> (res: bool)
        requires
            consecutive(block_round as int, tc.round as int) ==> tc.tmo_high_qc_rounds@.len() > 0,
        ensures
            res == safe_to_extend(block_round as int, qc_round as int, tc@),
    {
        if !self.consecutive(block_round, tc.round) {
            return false;
        }
        let high_qc_round: Round = highest(&tc.tmo_high_qc_rounds);
        proof {
            let i = choose|i: int|
                0 <= i < tc@.tmo_high_qc_rounds.len() && tc@.tmo_high_qc_rounds[i]
                    == high_qc_round;
            assert(tc@.tmo_high_qc_rounds[i] == high_qc_round);
        }
        qc_round >= high_qc_round
    }

    /// Tells whether it is safe to vote for a block of `block_round` that extends a block of
    /// `qc_round`.
    pub fn safe_to_vote(
        &self,
        block_round: Round,
        qc_round: Round,
        tc: TimeoutCertificate,
    ) -> (res: bool)
        requires
            self@.consults_tc_rounds(block_round as int, qc_round as int, tc@)
                ==> tc.tmo_high_qc_rounds@.len() > 0,
        ensures
            res == self@.safe_to_vote(block_round as int, qc_round as int, tc@),
    {
        if block_round <= self.highest_vote_round || block_round <= self.highest_qc_round
            || block_round <= qc_round {
            // Votes are in monotonically increasing rounds and extend a smaller round.
            false
        } else {
            // Either the block extends the previous round, or the timeout of that round
            // allows it.
            self.consecutive(block_round, qc_round) || self.safe_to_extend(
                block_round,
                qc_round,
                tc,
            )
        }
    }

    /// Tells whether it is safe to give up on `round`, when the highest known certificate is of
    /// `qc_round`.
    pub fn safe_to_timeout(
        &self,
        round: Round,
        qc_round: Round,
        tc: TimeoutCertificate,
    ) -> (res: bool)
        ensures
            res == self@.safe_to_timeout(round as int, qc_round as int, tc@),
    {
        if qc_round < self.highest_qc_round || round < self.highest_vote_round || round
            <= qc_round {
            // The highest certificate is respected and no past round is given up.
            false
        } else {
            // A certificate must allow to enter the round.
            self.consecutive(round, qc_round) || self.consecutive(round, tc.round)
        }
    }

    /// Returns the state that gets committed in case a certificate is formed in the round of
    /// the vote.
    pub fn commit_state_id_candidate(
        &self,
        block_round: Round,
        qc: QuorumCertificate,
        ledger: &Ledger,
    ) -> (state: Option<StateId>)
        ensures
            state == commit_candidate(block_round as int, qc@, ledger@),
    {
        if self.consecutive(block_round, qc.vote_info.round) {
            ledger.pending_state(qc.vote_info.id)
        } else {
            None
        }
    }

    /// Votes for `block` if that is safe, and remembers the vote. `hash` computes the digest
    /// by which the commit information refers to the rest of the vote.
    ///
    /// A timeout certificate of the round before the block's must report at least one round,
    /// unless the decision does not depend on it.
    pub fn make_vote<H: Fn(&VoteInfo) -> Digest>(
        &mut self,
        block: Block,
        last_tc: TimeoutCertificate,
        ledger: &Ledger,
        block_tree: &BlockTree,
        hash: H,
    ) -> (vote: Option<Vote>)
        requires
            old(self)@.consults_tc_rounds(
                block.round as int,
                block.qc.vote_info.round as int,
                last_tc@,
            ) ==> last_tc.tmo_high_qc_rounds@.len() > 0,
            old(self)@.grants(vote_request(block, last_tc@)) ==> call_requires(
                hash,
                (&vote_info_of(block, ledger@),),
            ),
        ensures
            vote is Some <==> old(self)@.grants(vote_request(block, last_tc@)),
            final(self)@ == old(self)@.after(vote_request(block, last_tc@)),
            vote matches Some(v) ==> {
                &&& v@ == (VoteView {
                    vote_info: vote_info_of(block, ledger@),
                    ledger_commit_info: LedgerCommitInfo {
                        commit_state_id: commit_candidate(block.round as int, block.qc@, ledger@),
                        vote_info_hash: v.ledger_commit_info.vote_info_hash,
                    },
                    high_commit_qc: block_tree.high_commit_qc@,
                    signature: (),
                })
                &&& call_ensures(
                    hash,
                    (&vote_info_of(block, ledger@),),
                    v.ledger_commit_info.vote_info_hash,
                )
            },
            old(self)@.wf() ==> final(self)@.wf(),
    {
        let qc_round: Round = block.qc.vote_info.round;

        if valid_signatures(&block.qc.signatures) && valid_signatures(&last_tc.signatures)
            && self.safe_to_vote(block.round, qc_round, last_tc) {
            // Protect the round of the certificate.
            self.update_highest_qc_round(qc_round);
            // Don't vote again in this round or a lower one.
            self.increase_highest_vote_round(block.round);

            let vote_info = VoteInfo {
                id: block.hash,
                round: block.round,
                parent_id: block.qc.vote_info.id,
                parent_round: qc_round,
                exec_state_id: ledger.pending_state(block.hash),
            };

            let ledger_commit_info = LedgerCommitInfo {
                commit_state_id: self.commit_state_id_candidate(block.round(), block.qc, ledger),
                vote_info_hash: hash(&vote_info),
            };

            Some(Vote::new(vote_info, ledger_commit_info, block_tree.high_commit_qc.clone(), ()))
        } else {
            None
        }
    }

    /// Gives up on `round` if that is safe, and remembers not to vote in it any more.
    pub fn make_timeout(
        &mut self,
        round: Round,
        high_qc: QuorumCertificate,
        last_tc: TimeoutCertificate,
    ) -> (timeout: Option<TimeoutInfo>)
        ensures
            timeout is Some <==> old(self)@.grants(
                Request::Timeout {
                    round: round as int,
                    qc_round: high_qc.vote_info.round as int,
                    tc: last_tc@,
                },
            ),
            final(self)@ == old(self)@.after(
                Request::Timeout {
                    round: round as int,
                    qc_round: high_qc.vote_info.round as int,
                    tc: last_tc@,
                },
            ),
            timeout matches Some(t) ==> t@ == (TimeoutInfoView {
                round: round as int,
                high_qc: high_qc@,
                signature: (),
            }),
            old(self)@.wf() ==> final(self)@.wf(),
    {
        let qc_round: Round = high_qc.vote_info.round;

        if valid_signatures(&high_qc.signatures) && valid_signatures(&last_tc.signatures)
            && self.safe_to_timeout(round, qc_round, last_tc) {
            // Stop voting for the round.
            self.increase_highest_vote_round(round);

            Some(TimeoutInfo::new(round, high_qc, ()))
        } else {
            None
        }
    }
}

/// Returns the highest of the given rounds.
fn highest(rounds: &Vec<Round>) -> (round: Round)
    requires
        rounds@.len() > 0,
    ensures
        rounds@.contains(round),
        forall|i: int| 0 <= i < rounds@.len() ==> #[trigger] rounds@[i] <= round,
{
    let mut round: Round = rounds[0];
    for i in 1..rounds.len()
        invariant
            rounds@.contains(round),
            forall|j: int| 0 <= j < i ==> #[trigger] rounds@[j] <= round,
    {
        if rounds[i] > round {
            round = rounds[i];
        }
    }
    round
}

/// Checks the signatures on what a vote or timeout is made of. As long as a signature carries no
/// data, there is none that fails the check.
pub fn valid_signatures(signatures: &[Signature]) -> (valid: bool)
    ensures
        valid,
{
    true
}

} // verus!
