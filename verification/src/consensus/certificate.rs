//! Blocks, and the certificates that justify extending them.

use crate::digest::Digest;
use vstd::prelude::*;

verus! {

/// A round of the protocol. Rounds are signed, so that one less than the first round is still a
/// number to compare with.
pub type Round = i64;

/// The signature of a validator. It carries no data yet.
pub type Signature = ();

/// The identifier of an executed state. It carries no data yet.
pub type StateId = ();

/// The identifier of a block: the digest of its contents.
pub type BlockHash = Digest;

/// What a vote says about a block and the block that it extends.
#[derive(Clone, Copy, Debug, PartialEq, Eq)]
pub struct VoteInfo {
    /// The block that is voted for.
    pub id: BlockHash,
    /// Its round.
    pub round: Round,
    /// The block that it extends.
    pub parent_id: BlockHash,
    /// The round of that block.
    pub parent_round: Round,
    /// The state that speculative execution of the block led to, if it was executed.
    pub exec_state_id: Option<StateId>,
}

/// What is committed once the votes for a block form a certificate.
#[derive(Clone, Copy, Debug, PartialEq, Eq)]
pub struct LedgerCommitInfo {
    /// The state that gets committed, `None` if there is nothing to commit.
    pub commit_state_id: Option<StateId>,
    /// The digest of the `VoteInfo` that goes with it.
    pub vote_info_hash: Digest,
}

/// Proof that a quorum of validators voted for a block.
#[derive(Debug, PartialEq, Eq)]
pub struct QuorumCertificate {
    pub vote_info: VoteInfo,
    pub signatures: Vec<Signature>,
}

/// The model of a `QuorumCertificate`.
#[verifier::ext_equal]
pub struct QuorumCertificateView {
    pub vote_info: VoteInfo,
    pub signatures: Seq<Signature>,
}

impl View for QuorumCertificate {
    type V = QuorumCertificateView;

    open spec fn view(&self) -> QuorumCertificateView {
        QuorumCertificateView { vote_info: self.vote_info, signatures: self.signatures@ }
    }
}

impl Clone for QuorumCertificate {
    fn clone(&self) -> (qc: Self)
        ensures
            qc@ == self@,
    {
        let qc = QuorumCertificate {
            vote_info: self.vote_info,
            signatures: self.signatures.clone(),
        };
        proof {
            assert(qc.signatures@ =~= self.signatures@);
        }
        qc
    }
}

/// Proof that a quorum of validators gave up on a round.
#[derive(Debug, PartialEq, Eq)]
pub struct TimeoutCertificate {
    /// The round that timed out.
    pub round: Round,
    /// The rounds of the highest quorum certificates known to those who timed out.
    pub tmo_high_qc_rounds: Vec<Round>,
    pub signatures: Vec<Signature>,
}

/// The model of a `TimeoutCertificate`.
#[verifier::ext_equal]
pub struct TimeoutCertificateView {
    pub round: int,
    pub tmo_high_qc_rounds: Seq<Round>,
    pub signatures: Seq<Signature>,
}

impl View for TimeoutCertificate {
    type V = TimeoutCertificateView;

    open spec fn view(&self) -> TimeoutCertificateView {
        TimeoutCertificateView {
            round: self.round as int,
            tmo_high_qc_rounds: self.tmo_high_qc_rounds@,
            signatures: self.signatures@,
        }
    }
}

/// A proposed block.
#[derive(Debug, PartialEq, Eq)]
pub struct Block {
    pub hash: BlockHash,
    pub round: Round,
    /// The certificate of the block that this one extends.
    pub qc: QuorumCertificate,
}

impl Block {
    /// Returns the round in which the block was proposed.
    pub fn round(&self) -> (round: Round)
        ensures
            round == self.round,
    {
        self.round
    }
}

/// The blocks known to a validator, as far as the safety rules read them.
#[derive(Debug, PartialEq, Eq)]
pub struct BlockTree {
    /// The highest certificate that serves as commit certificate.
    pub high_commit_qc: QuorumCertificate,
}

} // verus!
