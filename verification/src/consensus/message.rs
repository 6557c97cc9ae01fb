//! What a validator sends: votes and timeouts.

use crate::consensus::certificate::{
    LedgerCommitInfo, QuorumCertificate, QuorumCertificateView, Round, Signature, VoteInfo,
};
use vstd::prelude::*;

verus! {

/// A vote for a block.
#[derive(Debug, PartialEq, Eq)]
pub struct Vote {
    pub vote_info: VoteInfo,
    pub ledger_commit_info: LedgerCommitInfo,
    /// The highest commit certificate known to the voter.
    pub high_commit_qc: QuorumCertificate,
    pub signature: Signature,
}

/// The model of a `Vote`.
#[verifier::ext_equal]
pub struct VoteView {
    pub vote_info: VoteInfo,
    pub ledger_commit_info: LedgerCommitInfo,
    pub high_commit_qc: QuorumCertificateView,
    pub signature: Signature,
}

impl View for Vote {
    type V = VoteView;

    open spec fn view(&self) -> VoteView {
        VoteView {
            vote_info: self.vote_info,
            ledger_commit_info: self.ledger_commit_info,
            high_commit_qc: self.high_commit_qc@,
            signature: self.signature,
        }
    }
}

impl Vote {
    /// Puts a vote together.
    pub fn new(
        vote_info: VoteInfo,
        ledger_commit_info: LedgerCommitInfo,
        high_commit_qc: QuorumCertificate,
        signature: Signature,
    ) -> (vote: Self)
        ensures
            vote@ == (VoteView {
                vote_info,
                ledger_commit_info,
                high_commit_qc: high_commit_qc@,
                signature,
            }),
    {
        Vote { vote_info, ledger_commit_info, high_commit_qc, signature }
    }
}

/// The announcement that a validator gives up on a round.
#[derive(Debug, PartialEq, Eq)]
pub struct TimeoutInfo {
    pub round: Round,
    /// The highest certificate known to the validator.
    pub high_qc: QuorumCertificate,
    pub signature: Signature,
}

/// The model of a `TimeoutInfo`.
#[verifier::ext_equal]
pub struct TimeoutInfoView {
    pub round: int,
    pub high_qc: QuorumCertificateView,
    pub signature: Signature,
}

impl View for TimeoutInfo {
    type V = TimeoutInfoView;

    open spec fn view(&self) -> TimeoutInfoView {
        TimeoutInfoView {
            round: self.round as int,
            high_qc: self.high_qc@,
            signature: self.signature,
        }
    }
}

impl TimeoutInfo {
    /// Puts a timeout together.
    pub fn new(round: Round, high_qc: QuorumCertificate, signature: Signature) -> (info: Self)
        ensures
            info@ == (TimeoutInfoView { round: round as int, high_qc: high_qc@, signature }),
    {
        TimeoutInfo { round, high_qc, signature }
    }
}

} // verus!
