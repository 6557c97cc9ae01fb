use snarkos::consensus::certificate::{
    Block, BlockTree, QuorumCertificate, Round, TimeoutCertificate, VoteInfo,
};
use snarkos::consensus::ledger::Ledger;
use snarkos::consensus::message::Vote;
use snarkos::consensus::safety::{valid_signatures, Safety};
use snarkos::digest::Digest;

fn digest(n: u128) -> Digest {
    Digest { high: n, low: n + 1 }
}

fn qc(round: Round, id: u128) -> QuorumCertificate {
    QuorumCertificate {
        vote_info: VoteInfo {
            id: digest(id),
            round,
            parent_id: digest(0),
            parent_round: round - 1,
            exec_state_id: None,
        },
        signatures: vec![(), ()],
    }
}

fn block(round: Round, hash: u128, qc: QuorumCertificate) -> Block {
    Block { hash: digest(hash), round, qc }
}

fn tc(round: Round, rounds: Vec<Round>) -> TimeoutCertificate {
    TimeoutCertificate { round, tmo_high_qc_rounds: rounds, signatures: vec![()] }
}

fn ledger(pending: Vec<u128>) -> Ledger {
    Ledger { pending: pending.into_iter().map(digest).collect() }
}

fn tree() -> BlockTree {
    BlockTree { high_commit_qc: qc(0, 77) }
}

fn hash(info: &VoteInfo) -> Digest {
    Digest { high: info.id.high + 1000, low: info.round as u128 }
}

fn vote(safety: &mut Safety, round: Round, qc_round: Round, last_tc: TimeoutCertificate) -> Option<Vote> {
    safety.make_vote(block(round, 50, qc(qc_round, 40)), last_tc, &ledger(vec![]), &tree(), hash)
}

#[test]
fn vote_says_what_it_votes_for() {
    let mut safety = Safety::new();
    let vote = safety
        .make_vote(block(1, 9, qc(0, 7)), tc(-1, vec![]), &ledger(vec![7, 9]), &tree(), hash)
        .unwrap();
    assert_eq!(
        vote.vote_info,
        VoteInfo {
            id: digest(9),
            round: 1,
            parent_id: digest(7),
            parent_round: 0,
            exec_state_id: Some(()),
        }
    );
    assert_eq!(vote.ledger_commit_info.commit_state_id, Some(()));
    assert_eq!(vote.ledger_commit_info.vote_info_hash, Digest { high: 1009, low: 1 });
    assert_eq!(vote.high_commit_qc, qc(0, 77));
    assert_eq!(vote.signature, ());
}

#[test]
fn states_that_are_not_pending_are_left_out() {
    let mut safety = Safety::new();
    let vote = safety
        .make_vote(block(1, 9, qc(0, 7)), tc(-1, vec![]), &ledger(vec![8]), &tree(), hash)
        .unwrap();
    assert_eq!(vote.vote_info.exec_state_id, None);
    assert_eq!(vote.ledger_commit_info.commit_state_id, None);
}

#[test]
fn nothing_is_committed_across_a_gap() {
    let mut safety = Safety::new();
    let vote = safety
        .make_vote(block(5, 9, qc(2, 7)), tc(4, vec![1, 2, 0]), &ledger(vec![7, 9]), &tree(), hash)
        .unwrap();
    assert_eq!(vote.vote_info.exec_state_id, Some(()));
    assert_eq!(vote.vote_info.parent_round, 2);
    assert_eq!(vote.ledger_commit_info.commit_state_id, None);
}

#[test]
fn no_second_vote_in_a_round() {
    let mut safety = Safety::new();
    assert!(vote(&mut safety, 1, 0, tc(0, vec![0])).is_some());
    assert!(vote(&mut safety, 1, 0, tc(0, vec![0])).is_none());
    assert!(vote(&mut safety, 2, 1, tc(0, vec![0])).is_some());
    assert!(vote(&mut safety, 1, 0, tc(0, vec![0])).is_none());
}

#[test]
fn vote_extends_a_smaller_round() {
    let mut safety = Safety::new();
    assert!(vote(&mut safety, 3, 3, tc(2, vec![0])).is_none());
    assert!(vote(&mut safety, 3, 4, tc(2, vec![0])).is_none());
    assert!(vote(&mut safety, 3, 2, tc(0, vec![])).is_some());
}

#[test]
fn first_vote_is_in_a_positive_round() {
    let mut safety = Safety::new();
    assert!(vote(&mut safety, 0, -1, tc(-1, vec![-1])).is_none());
    assert!(vote(&mut safety, 1, 0, tc(-1, vec![-1])).is_some());
}

#[test]
fn gap_needs_a_timeout_of_the_round_before() {
    let mut safety = Safety::new();
    assert!(vote(&mut safety, 5, 2, tc(3, vec![0])).is_none());
    assert!(vote(&mut safety, 5, 2, tc(5, vec![0])).is_none());
    assert!(vote(&mut safety, 5, 2, tc(4, vec![1, 3, 2])).is_none());
    assert!(vote(&mut safety, 5, 2, tc(4, vec![1, 0, 2])).is_some());
}

#[test]
fn refused_vote_is_not_remembered() {
    let mut safety = Safety::new();
    assert!(vote(&mut safety, 9, 2, tc(3, vec![0])).is_none());
    assert!(vote(&mut safety, 1, 0, tc(-1, vec![])).is_some());
}

#[test]
fn highest_round_has_no_successor() {
    let safety = Safety::new();
    assert!(!safety.consecutive(Round::MIN, Round::MAX));
    assert!(safety.consecutive(Round::MAX, Round::MAX - 1));
    assert!(!safety.safe_to_vote(5, 2, tc(Round::MAX, vec![0])));
    assert!(!safety.safe_to_timeout(5, 2, tc(Round::MAX, vec![0])));
}

#[test]
fn safe_to_extend_compares_with_the_highest_reported_round() {
    let safety = Safety::new();
    assert!(safety.safe_to_extend(6, 4, tc(5, vec![4])));
    assert!(safety.safe_to_extend(6, 4, tc(5, vec![3, 4, 2])));
    assert!(!safety.safe_to_extend(6, 4, tc(5, vec![3, 4, 5])));
    assert!(!safety.safe_to_extend(6, 4, tc(4, vec![])));
}

#[test]
fn timeout_carries_round_and_certificate() {
    let mut safety = Safety::new();
    let timeout = safety.make_timeout(1, qc(0, 7), tc(-1, vec![])).unwrap();
    assert_eq!(timeout.round, 1);
    assert_eq!(timeout.high_qc, qc(0, 7));
    assert_eq!(timeout.signature, ());
}

#[test]
fn timeout_stops_voting_for_the_round() {
    let mut safety = Safety::new();
    assert!(safety.make_timeout(1, qc(0, 7), tc(-1, vec![])).is_some());
    assert!(vote(&mut safety, 1, 0, tc(-1, vec![])).is_none());
    assert!(vote(&mut safety, 2, 0, tc(1, vec![0])).is_some());
}

#[test]
fn voted_round_can_still_time_out() {
    let mut safety = Safety::new();
    assert!(vote(&mut safety, 1, 0, tc(-1, vec![])).is_some());
    assert!(vote(&mut safety, 2, 1, tc(-1, vec![])).is_some());
    assert!(safety.make_timeout(1, qc(0, 7), tc(0, vec![0])).is_none());
    assert!(safety.make_timeout(2, qc(1, 7), tc(0, vec![0])).is_some());
    assert!(safety.make_timeout(2, qc(1, 7), tc(0, vec![0])).is_some());
}

#[test]
fn timeout_respects_the_highest_certificate() {
    let mut safety = Safety::new();
    assert!(vote(&mut safety, 4, 3, tc(-1, vec![])).is_some());
    assert!(safety.make_timeout(5, qc(2, 7), tc(4, vec![2])).is_none());
    assert!(safety.make_timeout(5, qc(3, 7), tc(4, vec![2])).is_some());
}

#[test]
fn timeout_needs_a_way_into_the_round() {
    let mut safety = Safety::new();
    assert!(safety.make_timeout(5, qc(2, 7), tc(3, vec![2])).is_none());
    assert!(safety.make_timeout(2, qc(2, 7), tc(1, vec![2])).is_none());
    assert!(safety.make_timeout(3, qc(2, 7), tc(0, vec![2])).is_some());
    assert!(safety.make_timeout(6, qc(2, 7), tc(5, vec![])).is_some());
}

#[test]
fn commit_candidate_is_the_parent_of_the_previous_round() {
    let safety = Safety::new();
    let ledger = ledger(vec![4]);
    assert_eq!(safety.commit_state_id_candidate(3, qc(2, 4), &ledger), Some(()));
    assert_eq!(safety.commit_state_id_candidate(3, qc(2, 5), &ledger), None);
    assert_eq!(safety.commit_state_id_candidate(4, qc(2, 4), &ledger), None);
}

#[test]
fn signatures_without_data_are_valid() {
    assert!(valid_signatures(&[]));
    assert!(valid_signatures(&[(), ()]));
}

#[test]
fn block_knows_its_round() {
    assert_eq!(block(12, 1, qc(11, 2)).round(), 12);
}

#[test]
fn raises_of_the_vote_round_commute() {
    for (a, b) in [(3, 5), (5, 3), (4, 4), (-2, 5), (0, -1)] {
        let mut one = Safety::new();
        one.increase_highest_vote_round(a);
        one.increase_highest_vote_round(b);
        let mut other = Safety::new();
        other.increase_highest_vote_round(b);
        other.increase_highest_vote_round(a);
        assert_eq!(one, other);
        let highest = a.max(b).max(0);
        assert!(!one.safe_to_vote(highest, highest - 1, tc(-9, vec![])));
        assert!(one.safe_to_vote(highest + 1, highest, tc(-9, vec![])));
        one.increase_highest_vote_round(b);
        assert_eq!(one, other);
    }
}
