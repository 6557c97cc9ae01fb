use snarkos::beacon::inbound::{
    check_header, Action, BlockHeader, Event, Inbound, Message, Rejection,
};
use snarkos::beacon::peer::PeerAddr;
use snarkos::digest::Digest;

fn peer(n: u16) -> PeerAddr {
    PeerAddr::V6 { ipv6: 1, port: n, flowinfo: 0, scope_id: 0 }
}

fn header(height: u32) -> BlockHeader {
    BlockHeader { height, hash: Digest { high: 3, low: height as u128 } }
}

#[test]
fn new_block_is_relayed_to_all_but_its_source() {
    let inbound = Inbound::process_message(peer(2), Message::UnconfirmedBlock(header(8)));
    assert_eq!(inbound.action(), Action::RecordBlock(header(8).hash));
    let inbound = inbound.step(Event::Recorded(true));
    assert_eq!(inbound.action(), Action::DecodeBlock);
    let inbound = inbound.step(Event::Decoded(Some(header(8))));
    assert_eq!(inbound.action(), Action::ListPeers);
    let inbound = inbound.step(Event::Addrs(vec![peer(1), peer(2), peer(3)]));
    assert_eq!(inbound.action(), Action::Relay(peer(1)));
    let inbound = inbound.step(Event::Done);
    assert_eq!(inbound.action(), Action::Relay(peer(3)));
    let inbound = inbound.step(Event::Done);
    assert_eq!(inbound.action(), Action::Stop);
    assert_eq!(inbound.rejection(), None);
}

#[test]
fn block_without_other_peers_is_relayed_to_nobody() {
    let inbound = Inbound::process_unconfirmed_block(peer(2), header(8))
        .step(Event::Recorded(true))
        .step(Event::Decoded(Some(header(8))))
        .step(Event::Addrs(vec![peer(2)]));
    assert_eq!(inbound.action(), Action::Stop);
}

#[test]
fn known_block_is_ignored() {
    let inbound =
        Inbound::process_unconfirmed_block(peer(2), header(8)).step(Event::Recorded(false));
    assert_eq!(inbound.action(), Action::Stop);
    assert_eq!(inbound.rejection(), None);
}

#[test]
fn block_that_was_not_announced_gets_its_source_disconnected() {
    for decoded in [header(9), BlockHeader { height: 9, ..header(8) }, BlockHeader { height: 8, ..header(9) }] {
        let inbound = Inbound::process_unconfirmed_block(peer(2), header(8))
            .step(Event::Recorded(true))
            .step(Event::Decoded(Some(decoded)));
        assert_eq!(inbound.rejection(), Some(Rejection::HeaderMismatch));
        assert_eq!(inbound.action(), Action::ForgetPeer(peer(2)));
        let inbound = inbound.step(Event::Removed(Some(peer(7))));
        assert_eq!(inbound.action(), Action::Restrict(peer(7)));
        let inbound = inbound.step(Event::Done);
        assert_eq!(inbound.action(), Action::Disconnect(peer(2)));
        let inbound = inbound.step(Event::Done);
        assert_eq!(inbound.action(), Action::Stop);
        assert_eq!(inbound.rejection(), Some(Rejection::HeaderMismatch));
    }
}

#[test]
fn undecodable_block_gets_its_source_disconnected() {
    let inbound = Inbound::process_unconfirmed_block(peer(2), header(8))
        .step(Event::Recorded(true))
        .step(Event::Decoded(None));
    assert_eq!(inbound.rejection(), Some(Rejection::Undecodable));
    assert_eq!(inbound.action(), Action::ForgetPeer(peer(2)));
}

#[test]
fn protocol_violations() {
    for message in [
        Message::BlockRequest,
        Message::BlockResponse,
        Message::ChallengeRequest,
        Message::ChallengeResponse,
        Message::PuzzleRequest,
        Message::PuzzleResponse,
    ] {
        let inbound = Inbound::process_message(peer(2), message);
        assert_eq!(inbound.rejection(), Some(Rejection::NotHandled));
        assert_eq!(inbound.action(), Action::ForgetPeer(peer(2)));
        let inbound = inbound.step(Event::Removed(None));
        assert_eq!(inbound.action(), Action::Disconnect(peer(2)));
        let inbound = inbound.step(Event::Done);
        assert_eq!(inbound.action(), Action::Stop);
    }
}

#[test]
fn valid_messages_are_accepted() {
    for message in [
        Message::Ping,
        Message::Pong,
        Message::UnconfirmedSolution,
        Message::UnconfirmedTransaction,
    ] {
        let inbound = Inbound::process_message(peer(2), message);
        assert_eq!(inbound.action(), Action::Stop);
        assert_eq!(inbound.rejection(), None);
        assert_eq!(inbound.step(Event::Done).action(), Action::Stop);
    }
}

#[test]
fn other_messages_are_unsupported() {
    let inbound = Inbound::process_message(peer(2), Message::Other);
    assert_eq!(inbound.action(), Action::Unsupported);
    assert_eq!(inbound.rejection(), None);
    assert_eq!(inbound.step(Event::Done).action(), Action::Unsupported);
}

#[test]
fn answers_to_other_questions_are_ignored() {
    let inbound = Inbound::process_unconfirmed_block(peer(2), header(8))
        .step(Event::Done)
        .step(Event::Decoded(Some(header(8))))
        .step(Event::Addrs(vec![peer(1)]))
        .step(Event::Removed(None));
    assert_eq!(inbound.action(), Action::RecordBlock(header(8).hash));
}

#[test]
fn reasons() {
    assert_eq!(
        Rejection::NotHandled.reason(),
        Some("peer sent a message that isn't handled by the beacon")
    );
    assert_eq!(
        Rejection::HeaderMismatch.reason(),
        Some("deserialized block doesn't match the 'UnconfirmedBlock' header")
    );
    assert_eq!(Rejection::Undecodable.reason(), None);
}

#[test]
fn header_verdicts() {
    assert_eq!(check_header(header(8), Some(header(8))), Ok(()));
    assert_eq!(check_header(header(8), Some(header(7))), Err(Rejection::HeaderMismatch));
    assert_eq!(check_header(header(8), None), Err(Rejection::Undecodable));
}
