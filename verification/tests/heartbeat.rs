use snarkos::beacon::heartbeat::{
    excess_beacons, peers_to_ask, Action, Event, Heartbeat, HEARTBEAT_IN_SECS,
    MAXIMUM_NUMBER_OF_PEERS, MINIMUM_NUMBER_OF_PEERS,
};
use snarkos::beacon::peer::{contains, take_at_most, take_untrusted, without, PeerAddr};

fn addr(n: u32) -> PeerAddr {
    PeerAddr::V4 { ipv4: n, port: 4133 }
}

fn addrs(numbers: std::ops::Range<u32>) -> Vec<PeerAddr> {
    numbers.map(addr).collect()
}

/// A heartbeat whose next question is for the connected beacons.
fn at_beacons(trusted: Vec<PeerAddr>) -> Heartbeat {
    let heartbeat = Heartbeat::new(trusted).step(Event::Count(1));
    assert_eq!(heartbeat.action(), Action::ListBeacons);
    heartbeat
}

/// A heartbeat of a node without trusted peers whose next question is for the candidates.
fn at_candidates() -> Heartbeat {
    let heartbeat = at_beacons(vec![]).step(Event::Addrs(vec![]));
    assert_eq!(heartbeat.action(), Action::CountPeers);
    let heartbeat = heartbeat.step(Event::Count(0));
    assert_eq!(heartbeat.action(), Action::ListCandidates);
    heartbeat
}

/// Carries out all pending disconnections.
fn disconnect_all(mut heartbeat: Heartbeat) -> (Heartbeat, Vec<PeerAddr>) {
    let mut dropped = vec![];
    while let Action::Disconnect(peer) = heartbeat.action() {
        dropped.push(peer);
        heartbeat = heartbeat.step(Event::Done);
    }
    (heartbeat, dropped)
}

#[test]
fn limits() {
    assert_eq!(HEARTBEAT_IN_SECS, 9);
    assert_eq!(MAXIMUM_NUMBER_OF_PEERS, 21);
    assert_eq!(MINIMUM_NUMBER_OF_PEERS, 1);
}

#[test]
fn quiet_heartbeat() {
    let heartbeat = Heartbeat::new(vec![]);
    assert_eq!(heartbeat.action(), Action::CountPeers);
    let heartbeat = heartbeat.step(Event::Count(21));
    assert_eq!(heartbeat.action(), Action::ListBeacons);
    let heartbeat = heartbeat.step(Event::Addrs(vec![addr(1)]));
    assert_eq!(heartbeat.action(), Action::CountPeers);
    let heartbeat = heartbeat.step(Event::Count(1));
    assert_eq!(heartbeat.action(), Action::Stop);
}

#[test]
fn peers_in_excess_are_dropped_in_order() {
    let heartbeat = Heartbeat::new(vec![]).step(Event::Count(24));
    assert_eq!(heartbeat.action(), Action::ListPeers);
    let (heartbeat, dropped) = disconnect_all(heartbeat.step(Event::Addrs(addrs(0..24))));
    assert_eq!(dropped, addrs(0..3));
    assert_eq!(heartbeat.action(), Action::ListBeacons);
}

#[test]
fn trusted_peers_are_not_dropped_for_being_in_excess() {
    let trusted = vec![addr(0), addr(2)];
    let heartbeat = Heartbeat::new(trusted).step(Event::Count(24));
    let (_, dropped) = disconnect_all(heartbeat.step(Event::Addrs(addrs(0..24))));
    assert_eq!(dropped, vec![addr(1), addr(3), addr(4)]);
}

#[test]
fn fewer_untrusted_peers_than_in_excess() {
    let heartbeat = Heartbeat::new(addrs(0..23)).step(Event::Count(24));
    let (_, dropped) = disconnect_all(heartbeat.step(Event::Addrs(addrs(0..24))));
    assert_eq!(dropped, vec![addr(23)]);

    let heartbeat = Heartbeat::new(addrs(0..24)).step(Event::Count(24));
    let (heartbeat, dropped) = disconnect_all(heartbeat.step(Event::Addrs(addrs(0..24))));
    assert_eq!(dropped, vec![]);
    assert_eq!(heartbeat.action(), Action::ListBeacons);
}

#[test]
fn one_beacon_stays() {
    let mut survivors: Vec<PeerAddr> = vec![];
    for _ in 0..200 {
        let heartbeat = at_beacons(vec![]).step(Event::Addrs(addrs(0..5)));
        let (heartbeat, dropped) = disconnect_all(heartbeat);
        assert_eq!(dropped.len(), 4);
        let stays: Vec<PeerAddr> =
            addrs(0..5).into_iter().filter(|beacon| !dropped.contains(beacon)).collect();
        assert_eq!(stays.len(), 1);
        if !survivors.contains(&stays[0]) {
            survivors.push(stays[0]);
        }
        assert_eq!(heartbeat.action(), Action::CountPeers);
    }
    assert!(survivors.len() > 1);
}

#[test]
fn no_beacon_is_dropped_if_there_is_one_at_most() {
    for beacons in [vec![], vec![addr(3)]] {
        let heartbeat = at_beacons(vec![]).step(Event::Addrs(beacons));
        assert_eq!(heartbeat.action(), Action::CountPeers);
    }
}

#[test]
fn drawn_beacons_are_dropped_in_the_order_drawn() {
    let beacons = Event::Addrs(addrs(0..3));
    let heartbeat = at_beacons(vec![]).step_with(beacons, vec![addr(2), addr(0)]);
    let (_, dropped) = disconnect_all(heartbeat);
    assert_eq!(dropped, vec![addr(2), addr(0)]);
}

#[test]
fn draw_is_empty_where_nothing_is_drawn() {
    let heartbeat = Heartbeat::new(vec![]);
    assert_eq!(heartbeat.draw(&Event::Addrs(addrs(0..5))), vec![]);
    assert_eq!(at_beacons(vec![]).draw(&Event::Done), vec![]);
    assert_eq!(at_beacons(vec![]).draw(&Event::Addrs(addrs(0..5))).len(), 4);
}

#[test]
fn trusted_peers_are_joined() {
    let heartbeat = at_beacons(vec![addr(7), addr(8), addr(9)]).step(Event::Addrs(vec![]));
    assert_eq!(heartbeat.action(), Action::CheckConnected(addr(7)));
    let heartbeat = heartbeat.step(Event::Connected(true));
    assert_eq!(heartbeat.action(), Action::CheckConnected(addr(8)));
    let heartbeat = heartbeat.step(Event::Connected(false));
    assert_eq!(heartbeat.action(), Action::Connect(addr(8)));
    let heartbeat = heartbeat.step(Event::Attempted(false));
    assert_eq!(heartbeat.action(), Action::CheckConnected(addr(9)));
    let heartbeat = heartbeat.step(Event::Connected(false));
    assert_eq!(heartbeat.action(), Action::Connect(addr(9)));
    let heartbeat = heartbeat.step(Event::Attempted(true));
    assert_eq!(heartbeat.action(), Action::CountPeers);
}

#[test]
fn candidate_that_connects_is_forgotten() {
    let heartbeat = at_candidates().step(Event::Addrs(vec![addr(5), addr(6)]));
    assert_eq!(heartbeat.action(), Action::Connect(addr(5)));
    let heartbeat = heartbeat.step(Event::Attempted(true));
    assert_eq!(heartbeat.action(), Action::ForgetCandidate(addr(5)));
    let heartbeat = heartbeat.step(Event::Done);
    assert_eq!(heartbeat.action(), Action::Stop);
}

#[test]
fn candidate_that_fails_is_forgotten_and_restricted() {
    let heartbeat = at_candidates().step(Event::Addrs(vec![addr(5), addr(6)]));
    let heartbeat = heartbeat.step(Event::Attempted(false));
    assert_eq!(heartbeat.action(), Action::ForgetCandidate(addr(5)));
    let heartbeat = heartbeat.step(Event::Done);
    assert_eq!(heartbeat.action(), Action::Restrict(addr(5)));
    let heartbeat = heartbeat.step(Event::Done);
    assert_eq!(heartbeat.action(), Action::Stop);
}

#[test]
fn no_candidates() {
    assert_eq!(at_candidates().step(Event::Addrs(vec![])).action(), Action::Stop);
}

#[test]
fn unfitting_events_change_nothing() {
    let heartbeat = at_beacons(vec![addr(7)]);
    let heartbeat = heartbeat.step(Event::Done).step(Event::Count(3)).step(Event::Attempted(true));
    assert_eq!(heartbeat.action(), Action::ListBeacons);
    let heartbeat = at_candidates().step(Event::Addrs(vec![])).step(Event::Done);
    assert_eq!(heartbeat.action(), Action::Stop);
}

#[test]
fn heartbeat_comes_to_its_end() {
    let mut heartbeat = Heartbeat::new(addrs(0..4));
    let mut connected: Vec<PeerAddr> = addrs(2..30);
    let mut steps = 0;
    while heartbeat.action() != Action::Stop {
        let event = match heartbeat.action() {
            Action::CountPeers => Event::Count(connected.len()),
            Action::ListPeers => Event::Addrs(connected.clone()),
            Action::ListBeacons => Event::Addrs(vec![addr(28), addr(29)]),
            Action::ListCandidates => Event::Addrs(vec![addr(99)]),
            Action::CheckConnected(peer) => Event::Connected(connected.contains(&peer)),
            Action::Connect(peer) => {
                connected.push(peer);
                Event::Attempted(true)
            }
            Action::Disconnect(peer) => {
                connected.retain(|other| *other != peer);
                Event::Done
            }
            _ => Event::Done,
        };
        heartbeat = heartbeat.step(event);
        steps += 1;
    }
    assert_eq!(steps, 1 + 1 + 7 + 1 + 1 + (2 + 2 + 1 + 1) + 1);
    assert_eq!(connected.len(), 21 - 1 + 2);
    for peer in addrs(0..4) {
        assert!(connected.contains(&peer));
    }
}

#[test]
fn peer_selections() {
    let list = vec![addr(1), addr(2), addr(1), addr(3)];
    assert!(contains(&list, addr(3)));
    assert!(!contains(&list, addr(4)));
    assert!(!contains(&list, PeerAddr::V6 { ipv6: 3, port: 4133, flowinfo: 0, scope_id: 0 }));
    assert_eq!(take_at_most(&list, 2), vec![addr(1), addr(2)]);
    assert_eq!(take_at_most(&list, 9), list);
    assert_eq!(take_untrusted(&list, &vec![addr(1)], 1), vec![addr(2)]);
    assert_eq!(take_untrusted(&list, &vec![addr(1)], 5), vec![addr(2), addr(3)]);
    assert_eq!(without(&list, addr(1)), vec![addr(2), addr(3)]);
}

/// Whether no address occurs more than once, and each is among the given ones.
fn is_selection(sample: &[PeerAddr], from: &[PeerAddr]) -> bool {
    (0..sample.len()).all(|i| from.contains(&sample[i]) && !sample[..i].contains(&sample[i]))
}

#[test]
fn three_peers_are_asked() {
    let mut first: Vec<PeerAddr> = vec![];
    for _ in 0..200 {
        let sample = peers_to_ask(&addrs(0..6));
        assert_eq!(sample.len(), 3);
        assert!(is_selection(&sample, &addrs(0..6)));
        if !first.contains(&sample[0]) {
            first.push(sample[0]);
        }
    }
    assert!(first.len() > 1);
    let sample = peers_to_ask(&addrs(0..2));
    assert_eq!(sample.len(), 2);
    assert!(is_selection(&sample, &addrs(0..2)));
    assert_eq!(peers_to_ask(&vec![]), vec![]);
}

#[test]
fn all_beacons_but_one_are_in_excess() {
    let sample = excess_beacons(&addrs(0..6));
    assert_eq!(sample.len(), 5);
    assert!(is_selection(&sample, &addrs(0..6)));
    assert_eq!(excess_beacons(&addrs(0..1)), vec![]);
    assert_eq!(excess_beacons(&vec![]), vec![]);
}
