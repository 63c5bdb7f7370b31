use upstream_select::backend::BackendSet;
use upstream_select::options::build_transport_options;
use upstream_select::peer::{PeerAddress, PeerDescriptor};
use upstream_select::routing::{classify, Role};
use upstream_select::selector::{rr_pick, SelectError, Selector};

fn inet(host: &str, port: u16) -> PeerAddress {
    PeerAddress::Inet { host: host.to_owned(), port }
}

fn set_of(write: Vec<PeerAddress>, read: Vec<PeerAddress>) -> BackendSet {
    let opts = build_transport_options(true, None, Some(4096), Some(1));
    BackendSet::new(write, read, false, false, opts).expect("no tier is required")
}

fn host_of(peer: &PeerDescriptor) -> &str {
    match &peer.address {
        PeerAddress::Inet { host, .. } => host,
        PeerAddress::Local { path } => path,
    }
}

#[test]
fn round_robin_cycles_in_order() {
    let set = set_of(vec![inet("a", 1), inet("b", 1), inet("c", 1)], vec![]);
    let mut sel = Selector::new();
    let mut picked = Vec::new();
    for _ in 0..7 {
        picked.push(host_of(sel.select(Role::Write, &set).unwrap()).to_owned());
    }
    assert_eq!(picked, ["a", "b", "c", "a", "b", "c", "a"]);
}

#[test]
fn fairness_counts_over_a_window() {
    // A window of n selections on a tier of length l hits each peer either
    // n / l or n / l + 1 times.
    let set = set_of(vec![inet("a", 1), inet("b", 1), inet("c", 1)], vec![]);
    let mut sel = Selector::new();
    let mut counts = [0usize; 3];
    for _ in 0..7 {
        let host = host_of(sel.select(Role::Write, &set).unwrap()).to_owned();
        let idx = ["a", "b", "c"].iter().position(|h| *h == host).unwrap();
        counts[idx] += 1;
    }
    assert_eq!(counts, [3, 2, 2]);
}

#[test]
fn tiers_rotate_independently() {
    let set = set_of(
        vec![inet("w1", 1), inet("w2", 1)],
        vec![inet("r1", 1), inet("r2", 1)],
    );
    let mut sel = Selector::new();
    assert_eq!(host_of(sel.select(Role::Write, &set).unwrap()), "w1");
    assert_eq!(host_of(sel.select(Role::Read, &set).unwrap()), "r1");
    assert_eq!(host_of(sel.select(Role::Read, &set).unwrap()), "r2");
    // The read tier's traffic did not advance the write tier's rotation.
    assert_eq!(host_of(sel.select(Role::Write, &set).unwrap()), "w2");
}

#[test]
fn empty_tier_fails_without_indexing() {
    let set = set_of(vec![], vec![inet("r1", 1)]);
    let mut sel = Selector::new();
    assert_eq!(
        sel.select(Role::Write, &set),
        Err(SelectError::NoBackendAvailable)
    );
    // A failed selection consumes no round-robin slot.
    assert_eq!(sel.write_counter, 0);
    assert_eq!(host_of(sel.select(Role::Read, &set).unwrap()), "r1");
}

#[test]
fn single_peer_tier_always_returns_it() {
    let set = set_of(vec![], vec![inet("only", 1)]);
    let mut sel = Selector::new();
    for _ in 0..5 {
        assert_eq!(host_of(sel.select(Role::Read, &set).unwrap()), "only");
    }
    // Regardless of the counter value, too.
    for counter in [0u64, 1, 17, u64::MAX] {
        assert_eq!(host_of(rr_pick(counter, Role::Read, &set).unwrap()), "only");
    }
}

#[test]
fn counter_wraps_at_the_top() {
    let set = set_of(vec![inet("a", 1), inet("b", 1)], vec![]);
    let mut sel = Selector { write_counter: u64::MAX, read_counter: 0 };
    // u64::MAX is odd, so the pre-increment pick lands on "b"; the counter
    // then wraps to zero and the rotation restarts at "a".
    assert_eq!(host_of(sel.select(Role::Write, &set).unwrap()), "b");
    assert_eq!(sel.write_counter, 0);
    assert_eq!(host_of(sel.select(Role::Write, &set).unwrap()), "a");
}

#[test]
fn stateless_pick_matches_counter_modulo_length() {
    let set = set_of(vec![inet("a", 1), inet("b", 1), inet("c", 1)], vec![]);
    for counter in 0u64..9 {
        let expected = ["a", "b", "c"][(counter % 3) as usize];
        assert_eq!(host_of(rr_pick(counter, Role::Write, &set).unwrap()), expected);
    }
}

#[test]
fn end_to_end_method_routing_scenario() {
    // Backend set {write: [A, B], read: [C]}; requests POST, POST, GET, POST
    // route to A, B, C, A.
    let set = set_of(
        vec![inet("A", 3000), inet("B", 3000)],
        vec![inet("C", 9999)],
    );
    let mut sel = Selector::new();
    let mut routed = Vec::new();
    for method in ["POST", "POST", "GET", "POST"] {
        let role = classify(method);
        routed.push(host_of(sel.select(role, &set).unwrap()).to_owned());
    }
    assert_eq!(routed, ["A", "B", "C", "A"]);
}
