use kuantum::chaotic_routing::{ChaoticRouter, FORWARD_PROB_SCALE};
use kuantum::CryptoError;

fn five_peers() -> Vec<Vec<u8>> {
    (0u8..5).map(|i| vec![i; 4]).collect()
}

#[test]
fn forward_probability_one_always_forwards() {
    let router = ChaoticRouter::new(FORWARD_PROB_SCALE, 5);
    for _ in 0..1000 {
        assert!(router.should_forward());
    }
}

#[test]
fn forward_probability_zero_never_forwards() {
    let router = ChaoticRouter::new(0, 5);
    for _ in 0..1000 {
        assert!(!router.should_forward());
    }
}

#[test]
fn forward_rate_converges_to_the_probability() {
    // p = 0.3 over n = 10_000 trials: the observed rate must fall within
    // three standard errors of p.
    let p = 0.3_f64;
    let n = 10_000usize;
    let router = ChaoticRouter::new((p * FORWARD_PROB_SCALE as f64) as u32, 5);
    let mut hits = 0usize;
    for _ in 0..n {
        if router.should_forward() {
            hits += 1;
        }
    }
    let tolerance = 3.0 * (p * (1.0 - p) * n as f64).sqrt();
    let delta = (hits as f64 - p * n as f64).abs();
    assert!(
        delta <= tolerance,
        "observed {} of {}, outside {} of the mean",
        hits,
        n,
        tolerance
    );
}

#[test]
fn generated_routes_stay_within_bounds_and_pool() {
    let router = ChaoticRouter::new(300_000, 3);
    let peers = five_peers();
    for hop_count in [1u32, 2, 3, 7, 100] {
        let route = router.generate_random_route(&peers, hop_count);
        assert_eq!(route.len() as u32, hop_count.min(3));
        for hop in &route {
            assert!(peers.contains(hop));
        }
    }
}

#[test]
fn empty_peer_set_or_zero_hops_yields_empty_route() {
    let router = ChaoticRouter::new(300_000, 3);
    assert!(router.generate_random_route(&Vec::new(), 2).is_empty());
    assert!(router.generate_random_route(&five_peers(), 0).is_empty());
}

#[test]
fn hundred_routes_created_and_cleared() {
    let mut router = ChaoticRouter::new(300_000, 3);
    let peers = five_peers();
    for id in 0u128..100 {
        let route = router.create_route(id, &peers).expect("peers available");
        assert!(1 <= route.len() && route.len() <= 3);
        for hop in &route {
            assert!(peers.contains(hop));
        }
        let stored = router.get_route(id).expect("stored under the id");
        assert_eq!(*stored, route);
        router.clear_route(id);
        assert!(router.get_route(id).is_none());
    }
    assert_eq!(router.route_count(), 0);
}

#[test]
fn create_route_with_no_peers_is_route_error() {
    let mut router = ChaoticRouter::new(300_000, 3);
    let empty: Vec<Vec<u8>> = Vec::new();
    assert_eq!(router.create_route(1, &empty).unwrap_err(), CryptoError::Route);
    assert_eq!(router.route_count(), 0);
}

#[test]
fn routes_are_kept_until_cleared() {
    let mut router = ChaoticRouter::new(0, 4);
    let peers = five_peers();
    let a = router.create_route(10, &peers).unwrap();
    let b = router.create_route(11, &peers).unwrap();
    assert_eq!(router.route_count(), 2);
    assert_eq!(*router.get_route(10).unwrap(), a);
    assert_eq!(*router.get_route(11).unwrap(), b);
    router.clear_route(10);
    assert_eq!(router.route_count(), 1);
    assert!(router.get_route(10).is_none());
    assert_eq!(*router.get_route(11).unwrap(), b);
}
