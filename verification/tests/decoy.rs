use kuantum::fake_traffic::{FakeHttpRequest, FakeTrafficGenerator, HttpMethod};

const URL_POOL: [&str; 5] = [
    "https://example.com",
    "https://example.org/api/v1/users",
    "https://api.service.io/data",
    "https://cdn.content.net/assets",
    "https://search.services.org/query",
];

#[test]
fn method_names() {
    assert_eq!(HttpMethod::GET.as_str(), "GET");
    assert_eq!(HttpMethod::POST.as_str(), "POST");
    assert_eq!(HttpMethod::PUT.as_str(), "PUT");
    assert_eq!(HttpMethod::DELETE.as_str(), "DELETE");
}

#[test]
fn random_method_is_one_of_the_four() {
    for _ in 0..100 {
        let m = HttpMethod::random();
        assert!(matches!(
            m,
            HttpMethod::GET | HttpMethod::POST | HttpMethod::PUT | HttpMethod::DELETE
        ));
    }
}

#[test]
fn decoy_requests_are_well_formed() {
    for _ in 0..200 {
        let req = FakeHttpRequest::random().expect("random source available");
        assert_eq!(req.id.len(), 36);
        assert!(URL_POOL.contains(&req.url.as_str()));
        match req.method.as_str() {
            "POST" | "PUT" => {
                assert!(10 <= req.data.len() && req.data.len() < 100);
            }
            "GET" | "DELETE" => {
                assert!(req.data.is_empty());
            }
            other => panic!("unexpected method {}", other),
        }
    }
}

#[test]
fn decoy_ids_differ_between_requests() {
    let a = FakeHttpRequest::random().expect("random source available");
    let b = FakeHttpRequest::random().expect("random source available");
    assert_ne!(a.id, b.id);
}

#[test]
fn generator_flags_and_rate() {
    let mut generator = FakeTrafficGenerator::new(4_000);
    assert_eq!(generator.rate_per_mille, 4_000);
    assert!(!generator.active);
    generator.activate();
    assert!(generator.active);
    generator.stop();
    assert!(!generator.active);
    assert_eq!(generator.rate_per_mille, 4_000);
}

#[test]
fn wait_is_uniform_below_twice_the_mean() {
    // Two decoys per second: mean interval 500 ms, wait below 1000 ms.
    let generator = FakeTrafficGenerator::new(2_000);
    for _ in 0..500 {
        assert!(generator.next_wait_ms() < 1000);
    }
}

#[test]
fn fractional_rate_waits_longer() {
    // Half a decoy per second: mean interval 2000 ms, wait below 4000 ms.
    let generator = FakeTrafficGenerator::new(500);
    for _ in 0..500 {
        assert!(generator.next_wait_ms() < 4000);
    }
}

#[test]
fn zero_rate_waits_ten_seconds() {
    let generator = FakeTrafficGenerator::new(0);
    assert_eq!(generator.next_wait_ms(), 10_000);
}

#[test]
fn very_high_rate_never_waits() {
    let generator = FakeTrafficGenerator::new(4_000_000);
    assert_eq!(generator.next_wait_ms(), 0);
}
