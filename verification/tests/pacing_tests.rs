use omicron_crawler::linkedin::api::rate_limits::RateLimits;
use omicron_crawler::linkedin::rate_limits::{generate_waits, RateLimiter};

fn sorted(mut v: Vec<u64>) -> Vec<u64> {
    v.sort();
    v
}

#[test]
fn no_rate_means_a_single_zero_wait() {
    assert_eq!(generate_waits(0, 500), vec![0]);
    assert_eq!(RateLimits::generate_random_waits(0), vec![0]);
}

#[test]
fn waits_are_every_second_up_to_the_budget() {
    // 100 requests of 1 s leave 3500 s: 0 + 1 + ... + 83 = 3486 fits, 84 more does not.
    let waits = generate_waits(100, 1000);
    assert_eq!(sorted(waits), (0..=83).collect::<Vec<u64>>());
    // 1000 requests of 428 ms leave 3172 s: n = 79 (3160), 80 would need 3240.
    let waits = RateLimits::generate_random_waits(1000);
    assert_eq!(sorted(waits), (0..=79).collect::<Vec<u64>>());
}

#[test]
fn round_of_waits_fits_within_the_hour() {
    for rate in [1u32, 10, 100, 1000, 5000] {
        let waits = generate_waits(rate, 428);
        let total: u64 = waits.iter().sum();
        assert!(total * 1000 + rate as u64 * 428 <= 3_600_000);
    }
}

#[test]
fn an_hour_filled_by_requests_leaves_only_a_zero_wait() {
    assert_eq!(generate_waits(3600, 1000), vec![0]);
    assert_eq!(generate_waits(4000, 1000), vec![0]);
}

#[test]
fn rate_limiter_hands_out_the_round_in_order_and_repeats() {
    // 3597 requests of 1 s leave 3 s: the waits 0, 1 and 2.
    let mut limiter = RateLimiter::new(3597, 1000);
    let mut seen = Vec::new();
    for _ in 0..6 {
        seen.push(limiter.next().unwrap());
    }
    assert_eq!(sorted(seen[0..3].to_vec()), vec![0, 1, 2]);
    assert_eq!(seen[0..3], seen[3..6]);
}

#[test]
fn rate_limits_move_on_before_reading() {
    // 8409 requests of 428 ms leave under a second: a single zero wait.
    let mut limits = RateLimits::new(8409);
    assert_eq!(limits.next(), Some(0));
    assert_eq!(limits.next(), Some(0));
    // 8405 requests leave 2.66 s: the waits 0 and 1, alternating.
    let mut limits = RateLimits::new(8405);
    let a = limits.next().unwrap();
    let b = limits.next().unwrap();
    let c = limits.next().unwrap();
    assert_eq!(sorted(vec![a, b]), vec![0, 1]);
    assert_eq!(a, c);
}

#[test]
fn limits_hand_out_the_round_in_rotation_over_many_calls() {
    // 8400 requests of 428 ms leave 4.8 s: the waits 0, 1 and 2.
    let mut limits = RateLimits::new(8400);
    let calls: Vec<u64> = (0..9).map(|_| limits.next().unwrap()).collect();
    let mut round = calls[0..3].to_vec();
    round.sort();
    assert_eq!(round, vec![0, 1, 2]);
    assert_eq!(calls[0..3], calls[3..6]);
    assert_eq!(calls[3..6], calls[6..9]);
}
