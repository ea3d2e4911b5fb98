use admission_gate::model::MAX_ROUTES;
use admission_gate::{Nanos, RateLimiter};

const MS: Nanos = 1_000_000;

fn tcp_flow() -> (u32, u8, u16) {
    (u32::from_be_bytes([192, 168, 1, 1]), 6, 8080)
}

#[test]
fn test_cleanup_old_requests() {
    let mut rate_limiter = RateLimiter::new(true, 5, 100 * MS, 50 * MS);

    let src_ip = u32::from_be_bytes([192, 168, 1, 1]);
    let protocol = 6; // TCP
    let dest_port = 8080;

    // Two admissions are on record, one of them older than the window.
    let now: Nanos = 1_000 * MS;
    assert!(rate_limiter.is_allowed_at(src_ip, protocol, dest_port, now - 50 * MS));
    assert!(rate_limiter.is_allowed_at(src_ip, protocol, dest_port, now - 200 * MS));

    assert_eq!(
        rate_limiter
            .timestamps(src_ip, protocol, dest_port)
            .unwrap()
            .len(),
        2
    );

    rate_limiter.cleanup_old_requests_at(now);

    // Only the admission within the window remains.
    assert_eq!(
        rate_limiter
            .timestamps(src_ip, protocol, dest_port)
            .unwrap()
            .len(),
        1
    );
    assert_eq!(
        rate_limiter.timestamps(src_ip, protocol, dest_port),
        Some(vec![now - 50 * MS])
    );
}

#[test]
fn new_reduces_the_limit_by_one_above_one() {
    assert_eq!(RateLimiter::new(true, 0, MS, MS).max_requests(), 0);
    assert_eq!(RateLimiter::new(true, 1, MS, MS).max_requests(), 1);
    assert_eq!(RateLimiter::new(true, 2, MS, MS).max_requests(), 1);
    assert_eq!(RateLimiter::new(true, 5, MS, MS).max_requests(), 4);
    assert_eq!(
        RateLimiter::new(true, usize::MAX, MS, MS).max_requests(),
        usize::MAX - 1
    );
}

#[test]
fn new_limiter_is_empty_and_keeps_its_settings() {
    let limiter = RateLimiter::new(false, 5, 100 * MS, 50 * MS);
    assert!(!limiter.is_enabled());
    assert_eq!(limiter.route_count(), 0);
    assert_eq!(limiter.max_routes(), 50);
    assert_eq!(MAX_ROUTES, 50);
    assert_eq!(limiter.window(), 100 * MS);
    let (ip, protocol, port) = tcp_flow();
    assert_eq!(limiter.timestamps(ip, protocol, port), None);
}

#[test]
fn fifth_request_in_window_is_denied() {
    let mut limiter = RateLimiter::new(true, 5, 100 * MS, 50 * MS);
    let (ip, protocol, port) = tcp_flow();
    let start: Nanos = 7 * MS;
    assert!(limiter.is_allowed_at(ip, protocol, port, start));
    assert!(limiter.is_allowed_at(ip, protocol, port, start + MS));
    assert!(limiter.is_allowed_at(ip, protocol, port, start + 2 * MS));
    assert!(limiter.is_allowed_at(ip, protocol, port, start + 3 * MS));
    assert!(!limiter.is_allowed_at(ip, protocol, port, start + 4 * MS));
    // A denied request is not recorded.
    assert_eq!(
        limiter.timestamps(ip, protocol, port),
        Some(vec![start, start + MS, start + 2 * MS, start + 3 * MS])
    );
}

#[test]
fn nth_request_admitted_up_to_the_limit() {
    for configured in 2..8usize {
        let mut limiter = RateLimiter::new(true, configured, 100 * MS, 50 * MS);
        let (ip, protocol, port) = tcp_flow();
        for n in 1..=10usize {
            let allowed = limiter.is_allowed_at(ip, protocol, port, 5 * MS);
            assert_eq!(allowed, n <= configured - 1);
        }
    }
}

#[test]
fn limit_of_zero_admits_nothing_but_tracks_the_flow() {
    let mut limiter = RateLimiter::new(true, 0, 100 * MS, 50 * MS);
    let (ip, protocol, port) = tcp_flow();
    assert!(!limiter.is_allowed_at(ip, protocol, port, 3 * MS));
    assert_eq!(limiter.timestamps(ip, protocol, port), Some(vec![]));
    assert_eq!(limiter.route_count(), 1);
    limiter.cleanup_old_requests_at(3 * MS);
    assert_eq!(limiter.route_count(), 0);
    assert_eq!(limiter.timestamps(ip, protocol, port), None);
}

#[test]
fn request_admitted_again_once_the_window_has_passed() {
    let mut limiter = RateLimiter::new(true, 3, 100 * MS, 50 * MS);
    let (ip, protocol, port) = tcp_flow();
    let start: Nanos = 500 * MS;
    assert!(limiter.is_allowed_at(ip, protocol, port, start));
    assert!(limiter.is_allowed_at(ip, protocol, port, start));
    assert!(!limiter.is_allowed_at(ip, protocol, port, start + MS));
    assert!(!limiter.is_allowed_at(ip, protocol, port, start + 99 * MS));
    // Exactly one window later both admissions still count.
    assert!(!limiter.is_allowed_at(ip, protocol, port, start + 100 * MS));
    // One nanosecond more and the window has slid past them.
    assert!(limiter.is_allowed_at(ip, protocol, port, start + 100 * MS + 1));
    assert_eq!(
        limiter.timestamps(ip, protocol, port),
        Some(vec![start + 100 * MS + 1])
    );
}

#[test]
fn window_slides_one_admission_at_a_time() {
    let mut limiter = RateLimiter::new(true, 3, 100 * MS, 50 * MS);
    let (ip, protocol, port) = tcp_flow();
    assert!(limiter.is_allowed_at(ip, protocol, port, 0));
    assert!(limiter.is_allowed_at(ip, protocol, port, 60 * MS));
    assert!(!limiter.is_allowed_at(ip, protocol, port, 90 * MS));
    // The first admission has left the window, the second has not.
    assert!(limiter.is_allowed_at(ip, protocol, port, 101 * MS));
    assert_eq!(
        limiter.timestamps(ip, protocol, port),
        Some(vec![60 * MS, 101 * MS])
    );
    assert!(!limiter.is_allowed_at(ip, protocol, port, 102 * MS));
}

#[test]
fn fifty_first_flow_is_denied() {
    let mut limiter = RateLimiter::new(true, 5, 100 * MS, 50 * MS);
    let now: Nanos = 10 * MS;
    for i in 0..50u32 {
        assert!(limiter.is_allowed_at(0x0A00_0000 + i, 17, 53, now));
    }
    assert_eq!(limiter.route_count(), 50);
    // The table is full: a new flow is denied and not tracked.
    assert!(!limiter.is_allowed_at(0x0A00_0000 + 50, 17, 53, now));
    assert_eq!(limiter.route_count(), 50);
    assert_eq!(limiter.timestamps(0x0A00_0000 + 50, 17, 53), None);
    // The tracked flows are served as before: three more each, then no more.
    for i in 0..50u32 {
        assert!(limiter.is_allowed_at(0x0A00_0000 + i, 17, 53, now + 1));
        assert!(limiter.is_allowed_at(0x0A00_0000 + i, 17, 53, now + 2));
        assert!(limiter.is_allowed_at(0x0A00_0000 + i, 17, 53, now + 3));
        assert!(!limiter.is_allowed_at(0x0A00_0000 + i, 17, 53, now + 4));
    }
    assert_eq!(limiter.route_count(), 50);
}

#[test]
fn table_never_exceeds_the_cap() {
    let mut limiter = RateLimiter::new(true, 5, 100 * MS, 50 * MS);
    for i in 0..200u32 {
        let allowed = limiter.is_allowed_at(i, 6, 443, i as Nanos);
        assert_eq!(allowed, i < 50);
        assert!(limiter.route_count() <= 50);
    }
}

#[test]
fn cleaning_makes_room_for_new_flows() {
    let mut limiter = RateLimiter::new(true, 5, 100 * MS, 50 * MS);
    for i in 0..50u32 {
        assert!(limiter.is_allowed_at(i, 6, 443, 0));
    }
    assert!(!limiter.is_allowed_at(50, 6, 443, 200 * MS));
    // Without cleaning, a stale flow keeps its place in the table.
    assert_eq!(limiter.route_count(), 50);
    limiter.cleanup_old_requests_at(200 * MS);
    assert_eq!(limiter.route_count(), 0);
    assert!(limiter.is_allowed_at(50, 6, 443, 200 * MS));
    assert_eq!(limiter.route_count(), 1);
}

#[test]
fn cleanup_keeps_what_still_counts() {
    let mut limiter = RateLimiter::new(true, 5, 100 * MS, 50 * MS);
    assert!(limiter.is_allowed_at(1, 6, 80, 0));
    assert!(limiter.is_allowed_at(1, 6, 80, 40 * MS));
    assert!(limiter.is_allowed_at(1, 6, 80, 90 * MS));
    assert!(limiter.is_allowed_at(2, 6, 80, 10 * MS));
    assert!(limiter.is_allowed_at(3, 6, 80, 95 * MS));
    limiter.cleanup_old_requests_at(140 * MS);
    // Age exactly one window: kept. Older: dropped.
    assert_eq!(limiter.timestamps(1, 6, 80), Some(vec![40 * MS, 90 * MS]));
    assert_eq!(limiter.timestamps(2, 6, 80), None);
    assert_eq!(limiter.timestamps(3, 6, 80), Some(vec![95 * MS]));
    assert_eq!(limiter.route_count(), 2);
    // Cleaning a second time at the same moment changes nothing.
    limiter.cleanup_old_requests_at(140 * MS);
    assert_eq!(limiter.timestamps(1, 6, 80), Some(vec![40 * MS, 90 * MS]));
    assert_eq!(limiter.route_count(), 2);
}

#[test]
fn source_port_is_not_part_of_the_flow() {
    let mut limiter = RateLimiter::new(true, 3, 100 * MS, 50 * MS);
    let (ip, protocol, port) = tcp_flow();
    assert!(limiter.is_allowed_at(ip, protocol, port, 0));
    assert!(limiter.is_allowed_at(ip, protocol, port, 0));
    assert!(!limiter.is_allowed_at(ip, protocol, port, 0));
    // Another address, protocol or destination port is another flow.
    assert!(limiter.is_allowed_at(ip + 1, protocol, port, 0));
    assert!(limiter.is_allowed_at(ip, 17, port, 0));
    assert!(limiter.is_allowed_at(ip, protocol, port + 1, 0));
    assert_eq!(limiter.route_count(), 4);
}

#[test]
fn a_request_prunes_only_its_own_flow() {
    let mut limiter = RateLimiter::new(true, 5, 100 * MS, 50 * MS);
    assert!(limiter.is_allowed_at(1, 6, 80, 0));
    assert!(limiter.is_allowed_at(2, 6, 80, 0));
    assert!(limiter.is_allowed_at(1, 6, 80, 300 * MS));
    assert_eq!(limiter.timestamps(1, 6, 80), Some(vec![300 * MS]));
    assert_eq!(limiter.timestamps(2, 6, 80), Some(vec![0]));
}

#[test]
fn set_enabled_changes_only_the_switch() {
    let mut limiter = RateLimiter::new(true, 5, 100 * MS, 50 * MS);
    assert!(limiter.is_allowed_at(1, 6, 80, 0));
    limiter.set_enabled(false);
    assert!(!limiter.is_enabled());
    assert_eq!(limiter.timestamps(1, 6, 80), Some(vec![0]));
    assert_eq!(limiter.max_requests(), 4);
    limiter.set_enabled(true);
    assert!(limiter.is_enabled());
}

#[test]
fn clone_is_independent() {
    let mut limiter = RateLimiter::new(true, 2, 100 * MS, 50 * MS);
    assert!(limiter.is_allowed_at(1, 6, 80, 0));
    let mut copy = limiter.clone();
    assert_eq!(copy.timestamps(1, 6, 80), Some(vec![0]));
    assert!(!copy.is_allowed_at(1, 6, 80, 0));
    assert!(copy.is_allowed_at(2, 6, 80, 0));
    assert_eq!(limiter.route_count(), 1);
    assert_eq!(copy.route_count(), 2);
}

#[test]
fn requests_by_the_clock_stay_within_a_long_window() {
    let hour: Nanos = 3_600_000 * MS;
    let mut limiter = RateLimiter::new(true, 5, hour, 50 * MS);
    let (ip, protocol, port) = tcp_flow();
    assert!(limiter.is_allowed(ip, protocol, port));
    assert!(limiter.is_allowed(ip, protocol, port));
    assert!(limiter.is_allowed(ip, protocol, port));
    assert!(limiter.is_allowed(ip, protocol, port));
    assert!(!limiter.is_allowed(ip, protocol, port));
    limiter.cleanup_old_requests();
    assert_eq!(limiter.timestamps(ip, protocol, port).unwrap().len(), 4);
    let recorded = limiter.timestamps(ip, protocol, port).unwrap();
    // The clock does not run backwards.
    assert!(recorded.windows(2).all(|pair| pair[0] <= pair[1]));
}
