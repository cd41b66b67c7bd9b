use my_reverse_proxy::ip_blocklist::{
    blocked_ip_message, FailureSeverity, IpBlocklist, BLOCK_SECS, HARD_FAIL_THRESHOLD, MICROS_PER_SECOND,
    SOFT_FAIL_THRESHOLD, WINDOW_SECS,
};

const SEC: i64 = MICROS_PER_SECOND;
const IP: (bool, u128) = (false, 0x0a00_0001); // 10.0.0.1

#[test]
fn five_hard_failures_block_and_four_do_not() {
    let mut b = IpBlocklist::new();
    let now = 1_000 * SEC;
    for i in 1..HARD_FAIL_THRESHOLD {
        let out = b.register_failure_at(IP, FailureSeverity::Hard, now);
        assert!(!out.newly_blocked);
        assert_eq!(out.hard_count, i);
    }
    assert!(!b.is_blocked_at(IP, now));
    let out = b.register_failure_at(IP, FailureSeverity::Hard, now);
    assert!(out.newly_blocked);
    assert_eq!(out.hard_count, 5);
    assert_eq!(out.soft_count, 0);
    assert!(b.is_blocked_at(IP, now));
}

#[test]
fn soft_failures_must_pile_up_to_thirty() {
    let mut b = IpBlocklist::new();
    let now = 50 * SEC;
    for _ in 1..SOFT_FAIL_THRESHOLD {
        assert!(!b.register_failure_at(IP, FailureSeverity::Soft, now).newly_blocked);
    }
    assert!(!b.is_blocked_at(IP, now));
    let out = b.register_failure_at(IP, FailureSeverity::Soft, now);
    assert!(out.newly_blocked);
    assert_eq!(out.soft_count, 30);
    assert!(b.is_blocked_at(IP, now));
}

#[test]
fn a_block_lasts_five_minutes() {
    let mut b = IpBlocklist::new();
    let now = 7 * SEC;
    for _ in 0..5 {
        b.register_failure_at(IP, FailureSeverity::Hard, now);
    }
    assert!(b.is_blocked_at(IP, now + BLOCK_SECS * SEC - 1));
    assert!(!b.is_blocked_at(IP, now + BLOCK_SECS * SEC));
}

#[test]
fn further_failures_while_blocked_are_not_new_blocks() {
    let mut b = IpBlocklist::new();
    for _ in 0..5 {
        b.register_failure_at(IP, FailureSeverity::Hard, 0);
    }
    let out = b.register_failure_at(IP, FailureSeverity::Hard, SEC);
    assert!(!out.newly_blocked);
    assert_eq!(out.hard_count, 6);
    assert!(b.is_blocked_at(IP, SEC));
}

#[test]
fn failures_outside_the_window_are_forgotten() {
    let mut b = IpBlocklist::new();
    for _ in 0..4 {
        b.register_failure_at(IP, FailureSeverity::Hard, 0);
    }
    // 15 full seconds is still inside the window.
    let out = b.register_failure_at(IP, FailureSeverity::Soft, WINDOW_SECS * SEC);
    assert_eq!(out.hard_count, 4);
    // 16 full seconds later the window restarts.
    let out = b.register_failure_at(IP, FailureSeverity::Hard, (WINDOW_SECS + 1) * SEC);
    assert_eq!(out.hard_count, 1);
    assert_eq!(out.soft_count, 0);
    assert!(!out.newly_blocked);
}

#[test]
fn allow_listed_addresses_are_never_counted_nor_blocked() {
    let mut b = IpBlocklist::new();
    b.set_white_list(Some(vec![((false, IP.1 - 1), (false, IP.1 + 1))]));
    assert!(b.is_white_listed(IP));
    for _ in 0..10 {
        let out = b.register_failure_at(IP, FailureSeverity::Hard, 0);
        assert!(!out.newly_blocked);
        assert_eq!(out.hard_count, 0);
    }
    assert!(!b.is_blocked_at(IP, 0));
    assert!(!b.is_white_listed((false, IP.1 + 2)));
    assert!(!b.is_white_listed((true, IP.1)));
}

#[test]
fn an_empty_allow_list_disables_it() {
    let mut b = IpBlocklist::new();
    b.set_white_list(Some(vec![]));
    assert!(!b.is_white_listed(IP));
    b.set_white_list(None);
    assert!(!b.is_white_listed(IP));
}

#[test]
fn success_and_unblock_forget_the_address() {
    let mut b = IpBlocklist::new();
    for _ in 0..5 {
        b.register_failure_at(IP, FailureSeverity::Hard, 0);
    }
    assert!(b.is_blocked_at(IP, 1));
    b.register_success(IP);
    assert!(!b.is_blocked_at(IP, 1));
    assert!(!b.unblock(IP));
    for _ in 0..5 {
        b.register_failure_at(IP, FailureSeverity::Hard, 0);
    }
    assert!(b.unblock(IP));
    assert!(!b.is_blocked_at(IP, 1));
}

#[test]
fn cleanup_keeps_blocks_and_drops_stale_records() {
    let mut b = IpBlocklist::new();
    let other: (bool, u128) = (false, IP.1 + 100);
    for _ in 0..5 {
        b.register_failure_at(IP, FailureSeverity::Hard, 0);
    }
    b.register_failure_at(other, FailureSeverity::Soft, 0);
    assert_eq!(b.cleanup_at(SEC), 1);
    // other's window expired, IP is still blocked
    assert_eq!(b.cleanup_at(20 * SEC), 1);
    assert!(b.is_blocked_at(IP, 20 * SEC));
    let out = b.register_failure_at(other, FailureSeverity::Soft, 20 * SEC);
    assert_eq!(out.soft_count, 1);
    assert_eq!(b.cleanup_at(BLOCK_SECS * SEC + 1), 0);
}

#[test]
fn a_new_block_is_logged_with_its_counts() {
    let mut b = IpBlocklist::new();
    let mut last = None;
    for _ in 0..5 {
        last = Some(b.register_failure_at(IP, FailureSeverity::Hard, 0));
    }
    let msg = blocked_ip_message("10.0.0.1", &last.unwrap());
    assert_eq!(msg, "Blocked IP 10.0.0.1 for 300s (5 hard / 0 soft failures within 15s)");
}

#[test]
fn an_ipv4_address_and_its_mapped_ipv6_form_are_counted_apart() {
    let mut b = IpBlocklist::new();
    let mapped: (bool, u128) = (true, 0xffff_0000_0000 | IP.1);
    for _ in 0..5 {
        b.register_failure_at(IP, FailureSeverity::Hard, 0);
    }
    assert!(b.is_blocked_at(IP, 1));
    assert!(!b.is_blocked_at(mapped, 1));
    assert_eq!(b.register_failure_at(mapped, FailureSeverity::Hard, 1).hard_count, 1);
}
