use timing_game::timer::RoundTimer;

#[test]
fn counts_the_delta_down() {
    let mut t = RoundTimer::new(10_000);
    assert_eq!(t.remaining, 10_000);
    assert!(!t.tick(3));
    assert_eq!(t.remaining, 9_997);
    assert!(!t.tick(9_996));
    assert_eq!(t.remaining, 1);
}

#[test]
fn expiry_resets_to_the_limit() {
    let mut t = RoundTimer::new(10_000);
    assert!(!t.tick(9_999));
    assert!(t.tick(1));
    assert_eq!(t.remaining, 10_000);
    assert_eq!(t.limit, 10_000);
}

#[test]
fn a_delta_past_zero_also_fires() {
    let mut t = RoundTimer::new(100);
    assert!(t.tick(5_000));
    assert_eq!(t.remaining, 100);
}
