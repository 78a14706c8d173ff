use timing_game::cue::{Bar, Cue};

#[test]
fn scenario_wide_bar_reverses_at_left_edge() {
    // Bar at center 320 with half width 256: edges at 64 and 576. The cue
    // starts at 336 moving left at 7 units per tick; it passes the left edge
    // (position 63 after 39 ticks) and the next tick reverses it.
    let bar = Bar { center_x: 320, half_width: 256 };
    let mut cue = Cue::spawn(336, false, 7);
    for tick in 1..=39 {
        let reversed = cue.advance(&bar);
        assert!(!reversed, "no reversal expected on tick {}", tick);
    }
    assert_eq!(cue.position_x, 336 - 39 * 7);
    assert_eq!(cue.position_x, 63);
    assert!(!cue.moving_right);
    let reversed = cue.advance(&bar);
    assert!(reversed);
    assert!(cue.moving_right);
    assert_eq!(cue.position_x, 70);
}

#[test]
fn reversal_flips_at_right_edge() {
    let bar = Bar { center_x: 320, half_width: 256 };
    let mut cue = Cue::spawn(577, true, 7);
    let reversed = cue.advance(&bar);
    assert!(reversed);
    assert!(!cue.moving_right);
    assert_eq!(cue.position_x, 570);
}

#[test]
fn exactly_on_the_edge_is_not_beyond_it() {
    // The reversal check is strict: a cue standing exactly on an edge has not
    // crossed it yet.
    let bar = Bar { center_x: 320, half_width: 256 };
    let mut cue = Cue::spawn(576, true, 7);
    let reversed = cue.advance(&bar);
    assert!(!reversed);
    assert_eq!(cue.position_x, 583);
    let reversed = cue.advance(&bar);
    assert!(reversed);
    assert_eq!(cue.position_x, 576);
}

#[test]
fn one_signal_per_tick_even_when_travel_spans_the_bar() {
    // One tick's travel (100) is far wider than the whole bar (half width 2):
    // each tick still raises at most one reversal signal, and signals come on
    // exactly the ticks that start beyond an edge.
    let bar = Bar { center_x: 0, half_width: 2 };
    let mut cue = Cue::spawn(0, true, 100);
    let r1 = cue.advance(&bar);
    assert!(!r1);
    assert_eq!(cue.position_x, 100);
    let r2 = cue.advance(&bar);
    assert!(r2);
    assert!(!cue.moving_right);
    assert_eq!(cue.position_x, 0);
    let r3 = cue.advance(&bar);
    assert!(!r3);
    assert_eq!(cue.position_x, -100);
    let r4 = cue.advance(&bar);
    assert!(r4);
    assert!(cue.moving_right);
    assert_eq!(cue.position_x, 0);
}
