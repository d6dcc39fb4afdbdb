use hoops::charge::{Charge, CHARGE_BAR_MAX_WIDTH_MILLI, MAX_CHARGE_DURATION_MS, PERMILLE};

#[test]
fn initialize_starts_at_rest() {
    let c = Charge::initialize();
    assert!(!c.charging());
    assert_eq!(c.percentage_charged(), 0);
}

#[test]
fn ticking_accumulates_while_charging() {
    let mut c = Charge::initialize();
    c.start_charging();
    assert!(c.charging());
    c.tick(200);
    c.tick(300);
    assert_eq!(c.percentage_charged(), 500);
}

#[test]
fn ticking_without_charging_changes_nothing() {
    let mut c = Charge::initialize();
    c.tick(400);
    assert_eq!(c.percentage_charged(), 0);
    assert!(!c.charging());
}

#[test]
fn ticking_past_the_cap_clamps_to_full() {
    let mut c = Charge::initialize();
    c.start_charging();
    c.tick(MAX_CHARGE_DURATION_MS + 500);
    assert_eq!(c.percentage_charged(), PERMILLE);
    c.tick(100);
    assert_eq!(c.percentage_charged(), PERMILLE);
    c.tick(u32::MAX);
    assert_eq!(c.percentage_charged(), PERMILLE);
}

#[test]
fn release_with_nothing_accumulated_yields_zero() {
    let mut c = Charge::initialize();
    c.start_charging();
    let strength = c.release();
    assert_eq!(strength, 0);
    assert!(!c.charging());
    assert_eq!(c.percentage_charged(), 0);
}

#[test]
fn release_after_a_full_charge_yields_full_strength() {
    let mut c = Charge::initialize();
    c.start_charging();
    c.tick(MAX_CHARGE_DURATION_MS);
    let strength = c.release();
    assert_eq!(strength, PERMILLE);
    assert_eq!(c.percentage_charged(), 0);
}

#[test]
fn start_charging_discards_an_earlier_charge() {
    let mut c = Charge::initialize();
    c.start_charging();
    c.tick(700);
    c.start_charging();
    assert_eq!(c.percentage_charged(), 0);
    assert!(c.charging());
}

#[test]
fn reset_stops_and_clears() {
    let mut c = Charge::initialize();
    c.start_charging();
    c.tick(900);
    c.reset();
    assert!(!c.charging());
    assert_eq!(c.percentage_charged(), 0);
}

#[test]
fn charge_bar_width_scales_with_the_charge() {
    let mut c = Charge::initialize();
    assert_eq!(hoops::charge::update_charge_bar(&c), 0);
    c.start_charging();
    c.tick(500);
    assert_eq!(hoops::charge::update_charge_bar(&c), CHARGE_BAR_MAX_WIDTH_MILLI / 2);
    c.tick(500);
    assert_eq!(hoops::charge::update_charge_bar(&c), CHARGE_BAR_MAX_WIDTH_MILLI);
}
