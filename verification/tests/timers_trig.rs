use constellation_core::timer::Countdown;
use constellation_core::trig::{cos_deg, sin_deg};

#[test]
fn one_shot_countdown_clamps_and_edges_once() {
    let mut c = Countdown::new(1000, false);
    assert!(!c.finished());
    c.tick(600);
    assert!(!c.finished());
    assert!(!c.just_finished());
    c.tick(600);
    assert!(c.finished());
    assert!(c.just_finished());
    c.tick(600);
    assert!(c.finished());
    assert!(!c.just_finished());
    c.reset();
    assert!(!c.finished());
}

#[test]
fn repeating_countdown_wraps_and_reports_each_cycle() {
    let mut c = Countdown::new(500, true);
    c.tick(400);
    assert!(!c.just_finished());
    c.tick(400);
    assert!(c.just_finished());
    assert!(c.finished());
    c.tick(100);
    assert!(!c.just_finished());
    assert!(!c.finished());
    c.tick(200);
    assert!(c.just_finished());
}

#[test]
fn sine_table_hits_the_landmark_angles() {
    assert_eq!(sin_deg(0), 0);
    assert_eq!(sin_deg(30), 500);
    assert_eq!(sin_deg(45), 707);
    assert_eq!(sin_deg(90), 1000);
    assert_eq!(sin_deg(180), 0);
    assert_eq!(sin_deg(270), -1000);
    assert_eq!(sin_deg(-90), -1000);
    assert_eq!(cos_deg(0), 1000);
    assert_eq!(cos_deg(60), 500);
    assert_eq!(cos_deg(90), 0);
    assert_eq!(cos_deg(180), -1000);
}
