use click::clock::{date_text, time_text, DisplayClock, Moment};
use click::config::DisplayConfig;
use std::sync::{Arc, RwLock};

fn settings(show_seconds: bool, standard_time: bool) -> DisplayConfig {
    DisplayConfig { show_seconds, centerize_text: false, standard_time, hide_date: false }
}

fn afternoon() -> Moment {
    Moment::new(2024, 3, 9, 13, 5, 9).unwrap()
}

#[test]
fn known_instant_in_both_hour_formats() {
    let t = afternoon();
    assert_eq!(time_text(&t, &settings(true, false)), "13:05:09");
    assert_eq!(time_text(&t, &settings(true, true)), "01:05:09 [PM]");
    assert_eq!(time_text(&t, &settings(false, false)), "13:05");
    assert_eq!(time_text(&t, &settings(false, true)), "01:05 [PM]");
}

#[test]
fn date_carries_marker_in_standard_time() {
    let t = afternoon();
    assert_eq!(date_text(&t, &settings(true, false)), "2024-03-09");
    assert_eq!(date_text(&t, &settings(true, true)), "2024-03-09 [PM]");
}

#[test]
fn midnight_and_noon_on_twelve_hour_clock() {
    let midnight = Moment::new(1999, 12, 31, 0, 0, 7).unwrap();
    assert_eq!(time_text(&midnight, &settings(true, true)), "12:00:07 [AM]");
    assert_eq!(date_text(&midnight, &settings(false, true)), "1999-12-31 [AM]");
    let noon = Moment::new(2000, 1, 1, 12, 30, 0).unwrap();
    assert_eq!(time_text(&noon, &settings(false, true)), "12:30 [PM]");
}

#[test]
fn years_outside_four_digits() {
    let early = Moment::new(42, 1, 2, 3, 4, 5).unwrap();
    assert_eq!(date_text(&early, &settings(false, false)), "0042-01-02");
    let late = Moment::new(12345, 6, 7, 8, 9, 10).unwrap();
    assert_eq!(date_text(&late, &settings(false, false)), "+12345-06-07");
    let negative = Moment::new(-7, 6, 7, 8, 9, 10).unwrap();
    assert_eq!(date_text(&negative, &settings(false, false)), "-0007-06-07");
}

#[test]
fn moment_checks_its_fields() {
    assert!(Moment::new(2023, 2, 29, 0, 0, 0).is_none());
    assert!(Moment::new(2024, 2, 29, 0, 0, 0).is_some());
    assert!(Moment::new(1900, 2, 29, 0, 0, 0).is_none());
    assert!(Moment::new(2000, 2, 29, 0, 0, 0).is_some());
    assert!(Moment::new(2024, 4, 31, 0, 0, 0).is_none());
    assert!(Moment::new(2024, 13, 1, 0, 0, 0).is_none());
    assert!(Moment::new(2024, 1, 0, 0, 0, 0).is_none());
    assert!(Moment::new(2024, 1, 1, 24, 0, 0).is_none());
    assert!(Moment::new(2024, 1, 1, 0, 60, 0).is_none());
    assert!(Moment::new(2024, 1, 1, 0, 0, 60).is_none());
    assert!(Moment::new(300000, 1, 1, 0, 0, 0).is_none());
}

#[test]
fn clock_reads_shared_settings() {
    let shared = Arc::new(RwLock::new(settings(true, false)));
    let clock = DisplayClock::at(shared.clone(), afternoon());
    assert_eq!(clock.time(), "13:05:09");
    assert_eq!(clock.date(), "2024-03-09");
    shared.write().unwrap().standard_time = true;
    assert_eq!(clock.time(), "01:05:09 [PM]");
    assert_eq!(clock.date(), "2024-03-09 [PM]");
}

#[test]
fn clock_on_current_time() {
    let shared = Arc::new(RwLock::new(settings(false, false)));
    let mut clock = DisplayClock::new(shared);
    clock.update();
    let t = clock.time();
    assert_eq!(t.chars().count(), 5);
    assert_eq!(t.chars().nth(2), Some(':'));
    assert_eq!(clock.date().chars().count(), 10);
}

#[test]
fn update_keeps_settings_handle() {
    let shared = Arc::new(RwLock::new(settings(true, false)));
    let mut clock = DisplayClock::at(shared.clone(), afternoon());
    clock.update();
    shared.write().unwrap().show_seconds = false;
    assert_eq!(clock.time().chars().count(), 5);
    shared.write().unwrap().show_seconds = true;
    assert_eq!(clock.time().chars().count(), 8);
}
