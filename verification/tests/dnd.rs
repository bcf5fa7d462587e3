use swaynoti::config::{DndConfig, Weekday};
use swaynoti::dnd::{DndScheduler, DndState};

fn config(start: Option<&str>, end: Option<&str>, days: Vec<Weekday>) -> DndConfig {
    DndConfig {
        schedule_start: start.map(|s| s.to_string()),
        schedule_end: end.map(|s| s.to_string()),
        schedule_days: days,
    }
}

#[test]
fn new_state_is_off_and_not_manual() {
    let s = DndState::new();
    assert!(!s.is_enabled());
    assert!(!s.is_manual());
    assert_eq!(DndState::default(), s);
}

#[test]
fn manual_operations_mark_the_state_manual() {
    let mut s = DndState::new();
    s.enable();
    assert!(s.is_enabled());
    assert!(s.is_manual());
    let mut s = DndState::new();
    s.disable();
    assert!(!s.is_enabled());
    assert!(s.is_manual());
    let mut s = DndState::new();
    s.toggle();
    assert!(s.is_enabled());
    assert!(s.is_manual());
    s.toggle();
    assert!(!s.is_enabled());
    assert!(s.is_manual());
}

#[test]
fn enable_twice_is_enable_once() {
    let mut once = DndState::new();
    once.enable();
    let mut twice = DndState::new();
    twice.enable();
    twice.enable();
    assert_eq!(once, twice);
}

#[test]
fn schedule_drives_a_state_that_is_not_manual() {
    let mut s = DndState::new();
    s.enable_scheduled();
    assert!(s.is_enabled());
    assert!(!s.is_manual());
    s.disable_scheduled();
    assert!(!s.is_enabled());
    assert!(!s.is_manual());
}

#[test]
fn manual_override_outlasts_the_schedule() {
    let mut s = DndState::new();
    s.enable();
    s.disable_scheduled();
    assert!(s.is_enabled());
    let mut s = DndState::new();
    s.disable();
    s.enable_scheduled();
    assert!(!s.is_enabled());
    assert!(s.is_manual());
}

#[test]
fn schedule_times_are_parsed_as_minutes() {
    let sched = DndScheduler::new(config(Some("22:00"), Some("08:30"), vec![]));
    assert_eq!(sched.schedule(), Some((1320, 510)));
    let sched = DndScheduler::new(config(Some("00:00"), Some("23:59"), vec![]));
    assert_eq!(sched.schedule(), Some((0, 1439)));
    let sched = DndScheduler::new(config(Some("7:15"), Some("09:05"), vec![]));
    assert_eq!(sched.schedule(), Some((435, 545)));
}

#[test]
fn missing_or_invalid_times_give_no_schedule() {
    assert_eq!(DndScheduler::new(config(None, None, vec![])).schedule(), None);
    assert_eq!(DndScheduler::new(config(Some("22:00"), None, vec![])).schedule(), None);
    assert_eq!(DndScheduler::new(config(None, Some("08:00"), vec![])).schedule(), None);
    assert_eq!(DndScheduler::new(config(Some("25:00"), Some("08:00"), vec![])).schedule(), None);
    assert_eq!(DndScheduler::new(config(Some("22:00"), Some("08:60"), vec![])).schedule(), None);
    assert_eq!(DndScheduler::new(config(Some("ten"), Some("08:00"), vec![])).schedule(), None);
    assert_eq!(DndScheduler::new(config(Some(""), Some(""), vec![])).schedule(), None);
}

#[test]
fn same_day_period_is_half_open() {
    let days = vec![];
    let q = |h: u32, m: u32| DndScheduler::is_quiet_at(&days, 9 * 60, 17 * 60, Weekday::Monday, h, m);
    assert!(!q(8, 59));
    assert!(q(9, 0));
    assert!(q(12, 30));
    assert!(q(16, 59));
    assert!(!q(17, 0));
    assert!(!q(23, 59));
    assert!(!q(0, 0));
}

#[test]
fn overnight_period_wraps_midnight() {
    let days = vec![];
    let q = |h: u32, m: u32| DndScheduler::is_quiet_at(&days, 22 * 60, 8 * 60, Weekday::Monday, h, m);
    assert!(q(22, 0));
    assert!(q(23, 59));
    assert!(q(0, 0));
    assert!(q(7, 59));
    assert!(!q(8, 0));
    assert!(!q(12, 0));
    assert!(!q(21, 59));
}

#[test]
fn period_that_ends_where_it_starts_covers_the_day() {
    let days = vec![];
    let q = |h: u32, m: u32| DndScheduler::is_quiet_at(&days, 600, 600, Weekday::Monday, h, m);
    assert!(q(0, 0));
    assert!(q(9, 59));
    assert!(q(10, 0));
    assert!(q(23, 59));
}

#[test]
fn days_restrict_the_schedule() {
    let days = vec![Weekday::Saturday, Weekday::Sunday];
    assert!(DndScheduler::is_scheduled_day(&days, Weekday::Sunday));
    assert!(!DndScheduler::is_scheduled_day(&days, Weekday::Monday));
    assert!(DndScheduler::is_scheduled_day(&vec![], Weekday::Monday));
    assert!(DndScheduler::is_quiet_at(&days, 0, 1439, Weekday::Saturday, 12, 0));
    assert!(!DndScheduler::is_quiet_at(&days, 0, 1439, Weekday::Friday, 12, 0));
}

#[test]
fn apply_sets_the_state_as_the_schedule_asks() {
    let sched = DndScheduler::new(config(Some("22:00"), Some("08:00"), vec![Weekday::Monday]));
    let mut s = DndState::new();
    sched.apply(&mut s, Weekday::Monday, 23, 0);
    assert!(s.is_enabled());
    assert!(!s.is_manual());
    sched.apply(&mut s, Weekday::Monday, 12, 0);
    assert!(!s.is_enabled());
    sched.apply(&mut s, Weekday::Monday, 23, 0);
    assert!(s.is_enabled());
    sched.apply(&mut s, Weekday::Tuesday, 23, 0);
    assert!(!s.is_enabled());
}

#[test]
fn apply_leaves_manual_state_and_unscheduled_state_alone() {
    let sched = DndScheduler::new(config(Some("22:00"), Some("08:00"), vec![]));
    let mut s = DndState::new();
    s.disable();
    sched.apply(&mut s, Weekday::Monday, 23, 0);
    assert!(!s.is_enabled());
    let none = DndScheduler::new(config(None, None, vec![]));
    let mut s = DndState::new();
    s.enable_scheduled();
    none.apply(&mut s, Weekday::Monday, 12, 0);
    assert!(s.is_enabled());
}

#[test]
fn tick_by_the_clock_agrees_with_some_time_of_the_week() {
    let sched = DndScheduler::new(config(Some("00:00"), Some("00:00"), vec![]));
    let mut s = DndState::new();
    sched.tick(&mut s);
    // The period covers every minute of every day.
    assert!(s.is_enabled());
    assert!(!s.is_manual());
    let never = DndScheduler::new(config(Some("00:00"), Some("00:00"), vec![Weekday::Monday]));
    let always = DndScheduler::new(config(
        Some("00:00"),
        Some("00:00"),
        vec![
            Weekday::Monday,
            Weekday::Tuesday,
            Weekday::Wednesday,
            Weekday::Thursday,
            Weekday::Friday,
            Weekday::Saturday,
            Weekday::Sunday,
        ],
    ));
    let mut a = DndState::new();
    always.tick(&mut a);
    assert!(a.is_enabled());
    let mut m = DndState::new();
    m.enable();
    never.tick(&mut m);
    assert!(m.is_enabled());
}
