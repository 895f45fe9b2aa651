use rdone::{
    check_date, check_file, check_file_now, clear_config, current_timestamp, prepare, Date, DoneConf,
};

fn record(started: Option<&str>, done: &[&str], date: Date) -> DoneConf {
    DoneConf {
        started: started.map(|s| s.to_string()),
        done: done.iter().map(|s| s.to_string()).collect(),
        date,
    }
}

#[test]
fn clear_gives_empty_record_for_the_day() {
    let c = clear_config(Date::new(2024, 2, 29));
    assert_eq!(c, record(None, &[], Date::new(2024, 2, 29)));
}

#[test]
fn stale_record_is_reset() {
    let mut c = record(Some("C"), &["A", "B"], Date::new(2023, 1, 1));
    assert!(check_date(&mut c, Date::new(2023, 1, 2)));
    assert_eq!(c, record(None, &[], Date::new(2023, 1, 2)));
}

#[test]
fn same_day_record_is_kept() {
    let mut c = record(Some("C"), &["A", "B"], Date::new(2023, 1, 1));
    let before = c.clone();
    assert!(!check_date(&mut c, Date::new(2023, 1, 1)));
    assert_eq!(c, before);
}

#[test]
fn reset_twice_is_reset_once() {
    let today = Date::new(2023, 1, 2);
    let mut c = record(Some("C"), &["A"], Date::new(2023, 1, 1));
    assert!(check_date(&mut c, today));
    let once = c.clone();
    assert!(!check_date(&mut c, today));
    assert_eq!(c, once);
}

#[test]
fn other_year_or_month_resets() {
    let mut c = record(None, &["A"], Date::new(2022, 1, 2));
    assert!(check_date(&mut c, Date::new(2023, 1, 2)));
    assert!(c.done.is_empty());
    let mut d = record(None, &["A"], Date::new(2023, 2, 2));
    assert!(check_date(&mut d, Date::new(2023, 1, 2)));
    assert_eq!(d.date, Date::new(2023, 1, 2));
}

#[test]
fn missing_record_is_created() {
    let (c, write) = check_file(None, Date::new(2023, 5, 6));
    assert!(write);
    assert_eq!(c, record(None, &[], Date::new(2023, 5, 6)));
}

#[test]
fn loaded_record_is_kept_whatever_its_date() {
    let loaded = record(Some("B"), &["A"], Date::new(2023, 1, 1));
    let (c, write) = check_file(Some(loaded.clone()), Date::new(2023, 1, 2));
    assert!(!write);
    assert_eq!(c, loaded);
}

#[test]
fn prepare_keeps_record_of_today() {
    let loaded = record(Some("B"), &["A"], Date::new(2023, 5, 6));
    let (c, write) = prepare(Some(loaded.clone()), Date::new(2023, 5, 6));
    assert!(!write);
    assert_eq!(c, loaded);
}

#[test]
fn prepare_resets_stale_record() {
    let loaded = record(Some("C"), &["A", "B"], Date::new(2023, 1, 1));
    let (c, write) = prepare(Some(loaded), Date::new(2023, 1, 2));
    assert!(write);
    assert_eq!(c, record(None, &[], Date::new(2023, 1, 2)));
}

#[test]
fn prepare_creates_missing_record() {
    let (c, write) = prepare(None, Date::new(2023, 5, 6));
    assert!(write);
    assert_eq!(c, record(None, &[], Date::new(2023, 5, 6)));
}

fn month_length(year: i32, month: u32) -> u32 {
    let leap = year % 4 == 0 && (year % 100 != 0 || year % 400 == 0);
    match month {
        2 if leap => 29,
        2 => 28,
        4 | 6 | 9 | 11 => 30,
        _ => 31,
    }
}

#[test]
fn clock_gives_a_calendar_date() {
    let d = current_timestamp().expect("the clock reads after 1970");
    assert!((1..=12).contains(&d.month));
    assert!(1 <= d.day && d.day <= month_length(d.year, d.month));
    assert!(d.year >= 2000);
}

#[test]
fn check_file_now_dates_a_new_record_today() {
    let (c, write) = check_file_now(None).expect("the clock reads after 1970");
    assert!(write);
    assert!(c.started.is_none() && c.done.is_empty());
    let stale = record(Some("X"), &["A"], Date::new(1999, 1, 1));
    let (d, write) = check_file_now(Some(stale)).expect("the clock reads after 1970");
    assert!(write);
    assert!(d.started.is_none() && d.done.is_empty());
    assert_ne!(d.date, Date::new(1999, 1, 1));
}
