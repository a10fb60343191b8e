use access_log::time::Date;
use access_log::time::Timestamp;
use access_log::time::now_timestamp;
use access_log::time::timestamp_from_parts;

#[test]
fn parts_in_range_make_a_timestamp() {
    let t = timestamp_from_parts(2024, 3, 1, 14, 22, 5);
    assert_eq!(
        t,
        Some(Timestamp { date: Date { year: 2024, month: 3, day: 1 }, hour: 14, minute: 22, second: 5 })
    );
}

#[test]
fn year_out_of_range_is_rejected() {
    assert_eq!(timestamp_from_parts(-1, 3, 1, 14, 22, 5), None);
    assert_eq!(timestamp_from_parts(10000, 3, 1, 14, 22, 5), None);
    assert!(timestamp_from_parts(0, 3, 1, 14, 22, 5).is_some());
    assert!(timestamp_from_parts(9999, 3, 1, 14, 22, 5).is_some());
}

#[test]
fn month_and_day_out_of_range_are_rejected() {
    assert_eq!(timestamp_from_parts(2024, 0, 1, 0, 0, 0), None);
    assert_eq!(timestamp_from_parts(2024, 13, 1, 0, 0, 0), None);
    assert_eq!(timestamp_from_parts(2024, 3, 0, 0, 0, 0), None);
    assert_eq!(timestamp_from_parts(2024, 3, 32, 0, 0, 0), None);
}

#[test]
fn clock_parts_out_of_range_are_rejected() {
    assert_eq!(timestamp_from_parts(2024, 3, 1, 24, 0, 0), None);
    assert_eq!(timestamp_from_parts(2024, 3, 1, 0, 60, 0), None);
    assert_eq!(timestamp_from_parts(2024, 3, 1, 0, 0, 60), None);
}

#[test]
fn now_is_a_valid_timestamp() {
    let t = now_timestamp().expect("the wall clock year fits four digits");
    assert!(t.date.year >= 2024 && t.date.year <= 9999);
    assert!(t.date.month >= 1 && t.date.month <= 12);
    assert!(t.date.day >= 1 && t.date.day <= 31);
    assert!(t.hour < 24);
    assert!(t.minute < 60);
    assert!(t.second < 60);
}
