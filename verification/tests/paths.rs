use access_log::path::access_log_dir;
use access_log::path::access_log_file_name;
use access_log::path::access_log_path;
use access_log::time::Date;

#[test]
fn directory_under_base() {
    assert_eq!(access_log_dir("/var/appdata"), "/var/appdata/RustDesk/log/access_log");
}

#[test]
fn file_name_for_one_day() {
    let d = Date { year: 2024, month: 3, day: 1 };
    assert_eq!(access_log_file_name(d), "rustdesk_2024-03-01.log");
}

#[test]
fn full_path_exact() {
    let d = Date { year: 2024, month: 3, day: 1 };
    assert_eq!(
        access_log_path("/var/appdata", d),
        "/var/appdata/RustDesk/log/access_log/rustdesk_2024-03-01.log"
    );
}

#[test]
fn same_day_resolves_to_same_path() {
    let d = Date { year: 2024, month: 3, day: 1 };
    let first = access_log_path(".", d);
    let second = access_log_path(".", d);
    assert_eq!(first, second);
}

#[test]
fn date_rollover_resolves_to_distinct_paths() {
    let before = Date { year: 2024, month: 3, day: 1 };
    let after = Date { year: 2024, month: 3, day: 2 };
    assert_ne!(access_log_path(".", before), access_log_path(".", after));
}

#[test]
fn year_rollover_resolves_to_distinct_paths() {
    let before = Date { year: 2023, month: 12, day: 31 };
    let after = Date { year: 2024, month: 1, day: 1 };
    assert_ne!(access_log_path(".", before), access_log_path(".", after));
}

#[test]
fn single_digit_components_are_zero_padded() {
    let d = Date { year: 987, month: 4, day: 9 };
    assert_eq!(access_log_file_name(d), "rustdesk_0987-04-09.log");
}
