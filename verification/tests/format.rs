use access_log::event::AccessEvent;
use access_log::render::bool_token;
use access_log::render::format_event_line;
use access_log::render::format_timestamp;
use access_log::time::Date;
use access_log::time::Timestamp;

fn ts(year: u16, month: u8, day: u8, hour: u8, minute: u8, second: u8) -> Timestamp {
    Timestamp { date: Date { year, month, day }, hour, minute, second }
}

#[test]
fn incoming_line_exact() {
    let event = AccessEvent::Incoming {
        ip: String::from("10.0.0.5"),
        user: String::from("alice"),
        method: String::from("password"),
    };
    let line = format_event_line(&ts(2024, 3, 1, 14, 22, 5), &event);
    assert_eq!(line, "[2024-03-01 14:22:05] INCOMING ip=10.0.0.5 user=alice method=password\n");
}

#[test]
fn connect_result_failure_line_exact() {
    let event = AccessEvent::ConnectResult {
        ip: String::from("10.0.0.5"),
        user: String::from("alice"),
        method: String::from("password"),
        ok: false,
        msg: String::from("bad credentials"),
    };
    let line = format_event_line(&ts(2024, 3, 1, 14, 22, 5), &event);
    assert_eq!(
        line,
        "[2024-03-01 14:22:05] CONNECT_RESULT ip=10.0.0.5 user=alice method=password ok=false msg=bad credentials\n"
    );
}

#[test]
fn connect_result_success_line_exact() {
    let event = AccessEvent::ConnectResult {
        ip: String::from("192.168.1.9"),
        user: String::from("bob"),
        method: String::from("key"),
        ok: true,
        msg: String::from("authorized"),
    };
    let line = format_event_line(&ts(2023, 12, 31, 23, 59, 59), &event);
    assert_eq!(
        line,
        "[2023-12-31 23:59:59] CONNECT_RESULT ip=192.168.1.9 user=bob method=key ok=true msg=authorized\n"
    );
}

#[test]
fn file_transfer_line_exact() {
    let event = AccessEvent::FileTransfer {
        ip: String::from("10.0.0.5"),
        user: String::from("alice"),
        path: String::from("/home/alice/report.pdf"),
        success: true,
    };
    let line = format_event_line(&ts(2024, 3, 1, 9, 0, 0), &event);
    assert_eq!(
        line,
        "[2024-03-01 09:00:00] FILE_TRANSFER ip=10.0.0.5 user=alice path=/home/alice/report.pdf success=true\n"
    );
}

#[test]
fn disconnect_line_exact() {
    let event = AccessEvent::Disconnect {
        ip: String::from("10.0.0.5"),
        user: String::from("alice"),
        reason: String::from("session closed by peer"),
    };
    let line = format_event_line(&ts(2024, 3, 1, 18, 45, 30), &event);
    assert_eq!(
        line,
        "[2024-03-01 18:45:30] DISCONNECT ip=10.0.0.5 user=alice reason=session closed by peer\n"
    );
}

#[test]
fn timestamp_prefix_zero_padded() {
    assert_eq!(format_timestamp(&ts(2024, 1, 2, 3, 4, 5)), "[2024-01-02 03:04:05]");
}

#[test]
fn timestamp_prefix_smallest_components() {
    assert_eq!(format_timestamp(&ts(1, 1, 1, 0, 0, 0)), "[0001-01-01 00:00:00]");
}

#[test]
fn timestamp_prefix_largest_components() {
    assert_eq!(format_timestamp(&ts(9999, 12, 31, 23, 59, 59)), "[9999-12-31 23:59:59]");
}

#[test]
fn bool_tokens_are_literal() {
    assert_eq!(bool_token(true), "true");
    assert_eq!(bool_token(false), "false");
}

#[test]
fn field_values_are_verbatim() {
    let event = AccessEvent::Disconnect {
        ip: String::from("::1"),
        user: String::from("eve=admin"),
        reason: String::from("msg with spaces, = signs and \"quotes\""),
    };
    let line = format_event_line(&ts(2024, 6, 15, 12, 0, 0), &event);
    assert_eq!(
        line,
        "[2024-06-15 12:00:00] DISCONNECT ip=::1 user=eve=admin reason=msg with spaces, = signs and \"quotes\"\n"
    );
}

#[test]
fn sequential_events_make_one_line_each_in_order() {
    let stamp = ts(2024, 3, 1, 10, 0, 0);
    let events = [
        AccessEvent::Incoming {
            ip: String::from("10.0.0.5"),
            user: String::from("alice"),
            method: String::from("password"),
        },
        AccessEvent::ConnectResult {
            ip: String::from("10.0.0.5"),
            user: String::from("alice"),
            method: String::from("password"),
            ok: true,
            msg: String::from("ok"),
        },
        AccessEvent::Disconnect {
            ip: String::from("10.0.0.5"),
            user: String::from("alice"),
            reason: String::from("bye"),
        },
    ];
    let mut content = String::new();
    for event in &events {
        content.push_str(&format_event_line(&stamp, event));
    }
    let lines: Vec<&str> = content.lines().collect();
    assert_eq!(lines.len(), 3);
    assert!(lines[0].contains("INCOMING"));
    assert!(lines[1].contains("CONNECT_RESULT"));
    assert!(lines[2].contains("DISCONNECT"));
    assert_eq!(content.matches('\n').count(), 3);
}
