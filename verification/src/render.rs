//! Fixed-width decimal rendering and the one-line text form of each
//! access event.
use vstd::prelude::*;
use vstd::string::StringExecFns;

use crate::event::AccessEvent;
use crate::event::event_fields_no_newline;
use crate::event::no_newline;
use crate::time::Date;
use crate::time::Timestamp;

verus! {

/// The decimal digit character for a value below ten.
pub open spec fn digit_char(d: nat) -> char {
    if d == 0 {
        '0'
    } else if d == 1 {
        '1'
    } else if d == 2 {
        '2'
    } else if d == 3 {
        '3'
    } else if d == 4 {
        '4'
    } else if d == 5 {
        '5'
    } else if d == 6 {
        '6'
    } else if d == 7 {
        '7'
    } else if d == 8 {
        '8'
    } else {
        '9'
    }
}

/// Two decimal digits, zero padded.
pub open spec fn spec_pad2(n: nat) -> Seq<char> {
    seq![digit_char(n / 10), digit_char(n % 10)]
}

/// Four decimal digits, zero padded.
pub open spec fn spec_pad4(n: nat) -> Seq<char> {
    seq![digit_char(n / 1000), digit_char((n / 100) % 10), digit_char((n / 10) % 10), digit_char(n % 10)]
}

/// The date as `YYYY-MM-DD`, zero padded.
pub open spec fn spec_date_token(d: Date) -> Seq<char> {
    spec_pad4(d.year as nat) + "-"@ + spec_pad2(d.month as nat) + "-"@ + spec_pad2(d.day as nat)
}

/// The timestamp prefix of every log line: `[YYYY-MM-DD HH:MM:SS]`, each
/// component zero padded to fixed width.
pub open spec fn spec_timestamp_prefix(ts: Timestamp) -> Seq<char> {
    "["@ + spec_date_token(ts.date) + " "@ + spec_pad2(ts.hour as nat) + ":"@ + spec_pad2(
        ts.minute as nat,
    ) + ":"@ + spec_pad2(ts.second as nat) + "]"@
}

/// A boolean as the literal token `true` or `false`.
pub open spec fn spec_bool_token(b: bool) -> Seq<char> {
    if b {
        "true"@
    } else {
        "false"@
    }
}

/// The exact line recorded for an event: the bracketed timestamp, the
/// variant's tag, its `key=value` fields in fixed order with the values
/// substituted verbatim, and a trailing newline.
pub open spec fn spec_event_line(ts: Timestamp, e: AccessEvent) -> Seq<char> {
    match e {
        AccessEvent::Incoming { ip, user, method } => spec_timestamp_prefix(ts)
            + " INCOMING ip="@ + ip@ + " user="@ + user@ + " method="@ + method@ + "\n"@,
        AccessEvent::ConnectResult { ip, user, method, ok, msg } => spec_timestamp_prefix(ts)
            + " CONNECT_RESULT ip="@ + ip@ + " user="@ + user@ + " method="@ + method@ + " ok="@
            + spec_bool_token(ok) + " msg="@ + msg@ + "\n"@,
        AccessEvent::FileTransfer { ip, user, path, success } => spec_timestamp_prefix(ts)
            + " FILE_TRANSFER ip="@ + ip@ + " user="@ + user@ + " path="@ + path@ + " success="@
            + spec_bool_token(success) + "\n"@,
        AccessEvent::Disconnect { ip, user, reason } => spec_timestamp_prefix(ts)
            + " DISCONNECT ip="@ + ip@ + " user="@ + user@ + " reason="@ + reason@ + "\n"@,
    }
}

/// The one-character string for a decimal digit.
fn digit_str(d: u32) -> (r: &'static str)
    requires
        d < 10,
    ensures
        r@ == seq![digit_char(d as nat)],
{
    let r: &'static str = match d {
        0 => "0",
        1 => "1",
        2 => "2",
        3 => "3",
        4 => "4",
        5 => "5",
        6 => "6",
        7 => "7",
        8 => "8",
        _ => "9",
    };
    proof {
        reveal_strlit("0");
        reveal_strlit("1");
        reveal_strlit("2");
        reveal_strlit("3");
        reveal_strlit("4");
        reveal_strlit("5");
        reveal_strlit("6");
        reveal_strlit("7");
        reveal_strlit("8");
        reveal_strlit("9");
        assert(r@ =~= seq![digit_char(d as nat)]);
    }
    r
}

/// A number below one hundred as two zero-padded decimal digits.
pub fn pad2(n: u32) -> (r: String)
    requires
        n < 100,
    ensures
        r@ == spec_pad2(n as nat),
{
    let mut s = String::new();
    s.append(digit_str(n / 10));
    s.append(digit_str(n % 10));
    proof {
        assert(s@ =~= spec_pad2(n as nat));
    }
    s
}

/// A number below ten thousand as four zero-padded decimal digits.
pub fn pad4(n: u32) -> (r: String)
    requires
        n < 10000,
    ensures
        r@ == spec_pad4(n as nat),
{
    let mut s = String::new();
    s.append(digit_str(n / 1000));
    s.append(digit_str((n / 100) % 10));
    s.append(digit_str((n / 10) % 10));
    s.append(digit_str(n % 10));
    proof {
        assert(s@ =~= spec_pad4(n as nat));
    }
    s
}

/// The date as `YYYY-MM-DD`.
pub fn format_date(d: Date) -> (r: String)
    requires
        d.valid(),
    ensures
        r@ == spec_date_token(d),
{
    let mut s = pad4(d.year as u32);
    s.append("-");
    let m = pad2(d.month as u32);
    s.append(m.as_str());
    s.append("-");
    let day = pad2(d.day as u32);
    s.append(day.as_str());
    proof {
        assert(s@ =~= spec_date_token(d));
    }
    s
}

/// The bracketed timestamp prefix `[YYYY-MM-DD HH:MM:SS]`.
pub fn format_timestamp(ts: &Timestamp) -> (r: String)
    requires
        ts.valid(),
    ensures
        r@ == spec_timestamp_prefix(*ts),
{
    let mut s = String::from_str("[");
    let date = format_date(ts.date);
    s.append(date.as_str());
    s.append(" ");
    let h = pad2(ts.hour as u32);
    s.append(h.as_str());
    s.append(":");
    let m = pad2(ts.minute as u32);
    s.append(m.as_str());
    s.append(":");
    let sec = pad2(ts.second as u32);
    s.append(sec.as_str());
    s.append("]");
    proof {
        assert(s@ =~= spec_timestamp_prefix(*ts));
    }
    s
}

/// The literal token `true` or `false`.
pub fn bool_token(b: bool) -> (r: &'static str)
    ensures
        r@ == spec_bool_token(b),
{
    if b {
        "true"
    } else {
        "false"
    }
}

/// Renders the single log line for one event at one timestamp, exactly
/// as `spec_event_line` lays it out.
pub fn format_event_line(ts: &Timestamp, event: &AccessEvent) -> (r: String)
    requires
        ts.valid(),
    ensures
        r@ == spec_event_line(*ts, *event),
{
    let mut s = format_timestamp(ts);
    match event {
        AccessEvent::Incoming { ip, user, method } => {
            s.append(" INCOMING ip=");
            s.append(ip.as_str());
            s.append(" user=");
            s.append(user.as_str());
            s.append(" method=");
            s.append(method.as_str());
            s.append("\n");
        },
        AccessEvent::ConnectResult { ip, user, method, ok, msg } => {
            s.append(" CONNECT_RESULT ip=");
            s.append(ip.as_str());
            s.append(" user=");
            s.append(user.as_str());
            s.append(" method=");
            s.append(method.as_str());
            s.append(" ok=");
            s.append(bool_token(*ok));
            s.append(" msg=");
            s.append(msg.as_str());
            s.append("\n");
        },
        AccessEvent::FileTransfer { ip, user, path, success } => {
            s.append(" FILE_TRANSFER ip=");
            s.append(ip.as_str());
            s.append(" user=");
            s.append(user.as_str());
            s.append(" path=");
            s.append(path.as_str());
            s.append(" success=");
            s.append(bool_token(*success));
            s.append("\n");
        },
        AccessEvent::Disconnect { ip, user, reason } => {
            s.append(" DISCONNECT ip=");
            s.append(ip.as_str());
            s.append(" user=");
            s.append(user.as_str());
            s.append(" reason=");
            s.append(reason.as_str());
            s.append("\n");
        },
    }
    proof {
        assert(s@ =~= spec_event_line(*ts, *event));
    }
    s
}

/// Distinct digits render as distinct characters.
proof fn lemma_digit_char_injective(a: nat, b: nat)
    requires
        a < 10,
        b < 10,
        digit_char(a) == digit_char(b),
    ensures
        a == b,
{
}

/// The two-digit rendering is injective below one hundred.
proof fn lemma_pad2_injective(a: nat, b: nat)
    requires
        a < 100,
        b < 100,
        spec_pad2(a) == spec_pad2(b),
    ensures
        a == b,
{
    assert(spec_pad2(a)[0] == spec_pad2(b)[0]);
    assert(spec_pad2(a)[1] == spec_pad2(b)[1]);
    lemma_digit_char_injective(a / 10, b / 10);
    lemma_digit_char_injective(a % 10, b % 10);
    vstd::arithmetic::div_mod::lemma_fundamental_div_mod(a as int, 10);
    vstd::arithmetic::div_mod::lemma_fundamental_div_mod(b as int, 10);
}

/// The four-digit rendering is injective below ten thousand.
proof fn lemma_pad4_injective(a: nat, b: nat)
    requires
        a < 10000,
        b < 10000,
        spec_pad4(a) == spec_pad4(b),
    ensures
        a == b,
{
    assert(spec_pad4(a)[0] == spec_pad4(b)[0]);
    assert(spec_pad4(a)[1] == spec_pad4(b)[1]);
    assert(spec_pad4(a)[2] == spec_pad4(b)[2]);
    assert(spec_pad4(a)[3] == spec_pad4(b)[3]);
    lemma_digit_char_injective(a / 1000, b / 1000);
    lemma_digit_char_injective((a / 100) % 10, (b / 100) % 10);
    lemma_digit_char_injective((a / 10) % 10, (b / 10) % 10);
    lemma_digit_char_injective(a % 10, b % 10);
    lemma_three_digit_split(a);
    lemma_three_digit_split(b);
}

/// A number below ten thousand is determined by its four decimal digits.
proof fn lemma_three_digit_split(a: nat)
    requires
        a < 10000,
    ensures
        a == 1000 * (a / 1000) + 100 * ((a / 100) % 10) + 10 * ((a / 10) % 10) + a % 10,
{
    vstd::arithmetic::div_mod::lemma_fundamental_div_mod(a as int, 10);
    vstd::arithmetic::div_mod::lemma_fundamental_div_mod(a as int / 10, 10);
    vstd::arithmetic::div_mod::lemma_fundamental_div_mod(a as int / 100, 10);
    vstd::arithmetic::div_mod::lemma_div_denominator(a as int, 10, 10);
    vstd::arithmetic::div_mod::lemma_div_denominator(a as int, 100, 10);
}

/// The `YYYY-MM-DD` rendering is injective on valid dates.
pub proof fn lemma_date_token_injective(d1: Date, d2: Date)
    requires
        d1.valid(),
        d2.valid(),
        spec_date_token(d1) == spec_date_token(d2),
    ensures
        d1 == d2,
{
    reveal_strlit("-");
    let t1 = spec_date_token(d1);
    let t2 = spec_date_token(d2);
    assert(spec_pad4(d1.year as nat) =~= t1.subrange(0, 4));
    assert(spec_pad4(d2.year as nat) =~= t2.subrange(0, 4));
    assert(spec_pad2(d1.month as nat) =~= t1.subrange(5, 7));
    assert(spec_pad2(d2.month as nat) =~= t2.subrange(5, 7));
    assert(spec_pad2(d1.day as nat) =~= t1.subrange(8, 10));
    assert(spec_pad2(d2.day as nat) =~= t2.subrange(8, 10));
    lemma_pad4_injective(d1.year as nat, d2.year as nat);
    lemma_pad2_injective(d1.month as nat, d2.month as nat);
    lemma_pad2_injective(d1.day as nat, d2.day as nat);
}

/// Text without newlines stays without newlines under concatenation.
proof fn lemma_no_newline_concat(a: Seq<char>, b: Seq<char>)
    requires
        no_newline(a),
        no_newline(b),
    ensures
        no_newline(a + b),
{
    assert forall|i: int| 0 <= i < (a + b).len() implies (a + b)[i] != '\n' by {
        if i < a.len() {
            assert((a + b)[i] == a[i]);
        } else {
            assert((a + b)[i] == b[i - a.len()]);
        }
    }
}

/// The timestamp prefix holds only digits and punctuation, never a
/// newline.
proof fn lemma_prefix_no_newline(ts: Timestamp)
    ensures
        no_newline(spec_timestamp_prefix(ts)),
{
    reveal_strlit("[");
    reveal_strlit("-");
    reveal_strlit(" ");
    reveal_strlit(":");
    reveal_strlit("]");
    assert forall|i: int| 0 <= i < spec_timestamp_prefix(ts).len() implies spec_timestamp_prefix(
        ts,
    )[i] != '\n' by {
        assert(forall|d: nat| digit_char(d) != '\n');
    }
}

/// The boolean tokens hold no newline.
proof fn lemma_bool_token_no_newline(b: bool)
    ensures
        no_newline(spec_bool_token(b)),
{
    reveal_strlit("true");
    reveal_strlit("false");
}

/// Every rendered line ends in a newline and, as long as no field value
/// of the event holds one, contains no newline before it: one event
/// always contributes exactly one line to the day's file.
pub proof fn lemma_line_single_newline(ts: Timestamp, e: AccessEvent)
    requires
        event_fields_no_newline(e),
    ensures
        spec_event_line(ts, e).len() > 0,
        spec_event_line(ts, e).last() == '\n',
        no_newline(spec_event_line(ts, e).drop_last()),
{
    reveal_strlit("\n");
    lemma_prefix_no_newline(ts);
    let p = spec_timestamp_prefix(ts);
    let line = spec_event_line(ts, e);
    match e {
        AccessEvent::Incoming { ip, user, method } => {
            reveal_strlit(" INCOMING ip=");
            reveal_strlit(" user=");
            reveal_strlit(" method=");
            lemma_no_newline_concat(p, " INCOMING ip="@);
            lemma_no_newline_concat(p + " INCOMING ip="@, ip@);
            lemma_no_newline_concat(p + " INCOMING ip="@ + ip@, " user="@);
            lemma_no_newline_concat(p + " INCOMING ip="@ + ip@ + " user="@, user@);
            lemma_no_newline_concat(p + " INCOMING ip="@ + ip@ + " user="@ + user@, " method="@);
            lemma_no_newline_concat(
                p + " INCOMING ip="@ + ip@ + " user="@ + user@ + " method="@,
                method@,
            );
            assert(line.drop_last() =~= p + " INCOMING ip="@ + ip@ + " user="@ + user@
                + " method="@ + method@);
        },
        AccessEvent::ConnectResult { ip, user, method, ok, msg } => {
            reveal_strlit(" CONNECT_RESULT ip=");
            reveal_strlit(" user=");
            reveal_strlit(" method=");
            reveal_strlit(" ok=");
            reveal_strlit(" msg=");
            lemma_bool_token_no_newline(ok);
            let s1 = p + " CONNECT_RESULT ip="@;
            lemma_no_newline_concat(p, " CONNECT_RESULT ip="@);
            lemma_no_newline_concat(s1, ip@);
            lemma_no_newline_concat(s1 + ip@, " user="@);
            lemma_no_newline_concat(s1 + ip@ + " user="@, user@);
            lemma_no_newline_concat(s1 + ip@ + " user="@ + user@, " method="@);
            lemma_no_newline_concat(s1 + ip@ + " user="@ + user@ + " method="@, method@);
            lemma_no_newline_concat(s1 + ip@ + " user="@ + user@ + " method="@ + method@, " ok="@);
            lemma_no_newline_concat(
                s1 + ip@ + " user="@ + user@ + " method="@ + method@ + " ok="@,
                spec_bool_token(ok),
            );
            lemma_no_newline_concat(
                s1 + ip@ + " user="@ + user@ + " method="@ + method@ + " ok="@ + spec_bool_token(
                    ok,
                ),
                " msg="@,
            );
            lemma_no_newline_concat(
                s1 + ip@ + " user="@ + user@ + " method="@ + method@ + " ok="@ + spec_bool_token(
                    ok,
                ) + " msg="@,
                msg@,
            );
            assert(line.drop_last() =~= s1 + ip@ + " user="@ + user@ + " method="@ + method@
                + " ok="@ + spec_bool_token(ok) + " msg="@ + msg@);
        },
        AccessEvent::FileTransfer { ip, user, path, success } => {
            reveal_strlit(" FILE_TRANSFER ip=");
            reveal_strlit(" user=");
            reveal_strlit(" path=");
            reveal_strlit(" success=");
            lemma_bool_token_no_newline(success);
            let s1 = p + " FILE_TRANSFER ip="@;
            lemma_no_newline_concat(p, " FILE_TRANSFER ip="@);
            lemma_no_newline_concat(s1, ip@);
            lemma_no_newline_concat(s1 + ip@, " user="@);
            lemma_no_newline_concat(s1 + ip@ + " user="@, user@);
            lemma_no_newline_concat(s1 + ip@ + " user="@ + user@, " path="@);
            lemma_no_newline_concat(s1 + ip@ + " user="@ + user@ + " path="@, path@);
            lemma_no_newline_concat(
                s1 + ip@ + " user="@ + user@ + " path="@ + path@,
                " success="@,
            );
            lemma_no_newline_concat(
                s1 + ip@ + " user="@ + user@ + " path="@ + path@ + " success="@,
                spec_bool_token(success),
            );
            assert(line.drop_last() =~= s1 + ip@ + " user="@ + user@ + " path="@ + path@
                + " success="@ + spec_bool_token(success));
        },
        AccessEvent::Disconnect { ip, user, reason } => {
            reveal_strlit(" DISCONNECT ip=");
            reveal_strlit(" user=");
            reveal_strlit(" reason=");
            let s1 = p + " DISCONNECT ip="@;
            lemma_no_newline_concat(p, " DISCONNECT ip="@);
            lemma_no_newline_concat(s1, ip@);
            lemma_no_newline_concat(s1 + ip@, " user="@);
            lemma_no_newline_concat(s1 + ip@ + " user="@, user@);
            lemma_no_newline_concat(s1 + ip@ + " user="@ + user@, " reason="@);
            lemma_no_newline_concat(s1 + ip@ + " user="@ + user@ + " reason="@, reason@);
            assert(line.drop_last() =~= s1 + ip@ + " user="@ + user@ + " reason="@ + reason@);
        },
    }
}

} // verus!
