//! The text appended to one day's log file, modeled as the rendered
//! lines of the day's events in call order.
use vstd::prelude::*;

use crate::event::AccessEvent;
use crate::event::event_fields_no_newline;
use crate::event::no_newline;
use crate::render::lemma_line_single_newline;
use crate::render::spec_event_line;
use crate::time::Timestamp;

verus! {

/// How many lines a text holds: its number of newline characters.
pub open spec fn newline_count(s: Seq<char>) -> nat
    decreases s.len(),
{
    if s.len() == 0 {
        0
    } else {
        newline_count(s.drop_last()) + if s.last() == '\n' {
            1nat
        } else {
            0nat
        }
    }
}

/// The text that appending the given events in order adds to one day's
/// file: the concatenation, in call order, of each event's rendered
/// line.
pub open spec fn spec_log_content(ts: Timestamp, events: Seq<AccessEvent>) -> Seq<char>
    decreases events.len(),
{
    if events.len() == 0 {
        Seq::<char>::empty()
    } else {
        spec_log_content(ts, events.drop_last()) + spec_event_line(ts, events.last())
    }
}

/// Text without a newline holds no line at all.
proof fn lemma_newline_count_no_newline(s: Seq<char>)
    requires
        no_newline(s),
    ensures
        newline_count(s) == 0,
    decreases s.len(),
{
    if s.len() > 0 {
        assert(forall|i: int| 0 <= i < s.drop_last().len() ==> s.drop_last()[i] == s[i]);
        lemma_newline_count_no_newline(s.drop_last());
    }
}

/// Newlines are counted segment by segment.
proof fn lemma_newline_count_concat(a: Seq<char>, b: Seq<char>)
    ensures
        newline_count(a + b) == newline_count(a) + newline_count(b),
    decreases b.len(),
{
    if b.len() == 0 {
        assert(a + b =~= a);
    } else {
        assert((a + b).drop_last() =~= a + b.drop_last());
        assert((a + b).last() == b.last());
        lemma_newline_count_concat(a, b.drop_last());
    }
}

/// One event contributes exactly one line.
proof fn lemma_newline_count_line(ts: Timestamp, e: AccessEvent)
    requires
        event_fields_no_newline(e),
    ensures
        newline_count(spec_event_line(ts, e)) == 1,
{
    lemma_line_single_newline(ts, e);
    lemma_newline_count_no_newline(spec_event_line(ts, e).drop_last());
}

/// Append-only logging: the text that N sequentially appended events
/// add to one day's file is the concatenation of their rendered lines
/// in call order, and holds exactly N newline-terminated lines, as long
/// as no field value holds a newline of its own.
pub proof fn lemma_append_only(ts: Timestamp, events: Seq<AccessEvent>)
    requires
        forall|i: int| 0 <= i < events.len() ==> event_fields_no_newline(#[trigger] events[i]),
    ensures
        newline_count(spec_log_content(ts, events)) == events.len(),
    decreases events.len(),
{
    if events.len() > 0 {
        assert(forall|i: int|
            0 <= i < events.drop_last().len() ==> events.drop_last()[i] == events[i]);
        lemma_append_only(ts, events.drop_last());
        lemma_newline_count_line(ts, events.last());
        lemma_newline_count_concat(
            spec_log_content(ts, events.drop_last()),
            spec_event_line(ts, events.last()),
        );
    }
}

} // verus!
