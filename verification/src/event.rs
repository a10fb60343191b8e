//! The typed access events that the logging facility records.
use vstd::prelude::*;

verus! {

/// One auditable occurrence in the server's connection lifecycle.
///
/// Field values are recorded verbatim in the log line; free-text fields
/// such as `msg` and `reason` are not escaped, so a value holding a
/// newline would break the one-event-per-line layout.
pub enum AccessEvent {
    /// An inbound connection attempt was observed.
    Incoming { ip: String, user: String, method: String },
    /// The authentication / connection attempt concluded.
    ConnectResult { ip: String, user: String, method: String, ok: bool, msg: String },
    /// A file transfer completed or failed.
    FileTransfer { ip: String, user: String, path: String, success: bool },
    /// A session ended.
    Disconnect { ip: String, user: String, reason: String },
}

/// Holds when no field of the event contains a newline, so that the
/// rendered line has its only newline at the end.
pub open spec fn event_fields_no_newline(e: AccessEvent) -> bool {
    match e {
        AccessEvent::Incoming { ip, user, method } => no_newline(ip@) && no_newline(user@)
            && no_newline(method@),
        AccessEvent::ConnectResult { ip, user, method, ok: _, msg } => no_newline(ip@)
            && no_newline(user@) && no_newline(method@) && no_newline(msg@),
        AccessEvent::FileTransfer { ip, user, path, success: _ } => no_newline(ip@)
            && no_newline(user@) && no_newline(path@),
        AccessEvent::Disconnect { ip, user, reason } => no_newline(ip@) && no_newline(user@)
            && no_newline(reason@),
    }
}

/// Holds when the text contains no newline character.
pub open spec fn no_newline(s: Seq<char>) -> bool {
    forall|i: int| 0 <= i < s.len() ==> s[i] != '\n'
}

} // verus!
