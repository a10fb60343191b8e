//! The outcome of one attempt to append a line, and the rule that turns
//! it into at most one diagnostic message.
use vstd::prelude::*;
use vstd::string::StringExecFns;

verus! {

/// What happened when one line was appended to the day's log file.
///
/// Failures are never surfaced to the caller of the logging facility;
/// an open failure is reported once on the diagnostic channel, a write
/// failure after a successful open is swallowed.
pub enum WriteOutcome {
    /// The line was appended.
    Written,
    /// The file could not be opened; the field holds the underlying
    /// error text.
    OpenFailed(String),
    /// The file opened but the write failed.
    WriteFailed,
}

/// The diagnostic message owed for an outcome: exactly one for an open
/// failure, none otherwise.
pub open spec fn spec_diagnostic(o: WriteOutcome) -> Option<Seq<char>> {
    match o {
        WriteOutcome::OpenFailed(msg) => Some("Failed to open access log file: "@ + msg@),
        WriteOutcome::Written => None,
        WriteOutcome::WriteFailed => None,
    }
}

/// Decides what to report for an outcome: exactly one message, carrying
/// the underlying error text, when the open failed, and nothing for a
/// successful write or a swallowed write failure.
pub fn diagnostic_for_outcome(o: &WriteOutcome) -> (r: Option<String>)
    ensures
        r is Some <==> o is OpenFailed,
        r matches Some(m) ==> Some(m@) == spec_diagnostic(*o),
{
    match o {
        WriteOutcome::OpenFailed(msg) => {
            let mut s = String::from_str("Failed to open access log file: ");
            s.append(msg.as_str());
            Some(s)
        },
        WriteOutcome::Written => None,
        WriteOutcome::WriteFailed => None,
    }
}

} // verus!
