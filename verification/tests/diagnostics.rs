use access_log::outcome::WriteOutcome;
use access_log::outcome::diagnostic_for_outcome;

#[test]
fn open_failure_yields_exactly_one_diagnostic() {
    let outcome = WriteOutcome::OpenFailed(String::from("permission denied"));
    let diagnostic = diagnostic_for_outcome(&outcome);
    assert_eq!(
        diagnostic,
        Some(String::from("Failed to open access log file: permission denied"))
    );
}

#[test]
fn successful_write_yields_no_diagnostic() {
    assert_eq!(diagnostic_for_outcome(&WriteOutcome::Written), None);
}

#[test]
fn write_failure_is_swallowed() {
    assert_eq!(diagnostic_for_outcome(&WriteOutcome::WriteFailed), None);
}
