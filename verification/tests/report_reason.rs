use federated_actions::error::Error;
use federated_actions::report::{check_report_reason, MAX_REPORT_REASON_LENGTH};

#[test]
fn reason_without_text_is_required() {
    assert_eq!(check_report_reason("", false), Err(Error::ReportReasonRequired));
}

#[test]
fn reason_with_filtered_word_is_refused_first() {
    assert_eq!(check_report_reason("spam", true), Err(Error::Slurs));
    assert_eq!(check_report_reason("", true), Err(Error::Slurs));
    let long = "x".repeat(1001);
    assert_eq!(check_report_reason(&long, true), Err(Error::Slurs));
}

#[test]
fn reason_of_a_thousand_characters_is_accepted() {
    assert_eq!(MAX_REPORT_REASON_LENGTH, 1000);
    let reason = "x".repeat(1000);
    assert_eq!(check_report_reason(&reason, false), Ok(()));
    assert_eq!(check_report_reason("x", false), Ok(()));
}

#[test]
fn reason_of_a_thousand_and_one_characters_is_too_long() {
    let reason = "x".repeat(1001);
    assert_eq!(check_report_reason(&reason, false), Err(Error::ReportTooLong));
}

#[test]
fn reason_is_measured_in_characters_not_bytes() {
    let reason = "\u{e9}".repeat(1000);
    assert_eq!(reason.len(), 2000);
    assert_eq!(check_report_reason(&reason, false), Ok(()));
    let longer = "\u{e9}".repeat(1001);
    assert_eq!(check_report_reason(&longer, false), Err(Error::ReportTooLong));
}
