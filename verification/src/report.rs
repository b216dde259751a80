//! Reports of posts, comments and messages.

use crate::error::Error;
use vstd::prelude::*;
use vstd::string::StrSliceExecFns;

verus! {

/// The number of characters that the reason of a report may have.
pub const MAX_REPORT_REASON_LENGTH: usize = 1000;

/// What the check of a report's reason gives, where `has_slurs` says
/// whether the site's filter found a word in it: a filtered word is refused
/// first, then an empty reason, then one of more than a thousand characters.
pub open spec fn report_reason_checked(reason: Seq<char>, has_slurs: bool) -> Result<(), Error> {
    if has_slurs {
        Err(Error::Slurs)
    } else if reason.len() == 0 {
        Err(Error::ReportReasonRequired)
    } else if reason.len() > MAX_REPORT_REASON_LENGTH {
        Err(Error::ReportTooLong)
    } else {
        Ok(())
    }
}

/// Checks the reason that comes with a report. `has_slurs` is what the
/// site's filter of words found in it. The length is counted in characters,
/// not in bytes.
pub fn check_report_reason(reason: &str, has_slurs: bool) -> (checked: Result<(), Error>)
    ensures
        checked == report_reason_checked(reason@, has_slurs),
{
    if has_slurs {
        Err(Error::Slurs)
    } else if reason.is_empty() {
        Err(Error::ReportReasonRequired)
    } else if reason.unicode_len() > MAX_REPORT_REASON_LENGTH {
        Err(Error::ReportTooLong)
    } else {
        Ok(())
    }
}

} // verus!
