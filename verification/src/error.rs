//! What can go wrong, and the kinds it falls under.

use vstd::prelude::*;

verus! {

/// The kinds of failure: four for what the federated actions meet, and one
/// for what a library inside the server gives up on.
#[derive(Clone, Copy, PartialEq, Eq, Structural, Debug, Hash)]
pub enum ErrorKind {
    /// The request itself is not acceptable.
    Validation,
    /// A reference could not be turned into a local object.
    Resolution,
    /// A row could not be read or written.
    Storage,
    /// An outbound activity was refused before delivery.
    Propagation,
    /// A library that the server relies on could not do its work.
    Internal,
}

/// A failure.
#[derive(Clone, Copy, PartialEq, Eq, Structural, Debug, Hash)]
pub enum Error {
    /// A ban was to expire at a time that has already passed.
    BanExpirationInPast,
    /// A backup names more follows and blocks than one import may hold.
    UserBackupTooLarge,
    /// A reference is not a well-formed address.
    MalformedReference,
    /// An audio captcha could not be put together.
    CouldntCreateAudioCaptcha,
    /// A report came without a reason.
    ReportReasonRequired,
    /// The reason of a report is too long.
    ReportTooLong,
    /// A text holds a word that the site filters.
    Slurs,
    /// A failure without a name of its own: a library gave up on what it
    /// was handed.
    Unknown,
    /// An object could not be fetched from its home server.
    CouldntFetchObject,
    /// An object is not known locally, and fetching was not allowed.
    NotKnownLocally,
    /// A row could not be read or written.
    Storage,
    /// An outbound activity was refused before delivery.
    Propagation,
}

impl Error {
    /// The kind of each failure.
    pub open spec fn spec_kind(self) -> ErrorKind {
        match self {
            Error::BanExpirationInPast
            | Error::UserBackupTooLarge
            | Error::MalformedReference
            | Error::ReportReasonRequired
            | Error::ReportTooLong
            | Error::Slurs => ErrorKind::Validation,
            Error::CouldntFetchObject | Error::NotKnownLocally => ErrorKind::Resolution,
            Error::Storage => ErrorKind::Storage,
            Error::Propagation => ErrorKind::Propagation,
            Error::CouldntCreateAudioCaptcha | Error::Unknown => ErrorKind::Internal,
        }
    }

    /// The kind of this failure.
    #[verifier::when_used_as_spec(spec_kind)]
    pub fn kind(self) -> (kind: ErrorKind)
        ensures
            kind == self.spec_kind(),
    {
        match self {
            Error::BanExpirationInPast
            | Error::UserBackupTooLarge
            | Error::MalformedReference
            | Error::ReportReasonRequired
            | Error::ReportTooLong
            | Error::Slurs => ErrorKind::Validation,
            Error::CouldntFetchObject | Error::NotKnownLocally => ErrorKind::Resolution,
            Error::Storage => ErrorKind::Storage,
            Error::Propagation => ErrorKind::Propagation,
            Error::CouldntCreateAudioCaptcha | Error::Unknown => ErrorKind::Internal,
        }
    }

    /// The name under which the failure is reported to clients.
    pub fn name(self) -> (name: &'static str)
        ensures
            name@ == self.spec_name(),
    {
        match self {
            Error::BanExpirationInPast => "ban_expiration_in_past",
            Error::UserBackupTooLarge => "user_backup_too_large",
            Error::MalformedReference => "malformed_reference",
            Error::CouldntCreateAudioCaptcha => "couldnt_create_audio_captcha",
            Error::ReportReasonRequired => "report_reason_required",
            Error::ReportTooLong => "report_too_long",
            Error::Slurs => "slurs",
            Error::Unknown => "unknown",
            Error::CouldntFetchObject => "couldnt_fetch_object",
            Error::NotKnownLocally => "not_known_locally",
            Error::Storage => "storage",
            Error::Propagation => "propagation",
        }
    }

    /// The name of each failure.
    pub open spec fn spec_name(self) -> Seq<char> {
        match self {
            Error::BanExpirationInPast => "ban_expiration_in_past"@,
            Error::UserBackupTooLarge => "user_backup_too_large"@,
            Error::MalformedReference => "malformed_reference"@,
            Error::CouldntCreateAudioCaptcha => "couldnt_create_audio_captcha"@,
            Error::ReportReasonRequired => "report_reason_required"@,
            Error::ReportTooLong => "report_too_long"@,
            Error::Slurs => "slurs"@,
            Error::Unknown => "unknown"@,
            Error::CouldntFetchObject => "couldnt_fetch_object"@,
            Error::NotKnownLocally => "not_known_locally"@,
            Error::Storage => "storage"@,
            Error::Propagation => "propagation"@,
        }
    }
}

} // verus!
