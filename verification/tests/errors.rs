use federated_actions::error::{Error, ErrorKind};

#[test]
fn every_failure_has_its_kind() {
    assert_eq!(Error::BanExpirationInPast.kind(), ErrorKind::Validation);
    assert_eq!(Error::UserBackupTooLarge.kind(), ErrorKind::Validation);
    assert_eq!(Error::MalformedReference.kind(), ErrorKind::Validation);
    assert_eq!(Error::ReportReasonRequired.kind(), ErrorKind::Validation);
    assert_eq!(Error::ReportTooLong.kind(), ErrorKind::Validation);
    assert_eq!(Error::Slurs.kind(), ErrorKind::Validation);
    assert_eq!(Error::CouldntFetchObject.kind(), ErrorKind::Resolution);
    assert_eq!(Error::NotKnownLocally.kind(), ErrorKind::Resolution);
    assert_eq!(Error::Storage.kind(), ErrorKind::Storage);
    assert_eq!(Error::Propagation.kind(), ErrorKind::Propagation);
    assert_eq!(Error::CouldntCreateAudioCaptcha.kind(), ErrorKind::Internal);
    assert_eq!(Error::Unknown.kind(), ErrorKind::Internal);
}

#[test]
fn every_failure_has_its_name() {
    assert_eq!(Error::BanExpirationInPast.name(), "ban_expiration_in_past");
    assert_eq!(Error::UserBackupTooLarge.name(), "user_backup_too_large");
    assert_eq!(Error::MalformedReference.name(), "malformed_reference");
    assert_eq!(Error::CouldntCreateAudioCaptcha.name(), "couldnt_create_audio_captcha");
    assert_eq!(Error::ReportReasonRequired.name(), "report_reason_required");
    assert_eq!(Error::ReportTooLong.name(), "report_too_long");
    assert_eq!(Error::Slurs.name(), "slurs");
    assert_eq!(Error::Unknown.name(), "unknown");
    assert_eq!(Error::CouldntFetchObject.name(), "couldnt_fetch_object");
    assert_eq!(Error::NotKnownLocally.name(), "not_known_locally");
    assert_eq!(Error::Storage.name(), "storage");
    assert_eq!(Error::Propagation.name(), "propagation");
}
