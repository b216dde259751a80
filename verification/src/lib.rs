//! Federated-action propagation for a federated social platform.
//!
//! The library keeps local moderation state and local user relationships in
//! step with actions whose subject may live on another server. It decides
//! what to do; storage, object resolution and activity delivery are done by
//! the caller, who hands each outcome back.

pub mod audio_captcha;
pub mod backup;
pub mod ban;
pub mod ban_laws;
pub mod error;
pub mod image_proxy;
pub mod images;
pub mod importer;
pub mod importer_laws;
pub mod newtypes;
pub mod person;
pub mod relationship;
pub mod report;
