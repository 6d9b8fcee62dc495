//! A feature-flag directory: per-namespace sets of flag keys behind a small
//! store interface, with identifier validation, change-detection tokens and a
//! shared-secret check for mutating operations.

pub mod api;
pub mod auth;
pub mod db;
pub mod etag;
pub mod flag;
pub mod flagset;
pub mod namespace;
pub mod numeral;
pub mod unstr;
