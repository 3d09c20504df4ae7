//! Transport status codes for errors reported by outside services.
use vstd::prelude::*;
use crate::text::{contains_text, lower_ascii, lower_of, lowercase, text_contains, to_ascii_lower};

verus! {

/// The status for a telephony service error message: `already exists` is a
/// conflict (409), `invalid_argument` a bad request (400), `not_found` not
/// found (404), `permission_denied` and `unauthenticated` forbidden (403),
/// anything else an internal error (500); matched in ASCII lower case.
pub open spec fn sip_error_status_spec(message: Seq<char>) -> u16 {
    let m = lower_ascii(message);
    if contains_text(m, "already exists"@) {
        409
    } else if contains_text(m, "invalid_argument"@) {
        400
    } else if contains_text(m, "not_found"@) {
        404
    } else if contains_text(m, "permission_denied"@) || contains_text(m, "unauthenticated"@) {
        403
    } else {
        500
    }
}

pub fn map_sip_error_status(message: &str) -> (r: u16)
    ensures
        r == sip_error_status_spec(message@),
{
    let m = to_ascii_lower(message);
    let m = m.as_str();
    if text_contains(m, "already exists") {
        409
    } else if text_contains(m, "invalid_argument") {
        400
    } else if text_contains(m, "not_found") {
        404
    } else if text_contains(m, "permission_denied") || text_contains(m, "unauthenticated") {
        403
    } else {
        500
    }
}

/// The status for a media-server error, given the lowercase form of its
/// message: unauthorized (401), not found (404), unavailable (503), bad
/// request (400), else internal (500).
pub open spec fn media_error_status_spec(lowered: Seq<char>) -> u16 {
    if contains_text(lowered, "unauthorized"@) || contains_text(lowered, "forbidden"@) || contains_text(lowered, "invalid api key"@) {
        401
    } else if contains_text(lowered, "not found"@) || contains_text(lowered, "does not exist"@) {
        404
    } else if contains_text(lowered, "connection"@) || contains_text(lowered, "timeout"@) || contains_text(lowered, "unreachable"@) {
        503
    } else if contains_text(lowered, "bad request"@) || contains_text(lowered, "invalid"@) {
        400
    } else {
        500
    }
}

/// The status for a media-server error message in lowercase form.
pub fn media_error_status(lowered: &str) -> (r: u16)
    ensures
        r == media_error_status_spec(lowered@),
{
    if text_contains(lowered, "unauthorized") || text_contains(lowered, "forbidden") || text_contains(lowered, "invalid api key") {
        401
    } else if text_contains(lowered, "not found") || text_contains(lowered, "does not exist") {
        404
    } else if text_contains(lowered, "connection") || text_contains(lowered, "timeout") || text_contains(lowered, "unreachable") {
        503
    } else if text_contains(lowered, "bad request") || text_contains(lowered, "invalid") {
        400
    } else {
        500
    }
}

/// The status for a media-server error message.
pub fn map_livekit_error(message: &str) -> (r: u16)
    ensures
        r == media_error_status_spec(lower_of(message@)),
{
    let lowered = lowercase(message);
    media_error_status(lowered.as_str())
}

/// A migration error that only says the change is already there.
pub open spec fn idempotent_migration_spec(message: Seq<char>) -> bool {
    let m = lower_ascii(message);
    contains_text(m, "already exists"@) || contains_text(m, "duplicate column"@) || contains_text(m, "duplicate object"@)
}

pub fn is_idempotent_migration_error(message: &str) -> (r: bool)
    ensures
        r == idempotent_migration_spec(message@),
{
    let m = to_ascii_lower(message);
    let m = m.as_str();
    text_contains(m, "already exists") || text_contains(m, "duplicate column") || text_contains(m, "duplicate object")
}

} // verus!
