//! Interpretation of the operating system's permission answers.
use vstd::prelude::*;

use crate::errors::owned;

verus! {

pub const MIC_NOT_DETERMINED: &'static str = "not_determined";

pub const MIC_RESTRICTED: &'static str = "restricted";

pub const MIC_DENIED: &'static str = "denied";

pub const MIC_AUTHORIZED: &'static str = "authorized";

pub const MIC_UNKNOWN: &'static str = "unknown";

/// The name of an `AVAuthorizationStatus` value.
pub open spec fn microphone_status_text(status: i64) -> Seq<char> {
    if status == 0 {
        MIC_NOT_DETERMINED@
    } else if status == 1 {
        MIC_RESTRICTED@
    } else if status == 2 {
        MIC_DENIED@
    } else if status == 3 {
        MIC_AUTHORIZED@
    } else {
        MIC_UNKNOWN@
    }
}

/// The name of the microphone authorisation status reported by the system.
pub fn microphone_status_name(status: i64) -> (s: String)
    ensures
        s@ == microphone_status_text(status),
{
    if status == 0 {
        owned(MIC_NOT_DETERMINED)
    } else if status == 1 {
        owned(MIC_RESTRICTED)
    } else if status == 2 {
        owned(MIC_DENIED)
    } else if status == 3 {
        owned(MIC_AUTHORIZED)
    } else {
        owned(MIC_UNKNOWN)
    }
}


/// Whether the process may synthesize key presses. Without a permission
/// system for that, it always may.
pub fn check_accessibility() -> (b: bool)
    ensures
        b,
{
    true
}

/// Asks for the permission to synthesize key presses; granted at once
/// without a permission system.
pub fn request_accessibility() -> (b: bool)
    ensures
        b,
{
    true
}

/// Opens the system's accessibility settings; there are none to open
/// without a permission system.
pub fn open_accessibility_settings() {
}

/// The microphone authorisation status; always authorised without a
/// permission system.
pub fn check_microphone_permission() -> (s: String)
    ensures
        s@ == MIC_AUTHORIZED@,
{
    owned(MIC_AUTHORIZED)
}

/// Asks for microphone access; nothing to ask without a permission system.
pub fn request_microphone_permission() {
}

/// Opens the system's microphone settings; none without a permission
/// system.
pub fn open_microphone_settings() {
}

/// The name of the frontmost application; unknown (`None`) without a way
/// to ask the window system.
pub fn get_frontmost_app() -> (r: Option<String>)
    ensures
        r is None,
{
    None
}
} // verus!
