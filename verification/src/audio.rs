//! Choice of the audio input device, and its listing for the settings
//! screen.
use vstd::prelude::*;

use crate::errors::{concat2, owned, AppError};
use crate::text::{chars_of, chars_eq_str, str_eq};

verus! {

pub const NO_DEFAULT_DEVICE: &'static str = "No default input device found";

pub const ENUMERATION_FAILED_PREFIX: &'static str = "Failed to enumerate input devices: ";

/// An input device as listed to the user.
#[derive(Debug, Clone)]
pub struct AudioDeviceInfo {
    pub name: String,
    pub is_default: bool,
}

/// The input devices named `names` (in the system's order), the one named
/// like the default device marked as default.
pub fn device_listing(names: Vec<String>, default_name: Option<String>) -> (v: Vec<AudioDeviceInfo>)
    ensures
        v.len() == names.len(),
        forall|i: int|
            0 <= i < v.len() ==> (#[trigger] v@[i]).name@ == names@[i]@ && v@[i].is_default == (
            default_name matches Some(d) && d@ == names@[i]@),
{
    let mut v: Vec<AudioDeviceInfo> = Vec::new();
    let mut i: usize = 0;
    while i < names.len()
        invariant
            i <= names.len(),
            v.len() == i,
            forall|j: int|
                0 <= j < i ==> (#[trigger] v@[j]).name@ == names@[j]@ && v@[j].is_default == (
                default_name matches Some(d) && d@ == names@[j]@),
        decreases names.len() - i,
    {
        let is_default = match &default_name {
            Some(d) => str_eq(d.as_str(), names[i].as_str()),
            None => false,
        };
        v.push(AudioDeviceInfo { name: owned(names[i].as_str()), is_default });
        i += 1;
    }
    v
}

/// The device to record from.
#[derive(Debug, Clone, Copy, PartialEq, Eq, Structural)]
pub enum DeviceChoice {
    /// The system's default input device.
    Default,
    /// The device at this position of the enumeration.
    Listed(usize),
}

/// The index of the first device named `name`.
pub open spec fn first_named(names: Seq<Seq<char>>, name: Seq<char>, i: int) -> bool {
    0 <= i < names.len() && names[i] == name && forall|j: int|
        0 <= j < i ==> #[trigger] names[j] != name
}

/// The configured device name, unless the setting is absent or empty.
pub open spec fn requested_name(requested: Option<&str>) -> Option<Seq<char>> {
    match requested {
        Some(n) => if n@.len() > 0 {
            Some(n@)
        } else {
            None
        },
        None => None,
    }
}

/// Picks the device for a recording. `requested` is the configured device
/// (`None` or empty for the default); `devices` is the enumeration of input
/// devices by name, or its error text; `has_default` whether the system has
/// a default input device. A configured device that is missing falls back
/// to the default one.
#[verifier::loop_isolation(false)]
pub fn pick_input_device(
    requested: Option<&str>,
    devices: Result<Vec<String>, String>,
    has_default: bool,
) -> (r: Result<DeviceChoice, AppError>)
    ensures
        match requested_name(requested) {
            Some(name) => match devices {
                Err(e) => r matches Err(x) && x is Audio && x.text() == ENUMERATION_FAILED_PREFIX@
                    + e@,
                Ok(list) => {
                    let names = list@.map_values(|s: String| s@);
                    if exists|i: int| first_named(names, name, i) {
                        r matches Ok(DeviceChoice::Listed(i)) && first_named(names, name, i as int)
                    } else if has_default {
                        r == Ok::<DeviceChoice, AppError>(DeviceChoice::Default)
                    } else {
                        r matches Err(x) && x is Audio && x.text() == NO_DEFAULT_DEVICE@
                    }
                },
            },
            None => if has_default {
                r == Ok::<DeviceChoice, AppError>(DeviceChoice::Default)
            } else {
                r matches Err(x) && x is Audio && x.text() == NO_DEFAULT_DEVICE@
            },
        },
{
    let name = match requested {
        Some(n) => {
            if chars_of(n).len() == 0 {
                None
            } else {
                Some(n)
            }
        },
        None => None,
    };
    match name {
        None => {
            if has_default {
                Ok(DeviceChoice::Default)
            } else {
                Err(AppError::Audio(owned(NO_DEFAULT_DEVICE)))
            }
        },
        Some(n) => match devices {
            Err(e) => Err(AppError::Audio(concat2(ENUMERATION_FAILED_PREFIX, e.as_str()))),
            Ok(list) => {
                let ghost names = list@.map_values(|s: String| s@);
                let key = chars_of(n);
                let mut i: usize = 0;
                while i < list.len()
                    invariant
                        i <= list.len(),
                        key@ == n@,
                        names == list@.map_values(|s: String| s@),
                        forall|j: int| 0 <= j < i ==> #[trigger] names[j] != n@,
                    decreases list.len() - i,
                {
                    if chars_eq_str(&key, list[i].as_str()) {
                        assert(first_named(names, n@, i as int));
                        return Ok(DeviceChoice::Listed(i));
                    }
                    i += 1;
                }
                if has_default {
                    Ok(DeviceChoice::Default)
                } else {
                    Err(AppError::Audio(owned(NO_DEFAULT_DEVICE)))
                }
            },
        },
    }
}

} // verus!
