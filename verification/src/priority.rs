//! Scheduling-class handling: the numeric priority classes of the target
//! operating system's scheduler and their fixed human-readable labels.

use vstd::prelude::*;
use crate::text::spec_access_denied;

verus! {

/// The lowest scheduling class; mutation targets this one.
pub const IDLE_PRIORITY_CLASS: u32 = 0x40;

/// Scheduling class below the default.
pub const BELOW_NORMAL_PRIORITY_CLASS: u32 = 0x4000;

/// The default scheduling class.
pub const NORMAL_PRIORITY_CLASS: u32 = 0x20;

/// Scheduling class above the default.
pub const ABOVE_NORMAL_PRIORITY_CLASS: u32 = 0x8000;

/// High scheduling class.
pub const HIGH_PRIORITY_CLASS: u32 = 0x80;

/// Real-time scheduling class.
pub const REALTIME_PRIORITY_CLASS: u32 = 0x100;

/// The human-readable label for a numeric scheduling class.  Every value
/// outside the closed set of known classes maps to "UNKNOWN", never to an
/// error.
pub open spec fn spec_priority_label(class: u32) -> Seq<char> {
    if class == IDLE_PRIORITY_CLASS {
        "IDLE"@
    } else if class == BELOW_NORMAL_PRIORITY_CLASS {
        "BELOW_NORMAL"@
    } else if class == NORMAL_PRIORITY_CLASS {
        "NORMAL"@
    } else if class == ABOVE_NORMAL_PRIORITY_CLASS {
        "ABOVE_NORMAL"@
    } else if class == HIGH_PRIORITY_CLASS {
        "HIGH"@
    } else if class == REALTIME_PRIORITY_CLASS {
        "REALTIME"@
    } else {
        "UNKNOWN"@
    }
}

/// Maps a numeric scheduling class to its label.
pub fn priority_label(class: u32) -> (s: String)
    ensures
        s@ == spec_priority_label(class),
{
    if class == IDLE_PRIORITY_CLASS {
        "IDLE".to_owned()
    } else if class == BELOW_NORMAL_PRIORITY_CLASS {
        "BELOW_NORMAL".to_owned()
    } else if class == NORMAL_PRIORITY_CLASS {
        "NORMAL".to_owned()
    } else if class == ABOVE_NORMAL_PRIORITY_CLASS {
        "ABOVE_NORMAL".to_owned()
    } else if class == HIGH_PRIORITY_CLASS {
        "HIGH".to_owned()
    } else if class == REALTIME_PRIORITY_CLASS {
        "REALTIME".to_owned()
    } else {
        "UNKNOWN".to_owned()
    }
}

/// The label snapshot stored for a scan, given what the priority probe
/// produced: the label of the class it read, or the access sentinel when no
/// access right sufficed.
pub open spec fn spec_priority_field(probe: Option<u32>) -> Seq<char> {
    match probe {
        Option::Some(class) => spec_priority_label(class),
        Option::None => spec_access_denied(),
    }
}

} // verus!
