//! A candidate power-supply device, as one probe of its directory saw
//! it: whether the directory exists, and the reads of its attribute
//! files.
use vstd::prelude::*;
use crate::poll::AttrRead;
use crate::text::chars_eq_str;
use crate::text::chars_of;
use crate::text::trim_chars;
use crate::text::trim_spec;

verus! {

/// One probe's reads of the six telemetry attribute files of a device.
#[derive(Clone, Debug)]
pub struct Telemetry {
    /// `capacity`: the charge level as a percentage.
    pub level: AttrRead,
    /// `charge_full`: the total capacity.
    pub capacity: AttrRead,
    /// `charge_now`: the current charge.
    pub charge: AttrRead,
    /// `current_now`: the instantaneous current draw.
    pub current: AttrRead,
    /// `cycle_count`: the number of charge cycles.
    pub cycles: AttrRead,
    /// `status`: the charging status text.
    pub status: AttrRead,
}

/// A candidate device directory, probed once.
#[derive(Clone, Debug)]
pub struct Device {
    /// The directory's name under the power-supply root.
    pub name: String,
    /// Whether the path exists and is a directory.
    pub is_dir: bool,
    /// The read of the `type` attribute file.
    pub type_attr: AttrRead,
    /// The read of the optional `scope` attribute file.
    pub scope: AttrRead,
    /// The reads of the telemetry attribute files.
    pub telemetry: Telemetry,
}

/// Whether a probed device is a system battery: a directory whose
/// `type` file reads `Battery` and whose `scope` file, if it can be
/// read at all, reads `System`.
pub open spec fn classify(d: Device) -> bool {
    &&& d.is_dir
    &&& d.type_attr matches AttrRead::Content(t) && trim_spec(t@) == "Battery"@
    &&& (d.scope matches AttrRead::Content(s) ==> trim_spec(s@) == "System"@)
}

/// Whether an attribute file is present, readable or not.
pub open spec fn present(a: AttrRead) -> bool {
    !(a matches AttrRead::Missing)
}

/// How many of the six telemetry attribute files are present,
/// independent of their contents.
pub open spec fn rating_spec(d: Device) -> int {
    (if present(d.telemetry.current) {
        1int
    } else {
        0
    }) + (if present(d.telemetry.level) {
        1int
    } else {
        0
    }) + (if present(d.telemetry.capacity) {
        1int
    } else {
        0
    }) + (if present(d.telemetry.charge) {
        1int
    } else {
        0
    }) + (if present(d.telemetry.cycles) {
        1int
    } else {
        0
    }) + (if present(d.telemetry.status) {
        1int
    } else {
        0
    })
}

fn present_exec(a: &AttrRead) -> (r: bool)
    ensures
        r == present(*a),
{
    match a {
        AttrRead::Missing => false,
        _ => true,
    }
}

impl Device {
    /// Classifies this device, exactly as `classify` says; soft
    /// failures while probing appear as missing or unreadable
    /// attributes and classify as not-a-battery.
    pub fn is_system_battery(&self) -> (r: bool)
        ensures
            r == classify(*self),
    {
        if !self.is_dir {
            return false;
        }
        let ty = match &self.type_attr {
            AttrRead::Content(t) => t,
            _ => {
                return false;
            },
        };
        let ty_trimmed = trim_chars(&chars_of(ty.as_str()));
        if !chars_eq_str(&ty_trimmed, "Battery") {
            return false;
        }
        match &self.scope {
            AttrRead::Content(s) => {
                let sc_trimmed = trim_chars(&chars_of(s.as_str()));
                chars_eq_str(&sc_trimmed, "System")
            },
            _ => true,
        }
    }

    /// The capability rating: the count of the six expected telemetry
    /// files that are present, a ranking signal only.
    pub fn rating(&self) -> (r: u8)
        ensures
            r as int == rating_spec(*self),
    {
        let mut r: u8 = 0;
        if present_exec(&self.telemetry.current) {
            r += 1;
        }
        if present_exec(&self.telemetry.level) {
            r += 1;
        }
        if present_exec(&self.telemetry.capacity) {
            r += 1;
        }
        if present_exec(&self.telemetry.charge) {
            r += 1;
        }
        if present_exec(&self.telemetry.cycles) {
            r += 1;
        }
        if present_exec(&self.telemetry.status) {
            r += 1;
        }
        r
    }
}

} // verus!
