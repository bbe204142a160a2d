//! The charging status of a battery and its textual form.
use vstd::prelude::*;
use crate::text::chars_eq_str;
use crate::text::chars_of;

verus! {

/// The charge state a power-supply device reports.
#[derive(Clone, Copy, Debug, PartialEq, Eq, Structural)]
pub enum ChargingStatus {
    Charging,
    Discharging,
    Full,
}

/// The given text named no known charging status.
#[derive(Clone, Copy, Debug, PartialEq, Eq, Structural)]
pub struct StatusParseError;

/// The status a status-attribute string denotes: one of the three
/// canonical literals, anything else is a parse failure.
pub open spec fn status_of_text(s: Seq<char>) -> Option<ChargingStatus> {
    if s == "Charging"@ {
        Some(ChargingStatus::Charging)
    } else if s == "Discharging"@ {
        Some(ChargingStatus::Discharging)
    } else if s == "Full"@ {
        Some(ChargingStatus::Full)
    } else {
        None
    }
}

/// The canonical rendering of a status, the same literals that
/// `status_of_text` accepts.
pub open spec fn status_text(s: ChargingStatus) -> Seq<char> {
    match s {
        ChargingStatus::Charging => "Charging"@,
        ChargingStatus::Discharging => "Discharging"@,
        ChargingStatus::Full => "Full"@,
    }
}

impl ChargingStatus {
    /// The status this transition should notify about: the new status
    /// when it differs from the previous one, nothing otherwise.
    pub fn edge(self, other: Self) -> (r: Option<Self>)
        ensures
            r == if self != other {
                Some(self)
            } else {
                None::<ChargingStatus>
            },
    {
        if self != other {
            Some(self)
        } else {
            None
        }
    }

    /// Parses one of the canonical status literals, exactly.
    pub fn from_text(s: &str) -> (r: Result<Self, StatusParseError>)
        ensures
            r == match status_of_text(s@) {
                Some(v) => Ok::<ChargingStatus, StatusParseError>(v),
                None => Err::<ChargingStatus, StatusParseError>(StatusParseError),
            },
    {
        let cs = chars_of(s);
        if chars_eq_str(&cs, "Charging") {
            Ok(ChargingStatus::Charging)
        } else if chars_eq_str(&cs, "Discharging") {
            Ok(ChargingStatus::Discharging)
        } else if chars_eq_str(&cs, "Full") {
            Ok(ChargingStatus::Full)
        } else {
            Err(StatusParseError)
        }
    }

    /// The canonical rendering of this status.
    pub fn label(self) -> (r: &'static str)
        ensures
            r@ == status_text(self),
    {
        match self {
            ChargingStatus::Charging => "Charging",
            ChargingStatus::Discharging => "Discharging",
            ChargingStatus::Full => "Full",
        }
    }
}

} // verus!
