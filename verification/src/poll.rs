//! A cached attribute value that is refreshed from the text of one
//! attribute file and keeps its last good value when a read fails.
use vstd::prelude::*;
use crate::error::BatteryError;
use crate::status::ChargingStatus;
use crate::status::status_of_text;
use crate::text::chars_of;
use crate::text::parse_u64;
use crate::text::parse_u64_spec;
use crate::text::parse_u8;
use crate::text::parse_u8_spec;
use crate::text::trim_chars;
use crate::text::trim_spec;

verus! {

/// One attempt to read an attribute file: the file may be absent,
/// present but unreadable, or read in full.
#[derive(Clone, Debug)]
pub enum AttrRead {
    Missing,
    Unreadable,
    Content(String),
}

/// A value that can be parsed from the trimmed text of an attribute
/// file.
pub trait Attribute: Sized + Copy {
    /// The value the text denotes, if any.
    spec fn parse_spec(s: Seq<char>) -> Option<Self>;

    /// Parses the given characters exactly as `parse_spec` says.
    fn parse_attr(s: &Vec<char>) -> (r: Option<Self>)
        ensures
            r == Self::parse_spec(s@),
    ;
}

impl Attribute for u64 {
    open spec fn parse_spec(s: Seq<char>) -> Option<u64> {
        parse_u64_spec(s)
    }

    fn parse_attr(s: &Vec<char>) -> (r: Option<u64>) {
        parse_u64(s)
    }
}

impl Attribute for u8 {
    open spec fn parse_spec(s: Seq<char>) -> Option<u8> {
        parse_u8_spec(s)
    }

    fn parse_attr(s: &Vec<char>) -> (r: Option<u8>) {
        parse_u8(s)
    }
}

impl Attribute for ChargingStatus {
    open spec fn parse_spec(s: Seq<char>) -> Option<ChargingStatus> {
        status_of_text(s)
    }

    fn parse_attr(s: &Vec<char>) -> (r: Option<ChargingStatus>) {
        if crate::text::chars_eq_str(s, "Charging") {
            Some(ChargingStatus::Charging)
        } else if crate::text::chars_eq_str(s, "Discharging") {
            Some(ChargingStatus::Discharging)
        } else if crate::text::chars_eq_str(s, "Full") {
            Some(ChargingStatus::Full)
        } else {
            None
        }
    }
}

/// The cached value after applying one read: the freshly parsed value
/// when the read succeeded and its trimmed text parses, the old value
/// otherwise.
pub open spec fn polled_update<T: Attribute>(cur: T, read: AttrRead) -> T {
    match read {
        AttrRead::Content(s) => match T::parse_spec(trim_spec(s@)) {
            Some(v) => v,
            None => cur,
        },
        _ => cur,
    }
}

/// The failure an update reports: none when the trimmed text parsed,
/// `AttributeUnparsable` when it did not, `AttributeUnreadable` when
/// there was no text at all.
pub open spec fn polled_outcome<T: Attribute>(read: AttrRead) -> Result<(), BatteryError> {
    match read {
        AttrRead::Content(s) => match T::parse_spec(trim_spec(s@)) {
            Some(v) => Ok(()),
            None => Err(BatteryError::AttributeUnparsable),
        },
        _ => Err(BatteryError::AttributeUnreadable),
    }
}

/// A typed value cached from one attribute file, together with the
/// path it is read from.
///
/// The value is always the last successfully parsed read, or the
/// initial value when no read has succeeded yet.
#[derive(Clone, Debug)]
pub struct PolledValue<T> {
    value: T,
    path: String,
}

impl<T> PolledValue<T> {
    /// The cached value.
    pub closed spec fn spec_value(&self) -> T {
        self.value
    }

    /// The attribute path the value is read from.
    pub closed spec fn spec_path(&self) -> Seq<char> {
        self.path@
    }

    /// Stores an initial value and the attribute path; never fails,
    /// even when the path is not readable.
    pub fn new(initial: T, path: String) -> (r: Self)
        ensures
            r.spec_value() == initial,
            r.spec_path() == path@,
    {
        PolledValue { value: initial, path }
    }

    /// The path this value is read from.
    pub fn path(&self) -> (r: &String)
        ensures
            r@ == self.spec_path(),
    {
        &self.path
    }
}

impl<T: Attribute> PolledValue<T> {
    /// The cached value; reading it never fails.
    pub fn get(&self) -> (r: T)
        ensures
            r == self.spec_value(),
    {
        self.value
    }

    /// Applies one read of the attribute file: on success the trimmed
    /// text is parsed and replaces the cached value; any failure
    /// leaves the cached value untouched and is reported.
    pub fn update(&mut self, read: &AttrRead) -> (r: Result<(), BatteryError>)
        ensures
            final (self).spec_value() == polled_update(old(self).spec_value(), *read),
            final (self).spec_path() == old(self).spec_path(),
            r == polled_outcome::<T>(*read),
    {
        match read {
            AttrRead::Content(s) => {
                let trimmed = trim_chars(&chars_of(s.as_str()));
                match T::parse_attr(&trimmed) {
                    Some(v) => {
                        self.value = v;
                        Ok(())
                    },
                    None => Err(BatteryError::AttributeUnparsable),
                }
            },
            _ => Err(BatteryError::AttributeUnreadable),
        }
    }
}

} // verus!
