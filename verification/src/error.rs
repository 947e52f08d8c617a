use crate::text::{decimal, push_decimal, push_str};
use vstd::prelude::*;

verus! {

/// Errors of the light-control part of the library.
///
/// Failures that come from the network, JSON decoding or the file system
/// are carried as their message text.
#[derive(Debug, Clone, PartialEq, Eq)]
pub enum HolikeyzError {
    RequestError(String),
    JsonError(String),
    DeviceNotFound(String),
    InvalidTemperature(u16),
    InvalidBrightness(u8),
    DiscoveryError(String),
    DBusError(String),
    IoError(String),
}

/// The message of each error.
pub open spec fn error_text(e: HolikeyzError) -> Seq<char> {
    match e {
        HolikeyzError::RequestError(m) => "HTTP request failed: "@ + m@,
        HolikeyzError::JsonError(m) => "JSON parsing failed: "@ + m@,
        HolikeyzError::DeviceNotFound(u) => "Device not found at "@ + u@,
        HolikeyzError::InvalidTemperature(t) => "Invalid temperature value: "@ + decimal(t as nat)
            + " (must be between 143-344)"@,
        HolikeyzError::InvalidBrightness(b) => "Invalid brightness value: "@ + decimal(b as nat)
            + " (must be between 0-100)"@,
        HolikeyzError::DiscoveryError(m) => "mDNS discovery failed: "@ + m@,
        HolikeyzError::DBusError(m) => "D-Bus error: "@ + m@,
        HolikeyzError::IoError(m) => "IO error: "@ + m@,
    }
}

impl HolikeyzError {
    /// The message shown to the caller.
    pub fn message(&self) -> (m: String)
        ensures
            m@ == error_text(*self),
    {
        let mut m = String::new();
        match self {
            HolikeyzError::RequestError(s) => {
                push_str(&mut m, "HTTP request failed: ");
                push_str(&mut m, s.as_str());
            },
            HolikeyzError::JsonError(s) => {
                push_str(&mut m, "JSON parsing failed: ");
                push_str(&mut m, s.as_str());
            },
            HolikeyzError::DeviceNotFound(s) => {
                push_str(&mut m, "Device not found at ");
                push_str(&mut m, s.as_str());
            },
            HolikeyzError::InvalidTemperature(t) => {
                push_str(&mut m, "Invalid temperature value: ");
                push_decimal(&mut m, *t as u64);
                push_str(&mut m, " (must be between 143-344)");
            },
            HolikeyzError::InvalidBrightness(b) => {
                push_str(&mut m, "Invalid brightness value: ");
                push_decimal(&mut m, *b as u64);
                push_str(&mut m, " (must be between 0-100)");
            },
            HolikeyzError::DiscoveryError(s) => {
                push_str(&mut m, "mDNS discovery failed: ");
                push_str(&mut m, s.as_str());
            },
            HolikeyzError::DBusError(s) => {
                push_str(&mut m, "D-Bus error: ");
                push_str(&mut m, s.as_str());
            },
            HolikeyzError::IoError(s) => {
                push_str(&mut m, "IO error: ");
                push_str(&mut m, s.as_str());
            },
        }
        assert(m@ =~= error_text(*self));
        m
    }
}

} // verus!
