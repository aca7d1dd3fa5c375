//! The wireless interface: how its device is found and how it is switched.

use vstd::prelude::*;
use vstd::string::*;
use crate::error::{ErrorView, ReauthfiError};
use crate::pattern::{capture_group, regex_capture};

verus! {

/// The regular expression that finds the wireless device in a listing of
/// hardware ports: a port called `Wi-Fi` or `AirPort`, and as group 2 the
/// name after the next `Device:`.
pub const WIFI_DEVICE_PATTERN: &'static str =
    "(?s)Hardware Port:\\s*(Wi-Fi|AirPort).*?Device:\\s*([^\\s]+)";

/// Seconds to wait between switching the interface off and on again.
pub const SETTLE_SECONDS: u64 = 2;

/// Seconds to wait for the interface to join its network again.
pub const RECONNECT_SECONDS: u64 = 10;

/// The wireless device that a listing of hardware ports names.
pub open spec fn wifi_device_of(listing: Seq<char>) -> Option<Seq<char>> {
    regex_capture(WIFI_DEVICE_PATTERN@, listing, 2)
}

/// The command that lists the hardware ports.
pub open spec fn listing_argv() -> Seq<Seq<char>> {
    seq!["networksetup"@, "-listallhardwareports"@]
}

/// The command that switches `device` on or off.
pub open spec fn power_argv(device: Seq<char>, on: bool) -> Seq<Seq<char>> {
    seq![
        "networksetup"@,
        "-setairportpower"@,
        device,
        if on {
            "on"@
        } else {
            "off"@
        },
    ]
}

/// The wireless interface of the machine.
#[derive(Debug)]
pub struct WifiController;

impl WifiController {
    /// Turns what the device expression captured into the device's name; a
    /// missing capture is a not-found error.
    pub fn device_from_capture(capture: Option<String>) -> (device: Result<String, ReauthfiError>)
        ensures
            capture matches Some(found) ==> (device matches Ok(name) && name@ == found@),
            capture is None ==> (device matches Err(error) && error@ == ErrorView::NotFound),
    {
        match capture {
            Some(found) => Ok(found),
            None => Err(ReauthfiError::NotFound),
        }
    }

    /// Reads the wireless device's name out of a listing of hardware ports.
    /// A not-found error where the listing names none.
    pub fn wifi_device(listing: &str) -> (device: Result<String, ReauthfiError>)
        ensures
            wifi_device_of(listing@) matches Some(found) ==> (device matches Ok(name) && name@
                == found),
            wifi_device_of(listing@) is None ==> (device matches Err(error) && error@
                == ErrorView::NotFound),
    {
        Self::device_from_capture(capture_group(WIFI_DEVICE_PATTERN, listing, 2))
    }

    /// The command that lists the hardware ports.
    pub fn listing_command() -> (argv: Vec<String>)
        ensures
            argv.deep_view() == listing_argv(),
    {
        let mut argv: Vec<String> = Vec::new();
        argv.push(String::from_str("networksetup"));
        argv.push(String::from_str("-listallhardwareports"));
        assert(argv.deep_view() =~= listing_argv());
        argv
    }

    /// The command that switches `device` on or off.
    pub fn power_command(device: &str, on: bool) -> (argv: Vec<String>)
        ensures
            argv.deep_view() == power_argv(device@, on),
    {
        let mut argv: Vec<String> = Vec::new();
        argv.push(String::from_str("networksetup"));
        argv.push(String::from_str("-setairportpower"));
        argv.push(String::from_str(device));
        if on {
            argv.push(String::from_str("on"));
        } else {
            argv.push(String::from_str("off"));
        }
        assert(argv.deep_view() =~= power_argv(device@, on));
        argv
    }
}

} // verus!
