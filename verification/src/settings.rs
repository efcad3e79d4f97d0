//! Deciding what a request to change a device setting amounts to.

use crate::text::{decimal_digits, push_decimal};
use vstd::prelude::*;

verus! {

/// How far the device lets its radio reach.
#[derive(Clone, Copy, Debug, PartialEq, Eq, Structural)]
pub enum BluetoothRangeSetting {
    Standard,
    Extended,
}

/// A setting the user asks to change.
#[derive(Clone, Copy, Debug, PartialEq, Eq, Structural)]
pub enum DeviceSetting {
    /// Minutes between two measurements.
    Interval { minutes: u8 },
    /// The reach of the radio.
    Range { range: BluetoothRangeSetting },
    /// Whether the device answers smart-home integrations.
    SmartHome { enabled: bool },
}

/// Why a setting cannot be applied.
#[derive(Clone, Copy, Debug, PartialEq, Eq, Structural)]
pub enum SettingError {
    /// The device does not measure at this interval.
    InvalidInterval { minutes: u8 },
}

/// The intervals the device can measure at, in minutes.
pub open spec fn is_supported_interval(minutes: u8) -> bool {
    minutes == 1 || minutes == 2 || minutes == 5 || minutes == 10
}

impl BluetoothRangeSetting {
    /// The name of the range.
    pub open spec fn name(self) -> Seq<char> {
        match self {
            BluetoothRangeSetting::Standard => "Standard"@,
            BluetoothRangeSetting::Extended => "Extended"@,
        }
    }
}

impl DeviceSetting {
    /// What the user is told once the device has taken the setting.
    pub open spec fn confirmation_text(self) -> Seq<char> {
        match self {
            DeviceSetting::Interval { minutes } => "Measurement interval set to "@
                + decimal_digits(minutes as nat) + " minute(s)"@,
            DeviceSetting::Range { range } => "Bluetooth range set to "@ + range.name(),
            DeviceSetting::SmartHome { enabled } => if enabled {
                "Smart Home integration enabled"@
            } else {
                "Smart Home integration disabled"@
            },
        }
    }

    /// Checks that the device can take the setting. Only an interval can be
    /// out of the question: the device measures every 1, 2, 5 or 10
    /// minutes and at no other pace.
    pub fn validate(&self) -> (result: Result<(), SettingError>)
        ensures
            result == match *self {
                DeviceSetting::Interval { minutes } => if is_supported_interval(minutes) {
                    Ok::<(), SettingError>(())
                } else {
                    Err(SettingError::InvalidInterval { minutes })
                },
                _ => Ok(()),
            },
    {
        match *self {
            DeviceSetting::Interval { minutes } => {
                if minutes == 1 || minutes == 2 || minutes == 5 || minutes == 10 {
                    Ok(())
                } else {
                    Err(SettingError::InvalidInterval { minutes })
                }
            },
            _ => Ok(()),
        }
    }

    /// Words what the user is told once the device has taken the setting.
    pub fn confirmation(&self) -> (text: String)
        ensures
            text@ == self.confirmation_text(),
    {
        match *self {
            DeviceSetting::Interval { minutes } => {
                let mut text = String::from_str("Measurement interval set to ");
                push_decimal(&mut text, minutes as u64);
                text.append(" minute(s)");
                text
            },
            DeviceSetting::Range { range } => {
                let mut text = String::from_str("Bluetooth range set to ");
                text.append(
                    match range {
                        BluetoothRangeSetting::Standard => "Standard",
                        BluetoothRangeSetting::Extended => "Extended",
                    },
                );
                text
            },
            DeviceSetting::SmartHome { enabled } => String::from_str(
                if enabled {
                    "Smart Home integration enabled"
                } else {
                    "Smart Home integration disabled"
                },
            ),
        }
    }
}

impl SettingError {
    /// The text shown to the user.
    pub open spec fn text(self) -> Seq<char> {
        match self {
            SettingError::InvalidInterval { minutes } => "Invalid interval: "@ + decimal_digits(
                minutes as nat,
            ) + ". Valid values: 1, 2, 5, 10 minutes."@,
        }
    }

    /// The text shown to the user.
    pub fn message(&self) -> (text: String)
        ensures
            text@ == self.text(),
    {
        match *self {
            SettingError::InvalidInterval { minutes } => {
                let mut text = String::from_str("Invalid interval: ");
                push_decimal(&mut text, minutes as u64);
                text.append(". Valid values: 1, 2, 5, 10 minutes.");
                text
            },
        }
    }
}

} // verus!
