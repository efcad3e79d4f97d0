//! Settling which device a command is to talk to.

use crate::text::{push_owned_line, views};
use vstd::prelude::*;

verus! {

/// Why no device could be settled on.
#[derive(Clone, Copy, Debug, PartialEq, Eq, Structural)]
pub enum DeviceError {
    /// No device was named, and the caller does not prompt.
    NotSpecified,
    /// No device was named, and there is no terminal to prompt on.
    NoTerminal,
    /// The scan found no device.
    NoneFound,
}

impl DeviceError {
    /// The text shown to the user.
    pub open spec fn text(self) -> Seq<char> {
        match self {
            DeviceError::NotSpecified =>
                "No device specified. Use --device <ADDRESS> or set ARANET_DEVICE environment variable.\nRun 'aranet scan' to find nearby devices, or omit --device for interactive selection."@,
            DeviceError::NoTerminal =>
                "No device specified. Use --device <ADDRESS> or set ARANET_DEVICE environment variable.\nRun 'aranet scan' to find nearby devices."@,
            DeviceError::NoneFound =>
                "No Aranet devices found nearby.\nMake sure your device is powered on and in range."@,
        }
    }

    /// The text shown to the user.
    pub fn message(&self) -> (text: String)
        ensures
            text@ == self.text(),
    {
        match self {
            DeviceError::NotSpecified => String::from_str(
                "No device specified. Use --device <ADDRESS> or set ARANET_DEVICE environment variable.\nRun 'aranet scan' to find nearby devices, or omit --device for interactive selection.",
            ),
            DeviceError::NoTerminal => String::from_str(
                "No device specified. Use --device <ADDRESS> or set ARANET_DEVICE environment variable.\nRun 'aranet scan' to find nearby devices.",
            ),
            DeviceError::NoneFound => String::from_str(
                "No Aranet devices found nearby.\nMake sure your device is powered on and in range.",
            ),
        }
    }
}

/// The device named by the caller, or the error that tells the user how to
/// name one. For commands that never prompt.
pub fn require_device(device: Option<String>) -> (result: Result<String, DeviceError>)
    ensures
        result == match device {
            Some(identifier) => Ok::<String, DeviceError>(identifier),
            None => Err(DeviceError::NotSpecified),
        },
{
    match device {
        Some(identifier) => Ok(identifier),
        None => Err(DeviceError::NotSpecified),
    }
}

/// What to do about a device that may not have been named.
#[derive(Debug, PartialEq, Eq)]
pub enum Resolution {
    /// Talk to this device.
    Use(String),
    /// Scan for devices and let the user choose.
    Scan,
}

/// A device that a scan found, as far as choosing among them goes.
#[derive(Debug)]
pub struct Candidate {
    pub name: Option<String>,
    pub identifier: String,
}

/// What a scan leaves to be done.
#[derive(Debug)]
pub enum Choice {
    /// One device was found: it is the one. `notice` tells the user so.
    Only { identifier: String, notice: String },
    /// Several were found: show `items`, one per device and in the order
    /// found, and ask which.
    Ask { items: Vec<String> },
}

/// Said before the scan starts.
pub const SCANNING_NOTICE: &'static str = "No device specified. Scanning for nearby devices...";

/// The question put to the user.
pub const SELECT_PROMPT: &'static str = "Select a device";

/// How a device is shown to the user: its name, or `Unknown`, and its
/// identifier in brackets.
pub open spec fn label_text(candidate: Candidate) -> Seq<char> {
    (match candidate.name {
        Some(name) => name@,
        None => "Unknown"@,
    }) + " ("@ + candidate.identifier@ + ")"@
}

/// The labels of a list of devices, in order.
pub open spec fn labels(candidates: Seq<Candidate>) -> Seq<Seq<char>> {
    candidates.map_values(|candidate: Candidate| label_text(candidate))
}

/// What is said when a connection cannot be made: the device, what the
/// device library reported, and what may be wrong.
pub open spec fn connect_failure_text(identifier: Seq<char>, cause: Seq<char>) -> Seq<char> {
    "Failed to connect to device: "@ + identifier + "\n\nCause: "@ + cause
        + "\n\nPossible causes:\n  \u{2022} Bluetooth may be disabled \u{2014} check system settings\n  \u{2022} Device may be out of range \u{2014} try moving closer\n  \u{2022} Device may be connected to another host\n  \u{2022} Device address may be incorrect \u{2014} run 'aranet scan' to verify"@
}

/// Said while a connection to a device is being made.
pub fn connecting_message(identifier: &str) -> (text: String)
    ensures
        text@ == "Connecting to "@ + identifier@ + "..."@,
{
    let mut text = String::from_str("Connecting to ");
    text.append(identifier);
    text.append("...");
    text
}

/// The first decision of a command that may prompt: a named device is
/// used as it is; without one a scan follows, provided there is a terminal
/// to ask on.
pub fn resolve_device(device: Option<String>, terminal: bool) -> (result: Result<
    Resolution,
    DeviceError,
>)
    ensures
        result == match device {
            Some(identifier) => Ok::<Resolution, DeviceError>(Resolution::Use(identifier)),
            None => if terminal {
                Ok(Resolution::Scan)
            } else {
                Err(DeviceError::NoTerminal)
            },
        },
{
    match device {
        Some(identifier) => Ok(Resolution::Use(identifier)),
        None => if terminal {
            Ok(Resolution::Scan)
        } else {
            Err(DeviceError::NoTerminal)
        },
    }
}

/// Shows a device to the user.
pub fn label(candidate: &Candidate) -> (text: String)
    ensures
        text@ == label_text(*candidate),
{
    let mut text = match &candidate.name {
        Some(name) => name.clone(),
        None => String::from_str("Unknown"),
    };
    text.append(" (");
    text.append(candidate.identifier.as_str());
    text.append(")");
    text
}

/// The decision after a scan: nothing found is an error, a single device
/// is taken without asking, and among several the user chooses.
pub fn after_scan(candidates: &Vec<Candidate>) -> (result: Result<Choice, DeviceError>)
    ensures
        candidates@.len() == 0 ==> result == Err::<Choice, _>(DeviceError::NoneFound),
        candidates@.len() == 1 ==> ({
            &&& result matches Ok(Choice::Only { identifier, notice })
            &&& identifier@ == candidates@[0].identifier@
            &&& notice@ == "Found 1 device: "@ + label_text(candidates@[0])
        }),
        candidates@.len() > 1 ==> ({
            &&& result matches Ok(Choice::Ask { items })
            &&& views(items@) == labels(candidates@)
        }),
{
    if candidates.len() == 0 {
        Err(DeviceError::NoneFound)
    } else if candidates.len() == 1 {
        let mut notice = String::from_str("Found 1 device: ");
        let shown = label(&candidates[0]);
        notice.append(shown.as_str());
        Ok(Choice::Only { identifier: candidates[0].identifier.clone(), notice })
    } else {
        let mut items: Vec<String> = Vec::new();
        let mut i: usize = 0;
        while i < candidates.len()
            invariant
                i <= candidates.len(),
                views(items@) == labels(candidates@.take(i as int)),
            decreases candidates.len() - i,
        {
            let shown = label(&candidates[i]);
            push_owned_line(&mut items, shown);
            proof {
                assert(labels(candidates@.take(i + 1)) =~= labels(candidates@.take(i as int)).push(
                    label_text(candidates@[i as int]),
                ));
            }
            i = i + 1;
        }
        proof {
            assert(candidates@.take(i as int) =~= candidates@);
        }
        Ok(Choice::Ask { items })
    }
}

/// The identifier of the device the user chose, if the choice names one of
/// those shown.
pub fn selected(candidates: &Vec<Candidate>, selection: usize) -> (identifier: Option<String>)
    ensures
        selection < candidates@.len() ==> identifier is Some && identifier->0@
            == candidates@[selection as int].identifier@,
        selection >= candidates@.len() ==> identifier is None,
{
    if selection < candidates.len() {
        Some(candidates[selection].identifier.clone())
    } else {
        None
    }
}

/// Words the failure to connect to a device.
pub fn connect_failure_message(identifier: &str, cause: &str) -> (text: String)
    ensures
        text@ == connect_failure_text(identifier@, cause@),
{
    let mut text = String::from_str("Failed to connect to device: ");
    text.append(identifier);
    text.append("\n\nCause: ");
    text.append(cause);
    text.append(
        "\n\nPossible causes:\n  \u{2022} Bluetooth may be disabled \u{2014} check system settings\n  \u{2022} Device may be out of range \u{2014} try moving closer\n  \u{2022} Device may be connected to another host\n  \u{2022} Device address may be incorrect \u{2014} run 'aranet scan' to verify",
    );
    text
}

} // verus!
