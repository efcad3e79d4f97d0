//! The verdicts of the diagnostics command and the report it prints.

use crate::text::{
    decimal_digits,
    join,
    joined,
    push_decimal,
    push_line,
    push_owned_line,
    views,
    RULE,
};
use vstd::prelude::*;

verus! {

/// The outcome of one diagnostic: what was checked, whether it passed, and
/// what was found.
#[derive(Debug)]
pub struct Check {
    pub name: &'static str,
    pub passed: bool,
    pub message: String,
}

/// The name of the check for a usable Bluetooth adapter.
pub const ADAPTER_CHECK: &'static str = "Bluetooth Adapter";

/// The name of the check that a scan can be run.
pub const SCAN_CHECK: &'static str = "BLE Scanning";

impl Check {
    /// A check that passed.
    pub fn pass(name: &'static str, message: String) -> (check: Check)
        ensures
            check.name == name,
            check.passed,
            check.message == message,
    {
        Check { name, passed: true, message }
    }

    /// A check that failed.
    pub fn fail(name: &'static str, message: String) -> (check: Check)
        ensures
            check.name == name,
            !check.passed,
            check.message == message,
    {
        Check { name, passed: false, message }
    }

    /// The line of the report that shows this check.
    pub open spec fn line_text(self) -> Seq<char> {
        (if self.passed {
            "[PASS] "@
        } else {
            "[FAIL] "@
        }) + self.name@ + ": "@ + self.message@
    }

    /// The line of the report that shows this check.
    pub fn line(&self) -> (text: String)
        ensures
            text@ == self.line_text(),
    {
        let mut text = String::from_str(if self.passed {
            "[PASS] "
        } else {
            "[FAIL] "
        });
        text.append(self.name);
        text.append(": ");
        text.append(self.message.as_str());
        text
    }
}

/// The names among `names` that are known, in order.
pub open spec fn known_names(names: Seq<Option<String>>) -> Seq<Seq<char>>
    decreases names.len(),
{
    if names.len() == 0 {
        Seq::empty()
    } else {
        match names.last() {
            Some(name) => known_names(names.drop_last()).push(name@),
            None => known_names(names.drop_last()),
        }
    }
}

/// What the scan check reports about the devices it found: how many there
/// are, and the names of those that have one.
pub open spec fn scan_summary(names: Seq<Option<String>>) -> Seq<char> {
    if names.len() == 0 {
        "Works, but no Aranet devices found nearby"@
    } else {
        "Found "@ + decimal_digits(names.len()) + " device(s): "@ + joined(
            known_names(names),
            ", "@,
        )
    }
}

/// The verdict on the Bluetooth adapter: it passes when one was found, and
/// fails with the reason otherwise.
pub fn adapter_check(outcome: Result<(), String>) -> (check: Check)
    ensures
        check.name == ADAPTER_CHECK,
        check.passed == outcome is Ok,
        check.message@ == match outcome {
            Ok(_) => "Found and accessible"@,
            Err(reason) => "Not available ("@ + reason@ + ")"@,
        },
{
    match outcome {
        Ok(_) => Check::pass(ADAPTER_CHECK, String::from_str("Found and accessible")),
        Err(reason) => {
            let mut message = String::from_str("Not available (");
            message.append(reason.as_str());
            message.append(")");
            Check::fail(ADAPTER_CHECK, message)
        },
    }
}

/// The verdict on scanning, from the names of the devices a scan found. A
/// scan that ran passes, even if it found nothing; one that could not run
/// fails with the reason.
pub fn scan_check(outcome: Result<Vec<Option<String>>, String>) -> (check: Check)
    ensures
        check.name == SCAN_CHECK,
        check.passed == outcome is Ok,
        check.message@ == match outcome {
            Ok(names) => scan_summary(names@),
            Err(reason) => "Failed ("@ + reason@ + ")"@,
        },
{
    match outcome {
        Ok(names) => {
            if names.len() == 0 {
                Check::pass(
                    SCAN_CHECK,
                    String::from_str("Works, but no Aranet devices found nearby"),
                )
            } else {
                let mut known: Vec<String> = Vec::new();
                let mut i: usize = 0;
                while i < names.len()
                    invariant
                        i <= names.len(),
                        views(known@) == known_names(names@.take(i as int)),
                    decreases names.len() - i,
                {
                    proof {
                        assert(names@.take(i + 1).drop_last() =~= names@.take(i as int));
                        assert(names@.take(i + 1).last() == names@[i as int]);
                    }
                    match &names[i] {
                        Some(name) => {
                            push_line(&mut known, name.as_str());
                        },
                        None => {},
                    }
                    i = i + 1;
                }
                proof {
                    assert(names@.take(i as int) =~= names@);
                }
                let mut message = String::from_str("Found ");
                push_decimal(&mut message, names.len() as u64);
                message.append(" device(s): ");
                let list = join(&known, ", ");
                message.append(list.as_str());
                Check::pass(SCAN_CHECK, message)
            }
        },
        Err(reason) => {
            let mut message = String::from_str("Failed (");
            message.append(reason.as_str());
            message.append(")");
            Check::fail(SCAN_CHECK, message)
        },
    }
}

/// Whether every check of the list passed.
pub open spec fn all_passing(checks: Seq<Check>) -> bool {
    forall|i: int| 0 <= i < checks.len() ==> (#[trigger] checks[i]).passed
}

/// A scan is only worth running after an adapter was found: when the check
/// made last has passed.
pub fn should_scan(checks: &Vec<Check>) -> (yes: bool)
    ensures
        yes == (checks@.len() > 0 && checks@.last().passed),
{
    checks.len() > 0 && checks[checks.len() - 1].passed
}

/// Whether every check passed.
pub fn all_passed(checks: &Vec<Check>) -> (yes: bool)
    ensures
        yes == all_passing(checks@),
{
    let mut i: usize = 0;
    while i < checks.len()
        invariant
            i <= checks.len(),
            forall|k: int| 0 <= k < i ==> (#[trigger] checks@[k]).passed,
        decreases checks.len() - i,
    {
        if !checks[i].passed {
            return false;
        }
        i = i + 1;
    }
    true
}

/// The system the program runs on, as far as the advice differs.
#[derive(Clone, Copy, Debug, PartialEq, Eq, Structural)]
pub enum Platform {
    MacOs,
    Linux,
    Windows,
    Other,
}

/// The advice for one system; the last lines only when more detail is asked
/// for.
pub open spec fn platform_tips(platform: Platform, verbose: bool) -> Seq<Seq<char>> {
    match platform {
        Platform::MacOs => seq![
            "macOS:"@,
            "  \u{2022} Ensure Bluetooth is enabled in System Settings"@,
            "  \u{2022} Grant Bluetooth permission to Terminal/your app"@,
            "  \u{2022} Try: System Settings \u{2192} Privacy & Security \u{2192} Bluetooth"@,
        ] + if verbose {
            seq![
                "  \u{2022} Check if other BLE apps work (e.g., LightBlue)"@,
                "  \u{2022} Try resetting Bluetooth: sudo pkill bluetoothd"@,
            ]
        } else {
            Seq::empty()
        },
        Platform::Linux => seq![
            "Linux:"@,
            "  \u{2022} Ensure BlueZ is installed: sudo apt install bluez"@,
            "  \u{2022} Check Bluetooth service: systemctl status bluetooth"@,
            "  \u{2022} Add user to bluetooth group: sudo usermod -aG bluetooth $USER"@,
        ] + if verbose {
            seq![
                "  \u{2022} Check adapter: hciconfig -a"@,
                "  \u{2022} Restart Bluetooth: sudo systemctl restart bluetooth"@,
            ]
        } else {
            Seq::empty()
        },
        Platform::Windows => seq![
            "Windows:"@,
            "  \u{2022} Ensure Bluetooth is enabled in Settings"@,
            "  \u{2022} Check Device Manager for Bluetooth adapter"@,
            "  \u{2022} Update Bluetooth drivers if needed"@,
        ] + if verbose {
            seq!["  \u{2022} Try: Settings \u{2192} Bluetooth & devices \u{2192} Bluetooth \u{2192} On"@]
        } else {
            Seq::empty()
        },
        Platform::Other => Seq::empty(),
    }
}

/// The advice printed when a check failed: a title, the tips for the
/// system, and a closing blank line.
pub open spec fn troubleshooting_text(platform: Platform, verbose: bool) -> Seq<Seq<char>> {
    seq!["Troubleshooting Tips:"@, ""@] + platform_tips(platform, verbose) + seq![""@]
}

/// Adds the advice for a failed check to `lines`.
pub fn push_troubleshooting_help(lines: &mut Vec<String>, platform: Platform, verbose: bool)
    ensures
        views(final(lines)@) == views(old(lines)@) + troubleshooting_text(platform, verbose),
{
    push_line(lines, "Troubleshooting Tips:");
    push_line(lines, "");
    match platform {
        Platform::MacOs => {
            push_line(lines, "macOS:");
            push_line(lines, "  \u{2022} Ensure Bluetooth is enabled in System Settings");
            push_line(lines, "  \u{2022} Grant Bluetooth permission to Terminal/your app");
            push_line(
                lines,
                "  \u{2022} Try: System Settings \u{2192} Privacy & Security \u{2192} Bluetooth",
            );
            if verbose {
                push_line(lines, "  \u{2022} Check if other BLE apps work (e.g., LightBlue)");
                push_line(lines, "  \u{2022} Try resetting Bluetooth: sudo pkill bluetoothd");
            }
        },
        Platform::Linux => {
            push_line(lines, "Linux:");
            push_line(lines, "  \u{2022} Ensure BlueZ is installed: sudo apt install bluez");
            push_line(lines, "  \u{2022} Check Bluetooth service: systemctl status bluetooth");
            push_line(
                lines,
                "  \u{2022} Add user to bluetooth group: sudo usermod -aG bluetooth $USER",
            );
            if verbose {
                push_line(lines, "  \u{2022} Check adapter: hciconfig -a");
                push_line(lines, "  \u{2022} Restart Bluetooth: sudo systemctl restart bluetooth");
            }
        },
        Platform::Windows => {
            push_line(lines, "Windows:");
            push_line(lines, "  \u{2022} Ensure Bluetooth is enabled in Settings");
            push_line(lines, "  \u{2022} Check Device Manager for Bluetooth adapter");
            push_line(lines, "  \u{2022} Update Bluetooth drivers if needed");
            if verbose {
                push_line(
                    lines,
                    "  \u{2022} Try: Settings \u{2192} Bluetooth & devices \u{2192} Bluetooth \u{2192} On",
                );
            }
        },
        Platform::Other => {},
    }
    push_line(lines, "");
    assert(views(lines@) =~= views(old(lines)@) + troubleshooting_text(platform, verbose));
}

/// The advice printed when a check failed.
pub fn troubleshooting_help(platform: Platform, verbose: bool) -> (lines: Vec<String>)
    ensures
        views(lines@) == troubleshooting_text(platform, verbose),
{
    let mut lines: Vec<String> = Vec::new();
    push_troubleshooting_help(&mut lines, platform, verbose);
    assert(views(lines@) =~= troubleshooting_text(platform, verbose));
    lines
}

/// The lines that show each check of the list, in order.
pub open spec fn check_lines(checks: Seq<Check>) -> Seq<Seq<char>> {
    checks.map_values(|check: Check| check.line_text())
}

/// The report: a heading, one line per check, and then either the word
/// that all is well or the advice for the system.
pub open spec fn report_text(checks: Seq<Check>, platform: Platform, verbose: bool) -> Seq<
    Seq<char>,
> {
    seq![
        "Results:"@,
        RULE@,
    ] + check_lines(checks) + seq![""@] + if all_passing(checks) {
        seq!["All checks passed! Your system is ready to use Aranet devices."@]
    } else {
        troubleshooting_text(platform, verbose)
    }
}

/// Writes the report on the checks that were made.
pub fn report(checks: &Vec<Check>, platform: Platform, verbose: bool) -> (lines: Vec<String>)
    ensures
        views(lines@) == report_text(checks@, platform, verbose),
{
    let mut lines: Vec<String> = Vec::new();
    push_line(&mut lines, "Results:");
    push_line(&mut lines, RULE);
    let ghost heading = views(lines@);
    let mut i: usize = 0;
    while i < checks.len()
        invariant
            i <= checks.len(),
            views(lines@) == heading + check_lines(checks@.take(i as int)),
        decreases checks.len() - i,
    {
        let line = checks[i].line();
        push_owned_line(&mut lines, line);
        proof {
            assert(check_lines(checks@.take(i + 1)) =~= check_lines(checks@.take(i as int)).push(
                checks@[i as int].line_text(),
            ));
            assert(views(lines@) =~= heading + check_lines(checks@.take(i + 1)));
        }
        i = i + 1;
    }
    proof {
        assert(checks@.take(i as int) =~= checks@);
    }
    push_line(&mut lines, "");
    if all_passed(checks) {
        push_line(&mut lines, "All checks passed! Your system is ready to use Aranet devices.");
    } else {
        push_troubleshooting_help(&mut lines, platform, verbose);
    }
    assert(views(lines@) =~= report_text(checks@, platform, verbose));
    lines
}

} // verus!
