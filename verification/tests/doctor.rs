use aranet_cli::doctor::{
    adapter_check, all_passed, report, scan_check, should_scan, troubleshooting_help, Check,
    Platform, ADAPTER_CHECK, SCAN_CHECK,
};

#[test]
fn check_pass_and_fail_keep_name_and_message() {
    let passed = Check::pass("Bluetooth Adapter", "Found and accessible".to_string());
    assert_eq!(passed.name, "Bluetooth Adapter");
    assert!(passed.passed);
    assert_eq!(passed.message, "Found and accessible");
    let failed = Check::fail("BLE Scanning", "Failed (timeout)".to_string());
    assert_eq!(failed.name, "BLE Scanning");
    assert!(!failed.passed);
    assert_eq!(failed.message, "Failed (timeout)");
    assert_eq!(passed.line(), "[PASS] Bluetooth Adapter: Found and accessible");
    assert_eq!(failed.line(), "[FAIL] BLE Scanning: Failed (timeout)");
}

#[test]
fn adapter_check_reports_the_reason_of_a_failure() {
    let found = adapter_check(Ok(()));
    assert_eq!(found.name, ADAPTER_CHECK);
    assert!(found.passed);
    assert_eq!(found.message, "Found and accessible");
    let missing = adapter_check(Err("no adapter".to_string()));
    assert_eq!(missing.name, "Bluetooth Adapter");
    assert!(!missing.passed);
    assert_eq!(missing.message, "Not available (no adapter)");
}

#[test]
fn scan_check_counts_devices_and_lists_known_names() {
    let none = scan_check(Ok(Vec::new()));
    assert_eq!(none.name, SCAN_CHECK);
    assert!(none.passed);
    assert_eq!(none.message, "Works, but no Aranet devices found nearby");

    let some = scan_check(Ok(vec![
        Some("Aranet4 12345".to_string()),
        None,
        Some("Aranet2 00001".to_string()),
    ]));
    assert!(some.passed);
    assert_eq!(some.message, "Found 3 device(s): Aranet4 12345, Aranet2 00001");

    let nameless = scan_check(Ok(vec![None]));
    assert_eq!(nameless.message, "Found 1 device(s): ");

    let many = scan_check(Ok((0..12).map(|i| Some(format!("d{}", i))).collect()));
    assert_eq!(
        many.message,
        "Found 12 device(s): d0, d1, d2, d3, d4, d5, d6, d7, d8, d9, d10, d11"
    );

    let failed = scan_check(Err("adapter busy".to_string()));
    assert_eq!(failed.name, "BLE Scanning");
    assert!(!failed.passed);
    assert_eq!(failed.message, "Failed (adapter busy)");
}

#[test]
fn scan_follows_only_a_passed_adapter_check() {
    assert!(!should_scan(&Vec::new()));
    assert!(should_scan(&vec![adapter_check(Ok(()))]));
    assert!(!should_scan(&vec![adapter_check(Err("x".to_string()))]));
    assert!(!should_scan(&vec![adapter_check(Ok(())), scan_check(Err("x".to_string()))]));
}

#[test]
fn all_passed_needs_every_check() {
    assert!(all_passed(&Vec::new()));
    assert!(all_passed(&vec![adapter_check(Ok(())), scan_check(Ok(Vec::new()))]));
    assert!(!all_passed(&vec![adapter_check(Ok(())), scan_check(Err("x".to_string()))]));
    assert!(!all_passed(&vec![adapter_check(Err("x".to_string()))]));
}

#[test]
fn troubleshooting_help_for_linux() {
    assert_eq!(
        troubleshooting_help(Platform::Linux, false),
        vec![
            "Troubleshooting Tips:",
            "",
            "Linux:",
            "  • Ensure BlueZ is installed: sudo apt install bluez",
            "  • Check Bluetooth service: systemctl status bluetooth",
            "  • Add user to bluetooth group: sudo usermod -aG bluetooth $USER",
            "",
        ]
    );
    assert_eq!(
        troubleshooting_help(Platform::Linux, true),
        vec![
            "Troubleshooting Tips:",
            "",
            "Linux:",
            "  • Ensure BlueZ is installed: sudo apt install bluez",
            "  • Check Bluetooth service: systemctl status bluetooth",
            "  • Add user to bluetooth group: sudo usermod -aG bluetooth $USER",
            "  • Check adapter: hciconfig -a",
            "  • Restart Bluetooth: sudo systemctl restart bluetooth",
            "",
        ]
    );
}

#[test]
fn troubleshooting_help_for_the_other_systems() {
    assert_eq!(
        troubleshooting_help(Platform::MacOs, true),
        vec![
            "Troubleshooting Tips:",
            "",
            "macOS:",
            "  • Ensure Bluetooth is enabled in System Settings",
            "  • Grant Bluetooth permission to Terminal/your app",
            "  • Try: System Settings → Privacy & Security → Bluetooth",
            "  • Check if other BLE apps work (e.g., LightBlue)",
            "  • Try resetting Bluetooth: sudo pkill bluetoothd",
            "",
        ]
    );
    assert_eq!(troubleshooting_help(Platform::MacOs, false).len(), 7);
    assert_eq!(
        troubleshooting_help(Platform::Windows, true),
        vec![
            "Troubleshooting Tips:",
            "",
            "Windows:",
            "  • Ensure Bluetooth is enabled in Settings",
            "  • Check Device Manager for Bluetooth adapter",
            "  • Update Bluetooth drivers if needed",
            "  • Try: Settings → Bluetooth & devices → Bluetooth → On",
            "",
        ]
    );
    assert_eq!(troubleshooting_help(Platform::Windows, false).len(), 7);
    assert_eq!(troubleshooting_help(Platform::Other, true), vec!["Troubleshooting Tips:", "", ""]);
}

#[test]
fn report_of_passed_checks_ends_with_the_good_news() {
    let checks = vec![adapter_check(Ok(())), scan_check(Ok(vec![Some("Aranet4".to_string())]))];
    assert_eq!(
        report(&checks, Platform::Linux, true),
        vec![
            "Results:",
            "────────────────────────────────────",
            "[PASS] Bluetooth Adapter: Found and accessible",
            "[PASS] BLE Scanning: Found 1 device(s): Aranet4",
            "",
            "All checks passed! Your system is ready to use Aranet devices.",
        ]
    );
}

#[test]
fn report_of_a_failed_check_ends_with_advice() {
    let checks = vec![adapter_check(Err("powered off".to_string()))];
    assert_eq!(
        report(&checks, Platform::Windows, false),
        vec![
            "Results:",
            "────────────────────────────────────",
            "[FAIL] Bluetooth Adapter: Not available (powered off)",
            "",
            "Troubleshooting Tips:",
            "",
            "Windows:",
            "  • Ensure Bluetooth is enabled in Settings",
            "  • Check Device Manager for Bluetooth adapter",
            "  • Update Bluetooth drivers if needed",
            "",
        ]
    );
}
