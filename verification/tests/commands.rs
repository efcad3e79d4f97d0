use aranet_cli::history::{downloaded_message, limit_records};
use aranet_cli::session::OutputFormat;
use aranet_cli::settings::{BluetoothRangeSetting, DeviceSetting, SettingError};
use aranet_cli::status::{
    display_name, status_layout, temperature_column, temperature_unit, StatusLayout,
};

#[test]
fn history_limit_keeps_the_first_records() {
    assert_eq!(limit_records(vec![1, 2, 3, 4, 5], 2), vec![1, 2]);
    assert_eq!(limit_records(vec![1, 2, 3], 3), vec![1, 2, 3]);
    assert_eq!(limit_records(vec![1, 2, 3], 7), vec![1, 2, 3]);
    assert_eq!(limit_records(vec![1, 2, 3], 1), vec![1]);
    assert_eq!(limit_records(Vec::<u8>::new(), 4), Vec::<u8>::new());
}

#[test]
fn history_limit_of_zero_keeps_everything() {
    assert_eq!(limit_records(vec!["a", "b"], 0), vec!["a", "b"]);
    assert_eq!(limit_records(Vec::<u8>::new(), 0), Vec::<u8>::new());
}

#[test]
fn history_download_is_announced_with_its_size() {
    assert_eq!(downloaded_message(0), "Downloaded 0 records.");
    assert_eq!(downloaded_message(2016), "Downloaded 2016 records.");
}

#[test]
fn progress_is_shown_only_with_text_and_without_quiet() {
    assert!(OutputFormat::Text.shows_progress(false));
    assert!(!OutputFormat::Text.shows_progress(true));
    assert!(!OutputFormat::Json.shows_progress(false));
    assert!(!OutputFormat::Csv.shows_progress(false));
    assert!(!OutputFormat::Csv.shows_progress(true));
    assert!(OutputFormat::Csv.carries_header());
    assert!(!OutputFormat::Text.carries_header());
    assert!(!OutputFormat::Json.carries_header());
}

#[test]
fn only_four_intervals_are_supported() {
    for minutes in 0..=255u8 {
        let result = DeviceSetting::Interval { minutes }.validate();
        if [1, 2, 5, 10].contains(&minutes) {
            assert_eq!(result, Ok(()));
        } else {
            assert_eq!(result, Err(SettingError::InvalidInterval { minutes }));
        }
    }
    assert_eq!(
        SettingError::InvalidInterval { minutes: 3 }.message(),
        "Invalid interval: 3. Valid values: 1, 2, 5, 10 minutes."
    );
}

#[test]
fn other_settings_are_always_valid() {
    assert_eq!(DeviceSetting::Range { range: BluetoothRangeSetting::Extended }.validate(), Ok(()));
    assert_eq!(DeviceSetting::SmartHome { enabled: false }.validate(), Ok(()));
}

#[test]
fn settings_are_confirmed_in_words() {
    assert_eq!(
        DeviceSetting::Interval { minutes: 10 }.confirmation(),
        "Measurement interval set to 10 minute(s)"
    );
    assert_eq!(
        DeviceSetting::Range { range: BluetoothRangeSetting::Standard }.confirmation(),
        "Bluetooth range set to Standard"
    );
    assert_eq!(
        DeviceSetting::Range { range: BluetoothRangeSetting::Extended }.confirmation(),
        "Bluetooth range set to Extended"
    );
    assert_eq!(
        DeviceSetting::SmartHome { enabled: true }.confirmation(),
        "Smart Home integration enabled"
    );
    assert_eq!(
        DeviceSetting::SmartHome { enabled: false }.confirmation(),
        "Smart Home integration disabled"
    );
}

#[test]
fn status_layout_follows_the_kind_of_sensor() {
    assert_eq!(status_layout(800, None, false), StatusLayout::CarbonDioxide);
    assert_eq!(status_layout(1, Some(50), true), StatusLayout::CarbonDioxide);
    assert_eq!(status_layout(0, Some(50), true), StatusLayout::Radon { radon: 50 });
    assert_eq!(status_layout(0, Some(0), false), StatusLayout::Radon { radon: 0 });
    assert_eq!(status_layout(0, None, true), StatusLayout::Radiation);
    assert_eq!(status_layout(0, None, false), StatusLayout::Climate);
}

#[test]
fn status_is_shown_under_the_device_name_or_the_identifier() {
    assert_eq!(display_name(Some("Aranet4 12345".to_string()), "AA:BB"), "Aranet4 12345");
    assert_eq!(display_name(None, "AA:BB"), "AA:BB");
    assert_eq!(temperature_column(true), "temperature_f");
    assert_eq!(temperature_column(false), "temperature_c");
    assert_eq!(temperature_unit(true), "F");
    assert_eq!(temperature_unit(false), "C");
}
