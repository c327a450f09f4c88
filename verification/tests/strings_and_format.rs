use smart_health::Severity;
use smart_health::local_strings::Language;
use smart_health::local_strings::LocalStrings;
use smart_health::numfmt::i64_to_string;
use smart_health::numfmt::u128_to_string;
use smart_health::utils::convert_data_units;
use smart_health::utils::convert_total_lbas;
use smart_health::utils::format_power_on_hours;

#[test]
fn decimal_rendering() {
    assert_eq!(u128_to_string(0), "0");
    assert_eq!(u128_to_string(7), "7");
    assert_eq!(u128_to_string(1234567890), "1234567890");
    assert_eq!(i64_to_string(-12345), "-12345");
    assert_eq!(i64_to_string(i64::MIN), "-9223372036854775808");
    assert_eq!(i64_to_string(i64::MAX), "9223372036854775807");
}

#[test]
fn data_units_to_terabytes_one_decimal() {
    // 1,953,125 units of 512,000 bytes are exactly one terabyte.
    assert_eq!(convert_data_units(1_953_125), "1.0 TB");
    assert_eq!(convert_data_units(0), "0.0 TB");
    assert_eq!(convert_data_units(1_000_000), "0.5 TB");
    assert_eq!(convert_data_units(-1), "-0.0 TB");
}

#[test]
fn total_lbas_to_terabytes_two_decimals() {
    // 1,953,125,000 blocks of 512 bytes are exactly one terabyte.
    assert_eq!(convert_total_lbas(1_953_125_000), "1.00 TB");
    assert_eq!(convert_total_lbas(0), "0.00 TB");
    // 9,765,625 blocks are 0.005 TB; the half rounds up.
    assert_eq!(convert_total_lbas(9_765_625), "0.01 TB");
}

#[test]
fn hours_with_whole_days() {
    assert_eq!(format_power_on_hours(0), "0 h (0 Tage)");
    assert_eq!(format_power_on_hours(23), "23 h (0 Tage)");
    assert_eq!(format_power_on_hours(49), "49 h (2 Tage)");
    assert_eq!(format_power_on_hours(8760), "8760 h (365 Tage)");
}

#[test]
fn english_strings() {
    let s = LocalStrings::new(Language::EN);
    assert_eq!(s.no_devices(), "No drives found");
    assert_eq!(s.header_title(), "Storage Media Diagnostics");
    assert_eq!(s.spare_blocks(), "Available Spare Blocks");
    assert_eq!(s.drive_health(), "Drive Health");
    assert_eq!(s.remaining(), "% remaining");
    assert_eq!(s.table_property(), "Property");
    assert_eq!(s.table_value(), "Current Value");
    assert_eq!(s.table_status(), "Status");
    assert_eq!(s.json_parse_error(), "JSON parsing failed");
    assert_eq!(s.smartctl_start_error(), "smartctl could not be started");
}

#[test]
fn german_strings() {
    let s = LocalStrings::new(Language::DE);
    assert_eq!(s.no_devices(), "Keine Laufwerke gefunden");
    assert_eq!(s.header_title(), "Speichermedien-Diagnose");
    assert_eq!(s.spare_blocks(), "Verf\u{fc}gbare Ersatzbl\u{f6}cke");
    assert_eq!(s.drive_health(), "Laufwerk-Gesundheit");
    assert_eq!(s.remaining(), "% verbleibend");
    assert_eq!(s.media_errors(), "Medienfehler");
    assert_eq!(s.unsafe_shutdowns(), "Unsichere Abschaltungen");
    assert_eq!(s.drive_health_remaining(), "Drive Health (verbleibend)");
}

#[test]
fn status_text_follows_severity() {
    let s = LocalStrings::new(Language::EN);
    assert_eq!(s.status_text(Severity::Normal), "\u{2713} OK");
    assert_eq!(s.status_text(Severity::Warning), "\u{26a0}\u{fe0f} WARNING");
    assert_eq!(s.status_text(Severity::Critical), "\u{274c} CRITICAL");

    let s = LocalStrings::new(Language::DE);
    assert_eq!(s.status_text(Severity::Warning), "\u{26a0}\u{fe0f} WARNUNG");
    assert_eq!(s.status_text(Severity::Critical), "\u{274c} KRITISCH");
}

#[test]
fn formatted_messages() {
    let s = LocalStrings::new(Language::EN);
    assert_eq!(s.critical_warning(3), "\u{26a0}\u{fe0f} CRITICAL WARNING: 3");
    assert_eq!(
        s.smart_data_error("/dev/sda"),
        "\u{2717} /dev/sda - SMART data could not be retrieved"
    );

    let s = LocalStrings::new(Language::DE);
    assert_eq!(s.critical_warning(255), "\u{26a0}\u{fe0f} KRITISCHE WARNUNG: 255");
    assert_eq!(
        s.smart_data_error("/dev/nvme0"),
        "\u{2717} /dev/nvme0 - SMART-Daten konnten nicht abgerufen werden"
    );
}
