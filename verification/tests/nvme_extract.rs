use smart_health::MetricRecord;
use smart_health::Severity;
use smart_health::extract::extract_nvme;
use smart_health::local_strings::Language;
use smart_health::local_strings::LocalStrings;
use smart_health::telemetry::NvmeHealthLog;

fn en() -> LocalStrings {
    LocalStrings::new(Language::EN)
}

fn empty_log() -> NvmeHealthLog {
    NvmeHealthLog::default()
}

fn record<'a>(records: &'a [MetricRecord], label: &str) -> &'a MetricRecord {
    records
        .iter()
        .find(|r| r.label == label)
        .unwrap_or_else(|| panic!("no record labeled {label}"))
}

#[test]
fn spare_healthy_is_ok_with_threshold_label() {
    let log = NvmeHealthLog {
        available_spare: Some(50),
        available_spare_threshold: Some(10),
        ..empty_log()
    };
    let (records, alert) = extract_nvme(&log, &en());
    assert!(alert.is_none());
    assert_eq!(records.len(), 1);
    assert_eq!(records[0].label, "Available Spare Blocks (10%)");
    assert_eq!(records[0].value, "50%");
    assert_eq!(records[0].severity, Severity::Normal);
}

#[test]
fn spare_inside_margin_is_warning() {
    let log = NvmeHealthLog {
        available_spare: Some(15),
        available_spare_threshold: Some(10),
        ..empty_log()
    };
    let (records, _) = extract_nvme(&log, &en());
    assert_eq!(records[0].severity, Severity::Warning);
}

#[test]
fn spare_at_or_below_threshold_is_critical() {
    let log = NvmeHealthLog {
        available_spare: Some(5),
        available_spare_threshold: Some(10),
        ..empty_log()
    };
    let (records, _) = extract_nvme(&log, &en());
    assert_eq!(records[0].severity, Severity::Critical);

    let log = NvmeHealthLog { available_spare: Some(10), ..log };
    let (records, _) = extract_nvme(&log, &en());
    assert_eq!(records[0].severity, Severity::Critical);
}

#[test]
fn spare_margin_boundaries() {
    let log = NvmeHealthLog {
        available_spare: Some(20),
        available_spare_threshold: Some(10),
        ..empty_log()
    };
    let (records, _) = extract_nvme(&log, &en());
    assert_eq!(records[0].severity, Severity::Warning);

    let log = NvmeHealthLog { available_spare: Some(21), ..log };
    let (records, _) = extract_nvme(&log, &en());
    assert_eq!(records[0].severity, Severity::Normal);
}

#[test]
fn spare_without_threshold_has_plain_label() {
    let log = NvmeHealthLog { available_spare: Some(50), ..empty_log() };
    let (records, _) = extract_nvme(&log, &en());
    assert_eq!(records[0].label, "Available Spare Blocks");
    assert_eq!(records[0].severity, Severity::Normal);

    // An absent threshold acts as -1: spare within nine points of it warns.
    let log = NvmeHealthLog { available_spare: Some(5), ..empty_log() };
    let (records, _) = extract_nvme(&log, &en());
    assert_eq!(records[0].severity, Severity::Warning);
}

#[test]
fn percentage_used_bands() {
    let log = NvmeHealthLog { percentage_used: Some(95), ..empty_log() };
    let (records, _) = extract_nvme(&log, &en());
    assert_eq!(records[0].label, "Drive Health");
    assert_eq!(records[0].value, "5 % remaining");
    assert_eq!(records[0].severity, Severity::Critical);

    let log = NvmeHealthLog { percentage_used: Some(75), ..empty_log() };
    let (records, _) = extract_nvme(&log, &en());
    assert_eq!(records[0].value, "25 % remaining");
    assert_eq!(records[0].severity, Severity::Warning);

    let log = NvmeHealthLog { percentage_used: Some(50), ..empty_log() };
    let (records, _) = extract_nvme(&log, &en());
    assert_eq!(records[0].value, "50 % remaining");
    assert_eq!(records[0].severity, Severity::Normal);
}

#[test]
fn percentage_used_boundaries() {
    let log = NvmeHealthLog { percentage_used: Some(90), ..empty_log() };
    let (records, _) = extract_nvme(&log, &en());
    assert_eq!(records[0].severity, Severity::Critical);

    let log = NvmeHealthLog { percentage_used: Some(70), ..empty_log() };
    let (records, _) = extract_nvme(&log, &en());
    assert_eq!(records[0].severity, Severity::Warning);

    let log = NvmeHealthLog { percentage_used: Some(69), ..empty_log() };
    let (records, _) = extract_nvme(&log, &en());
    assert_eq!(records[0].severity, Severity::Normal);
}

#[test]
fn media_errors_and_unsafe_shutdown_bands() {
    let log = NvmeHealthLog {
        media_errors: Some(0),
        unsafe_shutdowns: Some(9),
        ..empty_log()
    };
    let (records, _) = extract_nvme(&log, &en());
    assert_eq!(record(&records, "Media Errors").severity, Severity::Normal);
    assert_eq!(record(&records, "Unsafe Shutdowns").severity, Severity::Normal);

    let log = NvmeHealthLog {
        media_errors: Some(1),
        unsafe_shutdowns: Some(10),
        ..empty_log()
    };
    let (records, _) = extract_nvme(&log, &en());
    assert_eq!(record(&records, "Media Errors").severity, Severity::Warning);
    assert_eq!(record(&records, "Unsafe Shutdowns").severity, Severity::Warning);
}

#[test]
fn absent_fields_yield_no_records() {
    let (records, alert) = extract_nvme(&empty_log(), &en());
    assert!(records.is_empty());
    assert!(alert.is_none());
}

#[test]
fn negative_spare_yields_no_record() {
    let log = NvmeHealthLog {
        available_spare: Some(-3),
        available_spare_threshold: Some(10),
        ..empty_log()
    };
    let (records, _) = extract_nvme(&log, &en());
    assert!(records.is_empty());
}

#[test]
fn critical_warning_alert_only_when_nonzero() {
    let log = NvmeHealthLog { critical_warning: Some(3), ..empty_log() };
    let (records, alert) = extract_nvme(&log, &en());
    assert!(records.is_empty());
    assert_eq!(alert.as_deref(), Some("\u{26a0}\u{fe0f} CRITICAL WARNING: 3"));

    let log = NvmeHealthLog { critical_warning: Some(0), ..empty_log() };
    let (_, alert) = extract_nvme(&log, &en());
    assert!(alert.is_none());
}

#[test]
fn full_log_keeps_display_order() {
    let log = NvmeHealthLog {
        critical_warning: Some(0),
        available_spare: Some(100),
        available_spare_threshold: Some(10),
        percentage_used: Some(1),
        data_units_read: Some(1_000_000),
        data_units_written: Some(2_000_000),
        power_on_hours: Some(49),
        power_cycles: Some(77),
        media_errors: Some(0),
        unsafe_shutdowns: Some(2),
    };
    let (records, alert) = extract_nvme(&log, &en());
    assert!(alert.is_none());
    let labels: Vec<&str> = records.iter().map(|r| r.label.as_str()).collect();
    assert_eq!(
        labels,
        vec![
            "Available Spare Blocks (10%)",
            "Drive Health",
            "Data read",
            "Data written",
            "Operating hours",
            "Power cycles",
            "Media Errors",
            "Unsafe Shutdowns",
        ]
    );
    assert_eq!(records[2].value, "0.5 TB");
    assert_eq!(records[3].value, "1.0 TB");
    assert_eq!(records[4].value, "49 h (2 Tage)");
    assert_eq!(records[5].value, "77");
}

#[test]
fn extraction_is_pure() {
    let log = NvmeHealthLog {
        critical_warning: Some(1),
        available_spare: Some(15),
        available_spare_threshold: Some(10),
        percentage_used: Some(75),
        data_units_read: Some(123_456_789),
        data_units_written: Some(987_654_321),
        power_on_hours: Some(1000),
        power_cycles: Some(52),
        media_errors: Some(2),
        unsafe_shutdowns: Some(11),
    };
    let strings = en();
    let (records1, alert1) = extract_nvme(&log, &strings);
    let (records2, alert2) = extract_nvme(&log, &strings);
    assert_eq!(records1, records2);
    assert_eq!(alert1, alert2);
}
