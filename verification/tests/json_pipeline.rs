use smart_health::Severity;
use smart_health::extract::extract;
use smart_health::json::telemetry_from_bytes;
use smart_health::local_strings::Language;
use smart_health::local_strings::LocalStrings;
use smart_health::telemetry::InterfaceKind;
use smart_health::telemetry::RawTelemetry;
use smart_health::telemetry::interface_kind;

fn en() -> LocalStrings {
    LocalStrings::new(Language::EN)
}

#[test]
fn interface_kind_by_name() {
    assert_eq!(interface_kind("nvme"), InterfaceKind::Nvme);
    assert_eq!(interface_kind("sat"), InterfaceKind::Ata);
    assert_eq!(interface_kind("scsi"), InterfaceKind::Ata);
    assert_eq!(interface_kind(""), InterfaceKind::Ata);
    assert_eq!(interface_kind("nvmex"), InterfaceKind::Ata);
}

#[test]
fn nvme_document_end_to_end() {
    let doc = br#"{
        "model_name": "Example SSD",
        "nvme_smart_health_information_log": {
            "critical_warning": 0,
            "available_spare": 50,
            "available_spare_threshold": 10,
            "percentage_used": 75,
            "media_errors": 1,
            "unsafe_shutdowns": 9
        }
    }"#;
    let telemetry = telemetry_from_bytes(InterfaceKind::Nvme, doc).expect("well-formed JSON");
    let (records, alert) = extract(&telemetry, &en());
    assert!(alert.is_none());
    let labels: Vec<&str> = records.iter().map(|r| r.label.as_str()).collect();
    assert_eq!(
        labels,
        vec![
            "Available Spare Blocks (10%)",
            "Drive Health",
            "Media Errors",
            "Unsafe Shutdowns",
        ]
    );
    assert_eq!(records[0].value, "50%");
    assert_eq!(records[0].severity, Severity::Normal);
    assert_eq!(records[1].value, "25 % remaining");
    assert_eq!(records[1].severity, Severity::Warning);
    assert_eq!(records[2].severity, Severity::Warning);
    assert_eq!(records[3].severity, Severity::Normal);
}

#[test]
fn nvme_alert_comes_from_document() {
    let doc = br#"{"nvme_smart_health_information_log": {"critical_warning": 2}}"#;
    let telemetry = telemetry_from_bytes(InterfaceKind::Nvme, doc).expect("well-formed JSON");
    let (records, alert) = extract(&telemetry, &en());
    assert!(records.is_empty());
    assert_eq!(alert.as_deref(), Some("\u{26a0}\u{fe0f} CRITICAL WARNING: 2"));
}

#[test]
fn ata_document_end_to_end() {
    let doc = br#"{
        "ata_smart_attributes": {
            "table": [
                {"id": 5, "value": 100, "raw": {"value": 0}},
                {"id": 9, "value": 99, "raw": {"value": 49}},
                {"id": 177, "value": 20, "raw": {"value": 7}},
                {"id": 241, "value": 99, "raw": {"value": 1953125000}}
            ]
        }
    }"#;
    let telemetry = telemetry_from_bytes(InterfaceKind::Ata, doc).expect("well-formed JSON");
    let (records, alert) = extract(&telemetry, &en());
    assert!(alert.is_none());
    let labels: Vec<&str> = records.iter().map(|r| r.label.as_str()).collect();
    assert_eq!(
        labels,
        vec![
            "Reallocated Sectors",
            "Operating hours",
            "Drive Health (remaining)",
            "Data written (approx.)",
        ]
    );
    assert_eq!(records[1].value, "49 h (2 Tage)");
    assert_eq!(records[2].value, "20%");
    assert_eq!(records[2].severity, Severity::Warning);
    assert_eq!(records[3].value, "1.00 TB");
}

#[test]
fn record_order_ignores_document_field_order() {
    let doc_a = br#"{"nvme_smart_health_information_log": {
        "available_spare": 50, "available_spare_threshold": 10,
        "percentage_used": 5, "media_errors": 0}}"#;
    let doc_b = br#"{"nvme_smart_health_information_log": {
        "media_errors": 0, "percentage_used": 5,
        "available_spare_threshold": 10, "available_spare": 50}}"#;
    let strings = en();
    let telemetry_a = telemetry_from_bytes(InterfaceKind::Nvme, doc_a).unwrap();
    let telemetry_b = telemetry_from_bytes(InterfaceKind::Nvme, doc_b).unwrap();
    let (records_a, _) = extract(&telemetry_a, &strings);
    let (records_b, _) = extract(&telemetry_b, &strings);
    assert_eq!(records_a, records_b);
    let labels: Vec<&str> = records_a.iter().map(|r| r.label.as_str()).collect();
    assert_eq!(
        labels,
        vec!["Available Spare Blocks (10%)", "Drive Health", "Media Errors"]
    );
}

#[test]
fn malformed_json_is_absent_telemetry() {
    assert!(telemetry_from_bytes(InterfaceKind::Nvme, b"not json").is_none());
    assert!(telemetry_from_bytes(InterfaceKind::Ata, b"{ truncated").is_none());
}

#[test]
fn mistyped_fields_are_treated_as_absent() {
    let doc = br#"{
        "nvme_smart_health_information_log": {
            "available_spare": "fifty",
            "percentage_used": 10.5,
            "power_cycles": 52
        }
    }"#;
    let telemetry = telemetry_from_bytes(InterfaceKind::Nvme, doc).expect("well-formed JSON");
    match &telemetry {
        RawTelemetry::Nvme(log) => {
            assert_eq!(log.available_spare, None);
            assert_eq!(log.percentage_used, None);
            assert_eq!(log.power_cycles, Some(52));
        }
        RawTelemetry::Ata(_) => panic!("expected NVMe telemetry"),
    }
    let (records, _) = extract(&telemetry, &en());
    assert_eq!(records.len(), 1);
    assert_eq!(records[0].label, "Power cycles");
    assert_eq!(records[0].value, "52");
}

#[test]
fn missing_health_log_yields_nothing() {
    let doc = br#"{"model_name": "Example SSD"}"#;
    let telemetry = telemetry_from_bytes(InterfaceKind::Nvme, doc).expect("well-formed JSON");
    let (records, alert) = extract(&telemetry, &en());
    assert!(records.is_empty());
    assert!(alert.is_none());
}

#[test]
fn german_labels_through_extraction() {
    let doc = br#"{"nvme_smart_health_information_log": {"percentage_used": 95}}"#;
    let telemetry = telemetry_from_bytes(InterfaceKind::Nvme, doc).expect("well-formed JSON");
    let (records, _) = extract(&telemetry, &LocalStrings::new(Language::DE));
    assert_eq!(records[0].label, "Laufwerk-Gesundheit");
    assert_eq!(records[0].value, "5 % verbleibend");
    assert_eq!(records[0].severity, Severity::Critical);
}
