//! The bridge from the diagnostic tool's JSON output to the telemetry
//! model the extractors read.
//!
//! Only the JSON parsing and field access go through serde_json, behind
//! trusted declarations; reducing the document to the model is verified
//! code. A field that is missing or carries an unexpected type becomes an
//! absent model value, never an error.

use vstd::prelude::*;

use crate::telemetry::AtaAttribute;
use crate::telemetry::InterfaceKind;
use crate::telemetry::NvmeHealthLog;
use crate::telemetry::RawTelemetry;

verus! {

/// Relies on serde_json::Value, the parsed form of a JSON document; the
/// crate carries it as an opaque value.
#[verifier::external_type_specification]
#[verifier::external_body]
pub struct ExValue(serde_json::Value);

/// Whether serde_json::from_slice accepts the bytes as a well-formed JSON
/// document; its success depends on the bytes alone.
pub uninterp spec fn parses(bytes: Seq<u8>) -> bool;

/// Relies on serde_json::from_slice: parses a JSON document from bytes,
/// an error exactly when the bytes are not well-formed JSON.
#[verifier::external_body]
fn parse_json(bytes: &[u8]) -> (r: Option<serde_json::Value>)
    ensures
        r is Some <==> parses(bytes@),
{
    serde_json::from_slice(bytes).ok()
}

/// Relies on serde_json::Value::get: the member of a JSON object under a
/// key, absent when the value is not an object or has no such member.
#[verifier::external_body]
fn json_get<'a>(v: &'a serde_json::Value, key: &str) -> (r: Option<&'a serde_json::Value>) {
    v.get(key)
}

/// Relies on serde_json::Value::as_i64: the value of a JSON integer when
/// it fits a 64-bit signed integer, absent otherwise.
#[verifier::external_body]
fn json_as_i64(v: &serde_json::Value) -> (r: Option<i64>) {
    v.as_i64()
}

/// Relies on serde_json::Value::as_array: the elements of a JSON array,
/// absent when the value is not an array.
#[verifier::external_body]
fn json_as_array<'a>(v: &'a serde_json::Value) -> (r: Option<&'a Vec<serde_json::Value>>) {
    v.as_array()
}

/// The 64-bit integer member of a JSON object under a key, absent when
/// the member is missing or carries another type.
fn member_i64(v: &serde_json::Value, key: &str) -> Option<i64> {
    match json_get(v, key) {
        Some(m) => json_as_i64(m),
        None => None,
    }
}

/// Reduces a parsed NVMe telemetry document to the health-log fields the
/// extractor reads.
fn nvme_log_from_json(doc: &serde_json::Value) -> NvmeHealthLog {
    match json_get(doc, "nvme_smart_health_information_log") {
        Some(health) => NvmeHealthLog {
            critical_warning: member_i64(health, "critical_warning"),
            available_spare: member_i64(health, "available_spare"),
            available_spare_threshold: member_i64(health, "available_spare_threshold"),
            percentage_used: member_i64(health, "percentage_used"),
            data_units_read: member_i64(health, "data_units_read"),
            data_units_written: member_i64(health, "data_units_written"),
            power_on_hours: member_i64(health, "power_on_hours"),
            power_cycles: member_i64(health, "power_cycles"),
            media_errors: member_i64(health, "media_errors"),
            unsafe_shutdowns: member_i64(health, "unsafe_shutdowns"),
        },
        None => NvmeHealthLog {
            critical_warning: None,
            available_spare: None,
            available_spare_threshold: None,
            percentage_used: None,
            data_units_read: None,
            data_units_written: None,
            power_on_hours: None,
            power_cycles: None,
            media_errors: None,
            unsafe_shutdowns: None,
        },
    }
}

/// Reduces one entry of the ATA attribute table to its ID, raw value and
/// normalized value.
fn attr_from_json(entry: &serde_json::Value) -> AtaAttribute {
    AtaAttribute {
        id: member_i64(entry, "id"),
        raw_value: match json_get(entry, "raw") {
            Some(raw) => member_i64(raw, "value"),
            None => None,
        },
        normalized_value: member_i64(entry, "value"),
    }
}

/// Reduces a parsed ATA telemetry document to its numbered attribute
/// table, in document order; an empty table when the table is missing.
fn ata_table_from_json(doc: &serde_json::Value) -> Vec<AtaAttribute> {
    let table = match json_get(doc, "ata_smart_attributes") {
        Some(attrs) => match json_get(attrs, "table") {
            Some(t) => json_as_array(t),
            None => None,
        },
        None => None,
    };
    let mut out: Vec<AtaAttribute> = Vec::new();
    if let Some(arr) = table {
        let mut i: usize = 0;
        while i < arr.len()
            invariant
                i <= arr.len(),
            decreases arr.len() - i,
        {
            out.push(attr_from_json(&arr[i]));
            i = i + 1;
        }
    }
    out
}

/// Parses the diagnostic tool's JSON output and reduces it to the
/// telemetry model for the device's interface kind, absent exactly when
/// the bytes are not well-formed JSON.
pub fn telemetry_from_bytes(kind: InterfaceKind, bytes: &[u8]) -> (r: Option<RawTelemetry>)
    ensures
        r is Some <==> parses(bytes@),
        match r {
            Some(RawTelemetry::Nvme(_)) => kind == InterfaceKind::Nvme,
            Some(RawTelemetry::Ata(_)) => kind == InterfaceKind::Ata,
            None => true,
        },
{
    match parse_json(bytes) {
        Some(doc) => Some(
            match kind {
                InterfaceKind::Nvme => RawTelemetry::Nvme(nvme_log_from_json(&doc)),
                InterfaceKind::Ata => RawTelemetry::Ata(ata_table_from_json(&doc)),
            },
        ),
        None => None,
    }
}

} // verus!
