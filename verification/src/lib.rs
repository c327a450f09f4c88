//! Health telemetry classification for local block storage devices.
//!
//! The crate takes a raw telemetry document for a device of a given
//! interface kind (NVMe or ATA/SATA) and produces an ordered sequence of
//! labeled, severity-classified metric records, ready for a table renderer.

pub mod extract;
pub mod json;
pub mod local_strings;
pub mod numfmt;
pub mod policy;
pub mod telemetry;
pub mod utils;

use vstd::prelude::*;

verus! {

/// Severity of a classified metric, ordered from healthy to failing:
/// `Normal` < `Warning` < `Critical`.
#[derive(Clone, Copy, PartialEq, Eq, Debug, Structural)]
pub enum Severity {
    Normal,
    Warning,
    Critical,
}

/// Numeric rank of a severity; higher means more severe.
pub open spec fn severity_rank(s: Severity) -> nat {
    match s {
        Severity::Normal => 0,
        Severity::Warning => 1,
        Severity::Critical => 2,
    }
}

/// One classified metric, in display order: a label, a formatted value,
/// and a severity.
#[derive(Clone, PartialEq, Eq, Debug)]
pub struct MetricRecord {
    pub label: String,
    pub value: String,
    pub severity: Severity,
}

/// The mathematical model of a metric record: its label and value as
/// character sequences, and its severity.
pub struct MetricModel {
    pub label: Seq<char>,
    pub value: Seq<char>,
    pub severity: Severity,
}

impl View for MetricRecord {
    type V = MetricModel;

    open spec fn view(&self) -> MetricModel {
        MetricModel { label: self.label@, value: self.value@, severity: self.severity }
    }
}

impl DeepView for MetricRecord {
    type V = MetricModel;

    open spec fn deep_view(&self) -> MetricModel {
        self.view()
    }
}

} // verus!
