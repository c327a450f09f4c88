//! The attribute extractors: from a device's telemetry model to the
//! ordered sequence of labeled, severity-classified metric records, plus,
//! for NVMe, at most one out-of-band alert line.
//!
//! The record order is fixed per interface kind, and a metric whose source
//! field is absent yields no record at all.

use vstd::prelude::*;

use crate::MetricModel;
use crate::MetricRecord;
use crate::Severity;
use crate::local_strings::LocalStrings;
use crate::local_strings::Language;
use crate::local_strings::critical_warning_text;
use crate::local_strings::data_read_label_text;
use crate::local_strings::data_written_approx_label_text;
use crate::local_strings::data_written_label_text;
use crate::local_strings::drive_health_remaining_text;
use crate::local_strings::drive_health_text;
use crate::local_strings::media_errors_text;
use crate::local_strings::operating_hours_label_text;
use crate::local_strings::power_cycles_label_text;
use crate::local_strings::reallocated_sectors_text;
use crate::local_strings::remaining_text;
use crate::local_strings::spare_blocks_text;
use crate::local_strings::spin_retry_count_text;
use crate::local_strings::unsafe_shutdowns_text;
use crate::numfmt::dec_chars_of;
use crate::numfmt::dec_digits_of;
use crate::numfmt::i128_to_string;
use crate::numfmt::i64_to_string;
use crate::policy::classify_counter;
use crate::policy::classify_endurance;
use crate::policy::classify_spare;
use crate::policy::classify_unsafe_shutdowns;
use crate::policy::classify_wear;
use crate::policy::counter_severity;
use crate::policy::endurance_severity;
use crate::policy::spare_severity;
use crate::policy::unsafe_shutdown_severity;
use crate::policy::wear_severity;
use crate::telemetry::AtaAttribute;
use crate::telemetry::NvmeHealthLog;
use crate::telemetry::RawTelemetry;
use crate::telemetry::attr_normalized;
use crate::telemetry::attr_raw;
use crate::telemetry::lookup_attr;
use crate::utils::convert_data_units;
use crate::utils::convert_total_lbas;
use crate::utils::data_units_chars;
use crate::utils::format_power_on_hours;
use crate::utils::hours_chars;
use crate::utils::total_lbas_chars;
use vstd::string::StringExecFns;

verus! {

/// The value of an optional field, or a default when it is absent.
pub open spec fn value_or(v: Option<i64>, default: i64) -> i64 {
    match v {
        Some(x) => x,
        None => default,
    }
}

/// The label of the available-spare record: it names the threshold
/// percentage when a threshold value is present (non-negative).
pub open spec fn spare_label(lang: Language, threshold: i64) -> Seq<char> {
    if threshold >= 0 {
        spare_blocks_text(lang) + " ("@ + dec_digits_of(threshold as nat) + "%)"@
    } else {
        spare_blocks_text(lang)
    }
}

/// The available-spare record: spare as a percentage, classified against
/// the spare threshold.
pub open spec fn spare_model(lang: Language, spare: i64, threshold: i64) -> MetricModel {
    MetricModel {
        label: spare_label(lang, threshold),
        value: dec_chars_of(spare as int) + "%"@,
        severity: spare_severity(spare as int, threshold as int),
    }
}

/// The drive-health record: the remaining percentage, classified by the
/// percentage used.
pub open spec fn endurance_model(lang: Language, percentage_used: i64) -> MetricModel {
    MetricModel {
        label: drive_health_text(lang),
        value: dec_chars_of(100 - percentage_used as int) + " "@ + remaining_text(lang),
        severity: endurance_severity(percentage_used as int),
    }
}

/// A record with no severity of its own: always reported healthy.
pub open spec fn neutral_model(label: Seq<char>, value: Seq<char>) -> MetricModel {
    MetricModel { label, value, severity: Severity::Normal }
}

/// An error-like counter record, a warning as soon as it trips.
pub open spec fn counter_model(label: Seq<char>, count: i64) -> MetricModel {
    MetricModel {
        label,
        value: dec_chars_of(count as int),
        severity: counter_severity(count as int),
    }
}

/// The unsafe-shutdown counter record.
pub open spec fn unsafe_shutdowns_model(lang: Language, count: i64) -> MetricModel {
    MetricModel {
        label: unsafe_shutdowns_text(lang),
        value: dec_chars_of(count as int),
        severity: unsafe_shutdown_severity(count as int),
    }
}

/// The wear-level record: the normalized remaining endurance as a
/// percentage, classified by the wear bands.
pub open spec fn wear_model(lang: Language, normalized: i64) -> MetricModel {
    MetricModel {
        label: drive_health_remaining_text(lang),
        value: dec_chars_of(normalized as int) + "%"@,
        severity: wear_severity(normalized as int),
    }
}

/// The metrics the NVMe extractor reports, in display order.
#[derive(Clone, Copy, PartialEq, Eq, Debug, Structural)]
pub enum NvmeMetric {
    SpareBlocks,
    Endurance,
    DataRead,
    DataWritten,
    PowerOnHours,
    PowerCycles,
    MediaErrors,
    UnsafeShutdowns,
}

/// Whether the source field of an NVMe metric is present in the log.
pub open spec fn nvme_source_present(m: NvmeMetric, log: NvmeHealthLog) -> bool {
    match m {
        NvmeMetric::SpareBlocks => log.available_spare is Some,
        NvmeMetric::Endurance => log.percentage_used is Some,
        NvmeMetric::DataRead => log.data_units_read is Some,
        NvmeMetric::DataWritten => log.data_units_written is Some,
        NvmeMetric::PowerOnHours => log.power_on_hours is Some,
        NvmeMetric::PowerCycles => log.power_cycles is Some,
        NvmeMetric::MediaErrors => log.media_errors is Some,
        NvmeMetric::UnsafeShutdowns => log.unsafe_shutdowns is Some,
    }
}

/// Whether an NVMe metric is emitted: its source field is present, and
/// for the available spare the value is non-negative.
pub open spec fn nvme_emits(m: NvmeMetric, log: NvmeHealthLog) -> bool {
    match m {
        NvmeMetric::SpareBlocks => match log.available_spare {
            Some(s) => s >= 0,
            None => false,
        },
        _ => nvme_source_present(m, log),
    }
}

/// The record an NVMe metric renders to, given its source values.
pub open spec fn nvme_render(m: NvmeMetric, log: NvmeHealthLog, lang: Language) -> MetricModel {
    match m {
        NvmeMetric::SpareBlocks => spare_model(
            lang,
            value_or(log.available_spare, 0),
            value_or(log.available_spare_threshold, -1i64),
        ),
        NvmeMetric::Endurance => endurance_model(lang, value_or(log.percentage_used, 0)),
        NvmeMetric::DataRead => neutral_model(
            data_read_label_text(lang),
            data_units_chars(value_or(log.data_units_read, 0) as int),
        ),
        NvmeMetric::DataWritten => neutral_model(
            data_written_label_text(lang),
            data_units_chars(value_or(log.data_units_written, 0) as int),
        ),
        NvmeMetric::PowerOnHours => neutral_model(
            operating_hours_label_text(lang),
            hours_chars(value_or(log.power_on_hours, 0) as int),
        ),
        NvmeMetric::PowerCycles => neutral_model(
            power_cycles_label_text(lang),
            dec_chars_of(value_or(log.power_cycles, 0) as int),
        ),
        NvmeMetric::MediaErrors => counter_model(
            media_errors_text(lang),
            value_or(log.media_errors, 0),
        ),
        NvmeMetric::UnsafeShutdowns => unsafe_shutdowns_model(
            lang,
            value_or(log.unsafe_shutdowns, 0),
        ),
    }
}

/// Zero or one records: the rendering of a metric when it is emitted.
pub open spec fn metric_seq(emit: bool, m: MetricModel) -> Seq<MetricModel> {
    if emit {
        seq![m]
    } else {
        Seq::<MetricModel>::empty()
    }
}

/// One NVMe metric's contribution to the output sequence.
pub open spec fn nvme_metric_records(m: NvmeMetric, log: NvmeHealthLog, lang: Language) -> Seq<
    MetricModel,
> {
    metric_seq(nvme_emits(m, log), nvme_render(m, log, lang))
}

/// The ordered record sequence the NVMe extractor produces.
pub open spec fn nvme_records(log: NvmeHealthLog, lang: Language) -> Seq<MetricModel> {
    nvme_metric_records(NvmeMetric::SpareBlocks, log, lang) + nvme_metric_records(
        NvmeMetric::Endurance,
        log,
        lang,
    ) + nvme_metric_records(NvmeMetric::DataRead, log, lang) + nvme_metric_records(
        NvmeMetric::DataWritten,
        log,
        lang,
    ) + nvme_metric_records(NvmeMetric::PowerOnHours, log, lang) + nvme_metric_records(
        NvmeMetric::PowerCycles,
        log,
        lang,
    ) + nvme_metric_records(NvmeMetric::MediaErrors, log, lang) + nvme_metric_records(
        NvmeMetric::UnsafeShutdowns,
        log,
        lang,
    )
}

/// The out-of-band NVMe alert: present exactly when the critical-warning
/// field is present and non-zero, carrying the raw bit value.
pub open spec fn nvme_alert(log: NvmeHealthLog, lang: Language) -> Option<Seq<char>> {
    match log.critical_warning {
        Some(w) => if w != 0 {
            Some(critical_warning_text(lang, w as int))
        } else {
            None
        },
        None => None,
    }
}

/// The metrics the ATA extractor reports, in display order.
#[derive(Clone, Copy, PartialEq, Eq, Debug, Structural)]
pub enum AtaMetric {
    Reallocated,
    SpinRetry,
    PowerOnHours,
    PowerCycles,
    WearLevel,
    TotalWritten,
}

/// The numbered attribute ID an ATA metric reads.
pub open spec fn ata_metric_id(m: AtaMetric) -> i64 {
    match m {
        AtaMetric::Reallocated => 5,
        AtaMetric::SpinRetry => 10,
        AtaMetric::PowerOnHours => 9,
        AtaMetric::PowerCycles => 12,
        AtaMetric::WearLevel => 177,
        AtaMetric::TotalWritten => 241,
    }
}

/// The source value of an ATA metric: the raw value of its attribute,
/// except the wear level, which reads the normalized value.
pub open spec fn ata_source(m: AtaMetric, entries: Seq<AtaAttribute>) -> Option<i64> {
    match m {
        AtaMetric::WearLevel => attr_normalized(entries, ata_metric_id(m)),
        _ => attr_raw(entries, ata_metric_id(m)),
    }
}

/// Whether an ATA metric is emitted: its source value is present.
pub open spec fn ata_emits(m: AtaMetric, entries: Seq<AtaAttribute>) -> bool {
    ata_source(m, entries) is Some
}

/// The record an ATA metric renders to, given its source value.
pub open spec fn ata_render(m: AtaMetric, entries: Seq<AtaAttribute>, lang: Language) -> MetricModel {
    let v = value_or(ata_source(m, entries), 0);
    match m {
        AtaMetric::Reallocated => counter_model(reallocated_sectors_text(lang), v),
        AtaMetric::SpinRetry => counter_model(spin_retry_count_text(lang), v),
        AtaMetric::PowerOnHours => neutral_model(operating_hours_label_text(lang), hours_chars(v as int)),
        AtaMetric::PowerCycles => neutral_model(power_cycles_label_text(lang), dec_chars_of(v as int)),
        AtaMetric::WearLevel => wear_model(lang, v),
        AtaMetric::TotalWritten => neutral_model(
            data_written_approx_label_text(lang),
            total_lbas_chars(v as int),
        ),
    }
}

/// One ATA metric's contribution to the output sequence.
pub open spec fn ata_metric_records(m: AtaMetric, entries: Seq<AtaAttribute>, lang: Language) -> Seq<
    MetricModel,
> {
    metric_seq(ata_emits(m, entries), ata_render(m, entries, lang))
}

/// The ordered record sequence the ATA extractor produces.
pub open spec fn ata_records(entries: Seq<AtaAttribute>, lang: Language) -> Seq<MetricModel> {
    ata_metric_records(AtaMetric::Reallocated, entries, lang) + ata_metric_records(
        AtaMetric::SpinRetry,
        entries,
        lang,
    ) + ata_metric_records(AtaMetric::PowerOnHours, entries, lang) + ata_metric_records(
        AtaMetric::PowerCycles,
        entries,
        lang,
    ) + ata_metric_records(AtaMetric::WearLevel, entries, lang) + ata_metric_records(
        AtaMetric::TotalWritten,
        entries,
        lang,
    )
}

/// The record sequence for a device's telemetry, by its interface kind.
pub open spec fn telemetry_records(t: RawTelemetry, lang: Language) -> Seq<MetricModel> {
    match t {
        RawTelemetry::Nvme(log) => nvme_records(log, lang),
        RawTelemetry::Ata(entries) => ata_records(entries@, lang),
    }
}

/// The out-of-band alert for a device's telemetry; only NVMe has one.
pub open spec fn telemetry_alert(t: RawTelemetry, lang: Language) -> Option<Seq<char>> {
    match t {
        RawTelemetry::Nvme(log) => nvme_alert(log, lang),
        RawTelemetry::Ata(_) => None,
    }
}

/// Builds a record with no severity of its own.
fn neutral_record(label: &str, value: String) -> (r: MetricRecord)
    ensures
        r@ == neutral_model(label@, value@),
{
    MetricRecord { label: label.to_owned(), value, severity: Severity::Normal }
}

/// Builds an error-like counter record.
fn counter_record(label: &str, count: i64) -> (r: MetricRecord)
    ensures
        r@ == counter_model(label@, count),
{
    MetricRecord { label: label.to_owned(), value: i64_to_string(count), severity: classify_counter(count) }
}

/// Builds the available-spare record.
fn spare_record(strings: &LocalStrings, spare: i64, threshold: i64) -> (r: MetricRecord)
    ensures
        r@ == spare_model(strings.language(), spare, threshold),
{
    let mut label = strings.spare_blocks().to_owned();
    if threshold >= 0 {
        label.append(" (");
        label.append(i64_to_string(threshold).as_str());
        label.append("%)");
    }
    let mut value = i64_to_string(spare);
    value.append("%");
    proof {
        assert(label@ =~= spare_label(strings.language(), threshold));
    }
    MetricRecord { label, value, severity: classify_spare(spare, threshold) }
}

/// Builds the drive-health record.
fn endurance_record(strings: &LocalStrings, percentage_used: i64) -> (r: MetricRecord)
    ensures
        r@ == endurance_model(strings.language(), percentage_used),
{
    let mut value = i128_to_string(100 - percentage_used as i128);
    value.append(" ");
    value.append(strings.remaining());
    MetricRecord {
        label: strings.drive_health().to_owned(),
        value,
        severity: classify_endurance(percentage_used),
    }
}

/// Builds the wear-level record.
fn wear_record(strings: &LocalStrings, normalized: i64) -> (r: MetricRecord)
    ensures
        r@ == wear_model(strings.language(), normalized),
{
    let mut value = i64_to_string(normalized);
    value.append("%");
    MetricRecord {
        label: strings.drive_health_remaining().to_owned(),
        value,
        severity: classify_wear(normalized),
    }
}

/// Builds the unsafe-shutdown counter record.
fn unsafe_shutdowns_record(strings: &LocalStrings, count: i64) -> (r: MetricRecord)
    ensures
        r@ == unsafe_shutdowns_model(strings.language(), count),
{
    MetricRecord {
        label: strings.unsafe_shutdowns().to_owned(),
        value: i64_to_string(count),
        severity: classify_unsafe_shutdowns(count),
    }
}

/// Zero or one records, from an optional rendering.
pub open spec fn opt_seq(m: Option<MetricModel>) -> Seq<MetricModel> {
    match m {
        Some(x) => seq![x],
        None => Seq::<MetricModel>::empty(),
    }
}

/// Appends a metric's optional record to the output sequence.
fn push_metric(records: &mut Vec<MetricRecord>, m: Option<MetricRecord>)
    ensures
        final(records).deep_view() == old(records).deep_view() + opt_seq(m.deep_view()),
{
    let ghost before = records.deep_view();
    match m {
        Some(rec) => {
            let ghost model = rec.deep_view();
            records.push(rec);
            proof {
                assert(records.deep_view() =~= before + seq![model]);
            }
        },
        None => {
            proof {
                assert(records.deep_view() =~= before + Seq::<MetricModel>::empty());
            }
        },
    }
}

/// Extracts the classified NVMe metrics from a health log, in the fixed
/// display order, plus the out-of-band critical-warning alert when the
/// critical-warning field is present and non-zero.
pub fn extract_nvme(log: &NvmeHealthLog, strings: &LocalStrings) -> (r: (
    Vec<MetricRecord>,
    Option<String>,
))
    ensures
        r.0.deep_view() == nvme_records(*log, strings.language()),
        r.1.deep_view() == nvme_alert(*log, strings.language()),
{
    let ghost lang = strings.language();
    let alert: Option<String> = match log.critical_warning {
        Some(w) => if w != 0 {
            Some(strings.critical_warning(w))
        } else {
            None
        },
        None => None,
    };

    let mut records: Vec<MetricRecord> = Vec::new();
    proof {
        assert(records.deep_view() =~= Seq::<MetricModel>::empty());
    }

    let spare_rec: Option<MetricRecord> = match log.available_spare {
        Some(spare) => if spare >= 0 {
            let threshold = match log.available_spare_threshold {
                Some(t) => t,
                None => -1,
            };
            Some(spare_record(strings, spare, threshold))
        } else {
            None
        },
        None => None,
    };
    let ghost s1 = nvme_metric_records(NvmeMetric::SpareBlocks, *log, lang);
    proof {
        assert(opt_seq(spare_rec.deep_view()) =~= s1);
        assert(Seq::<MetricModel>::empty() + s1 =~= s1);
    }
    push_metric(&mut records, spare_rec);

    let endurance_rec: Option<MetricRecord> = match log.percentage_used {
        Some(pct) => Some(endurance_record(strings, pct)),
        None => None,
    };
    proof {
        assert(opt_seq(endurance_rec.deep_view()) =~= nvme_metric_records(
            NvmeMetric::Endurance,
            *log,
            lang,
        ));
    }
    push_metric(&mut records, endurance_rec);

    let read_rec: Option<MetricRecord> = match log.data_units_read {
        Some(units) => Some(neutral_record(strings.data_read_label(), convert_data_units(units))),
        None => None,
    };
    proof {
        assert(opt_seq(read_rec.deep_view()) =~= nvme_metric_records(
            NvmeMetric::DataRead,
            *log,
            lang,
        ));
    }
    push_metric(&mut records, read_rec);

    let written_rec: Option<MetricRecord> = match log.data_units_written {
        Some(units) => Some(
            neutral_record(strings.data_written_label(), convert_data_units(units)),
        ),
        None => None,
    };
    proof {
        assert(opt_seq(written_rec.deep_view()) =~= nvme_metric_records(
            NvmeMetric::DataWritten,
            *log,
            lang,
        ));
    }
    push_metric(&mut records, written_rec);

    let hours_rec: Option<MetricRecord> = match log.power_on_hours {
        Some(hours) => Some(
            neutral_record(strings.operating_hours_label(), format_power_on_hours(hours)),
        ),
        None => None,
    };
    proof {
        assert(opt_seq(hours_rec.deep_view()) =~= nvme_metric_records(
            NvmeMetric::PowerOnHours,
            *log,
            lang,
        ));
    }
    push_metric(&mut records, hours_rec);

    let cycles_rec: Option<MetricRecord> = match log.power_cycles {
        Some(cycles) => Some(neutral_record(strings.power_cycles_label(), i64_to_string(cycles))),
        None => None,
    };
    proof {
        assert(opt_seq(cycles_rec.deep_view()) =~= nvme_metric_records(
            NvmeMetric::PowerCycles,
            *log,
            lang,
        ));
    }
    push_metric(&mut records, cycles_rec);

    let media_rec: Option<MetricRecord> = match log.media_errors {
        Some(errors) => Some(counter_record(strings.media_errors(), errors)),
        None => None,
    };
    proof {
        assert(opt_seq(media_rec.deep_view()) =~= nvme_metric_records(
            NvmeMetric::MediaErrors,
            *log,
            lang,
        ));
    }
    push_metric(&mut records, media_rec);

    let shutdown_rec: Option<MetricRecord> = match log.unsafe_shutdowns {
        Some(count) => Some(unsafe_shutdowns_record(strings, count)),
        None => None,
    };
    proof {
        assert(opt_seq(shutdown_rec.deep_view()) =~= nvme_metric_records(
            NvmeMetric::UnsafeShutdowns,
            *log,
            lang,
        ));
    }
    push_metric(&mut records, shutdown_rec);

    (records, alert)
}

/// Extracts the classified ATA metrics from the numbered attribute table,
/// in the fixed display order; an ID absent from the table yields no
/// record.
pub fn extract_ata(entries: &Vec<AtaAttribute>, strings: &LocalStrings) -> (r: Vec<MetricRecord>)
    ensures
        r.deep_view() == ata_records(entries@, strings.language()),
{
    let ghost lang = strings.language();
    let mut records: Vec<MetricRecord> = Vec::new();
    proof {
        assert(records.deep_view() =~= Seq::<MetricModel>::empty());
    }

    let realloc_rec: Option<MetricRecord> = match lookup_attr(entries, 5) {
        Some(a) => match a.raw_value {
            Some(v) => Some(counter_record(strings.reallocated_sectors(), v)),
            None => None,
        },
        None => None,
    };
    let ghost s1 = ata_metric_records(AtaMetric::Reallocated, entries@, lang);
    proof {
        assert(opt_seq(realloc_rec.deep_view()) =~= s1);
        assert(Seq::<MetricModel>::empty() + s1 =~= s1);
    }
    push_metric(&mut records, realloc_rec);

    let spin_rec: Option<MetricRecord> = match lookup_attr(entries, 10) {
        Some(a) => match a.raw_value {
            Some(v) => Some(counter_record(strings.spin_retry_count(), v)),
            None => None,
        },
        None => None,
    };
    proof {
        assert(opt_seq(spin_rec.deep_view()) =~= ata_metric_records(
            AtaMetric::SpinRetry,
            entries@,
            lang,
        ));
    }
    push_metric(&mut records, spin_rec);

    let hours_rec: Option<MetricRecord> = match lookup_attr(entries, 9) {
        Some(a) => match a.raw_value {
            Some(v) => Some(
                neutral_record(strings.operating_hours_label(), format_power_on_hours(v)),
            ),
            None => None,
        },
        None => None,
    };
    proof {
        assert(opt_seq(hours_rec.deep_view()) =~= ata_metric_records(
            AtaMetric::PowerOnHours,
            entries@,
            lang,
        ));
    }
    push_metric(&mut records, hours_rec);

    let cycles_rec: Option<MetricRecord> = match lookup_attr(entries, 12) {
        Some(a) => match a.raw_value {
            Some(v) => Some(neutral_record(strings.power_cycles_label(), i64_to_string(v))),
            None => None,
        },
        None => None,
    };
    proof {
        assert(opt_seq(cycles_rec.deep_view()) =~= ata_metric_records(
            AtaMetric::PowerCycles,
            entries@,
            lang,
        ));
    }
    push_metric(&mut records, cycles_rec);

    let wear_rec: Option<MetricRecord> = match lookup_attr(entries, 177) {
        Some(a) => match a.normalized_value {
            Some(v) => Some(wear_record(strings, v)),
            None => None,
        },
        None => None,
    };
    proof {
        assert(opt_seq(wear_rec.deep_view()) =~= ata_metric_records(
            AtaMetric::WearLevel,
            entries@,
            lang,
        ));
    }
    push_metric(&mut records, wear_rec);

    let written_rec: Option<MetricRecord> = match lookup_attr(entries, 241) {
        Some(a) => match a.raw_value {
            Some(v) => Some(
                neutral_record(strings.data_written_approx_label(), convert_total_lbas(v)),
            ),
            None => None,
        },
        None => None,
    };
    proof {
        assert(opt_seq(written_rec.deep_view()) =~= ata_metric_records(
            AtaMetric::TotalWritten,
            entries@,
            lang,
        ));
    }
    push_metric(&mut records, written_rec);

    records
}

/// Runs the extractor for a device's interface kind: the ordered metric
/// records, plus the out-of-band alert for NVMe.
pub fn extract(t: &RawTelemetry, strings: &LocalStrings) -> (r: (Vec<MetricRecord>, Option<String>))
    ensures
        r.0.deep_view() == telemetry_records(*t, strings.language()),
        r.1.deep_view() == telemetry_alert(*t, strings.language()),
{
    match t {
        RawTelemetry::Nvme(log) => extract_nvme(log, strings),
        RawTelemetry::Ata(entries) => (extract_ata(entries, strings), None),
    }
}

/// Law: a metric whose source field is absent never appears in the NVMe
/// output: every output record is the rendering of a metric whose source
/// field is present in the log.
#[verifier::rlimit(60)]
pub proof fn lemma_nvme_output_sources_present(log: NvmeHealthLog, lang: Language)
    ensures
        forall|i: int|
            0 <= i < nvme_records(log, lang).len() ==> exists|m: NvmeMetric|
                nvme_source_present(m, log) && #[trigger] nvme_records(log, lang)[i]
                    == nvme_render(m, log, lang),
{
    let r = nvme_records(log, lang);
    assert forall|i: int| 0 <= i < r.len() implies exists|m: NvmeMetric|
        nvme_source_present(m, log) && #[trigger] r[i] == nvme_render(m, log, lang) by {
        let witness = nvme_record_source(log, lang, i);
        assert(nvme_source_present(witness, log) && r[i] == nvme_render(witness, log, lang));
    }
}

/// The metric that produced the record at a given index of the NVMe
/// output.
pub open spec fn nvme_record_source(log: NvmeHealthLog, lang: Language, i: int) -> NvmeMetric {
    let n1 = nvme_metric_records(NvmeMetric::SpareBlocks, log, lang).len();
    let n2 = n1 + nvme_metric_records(NvmeMetric::Endurance, log, lang).len();
    let n3 = n2 + nvme_metric_records(NvmeMetric::DataRead, log, lang).len();
    let n4 = n3 + nvme_metric_records(NvmeMetric::DataWritten, log, lang).len();
    let n5 = n4 + nvme_metric_records(NvmeMetric::PowerOnHours, log, lang).len();
    let n6 = n5 + nvme_metric_records(NvmeMetric::PowerCycles, log, lang).len();
    let n7 = n6 + nvme_metric_records(NvmeMetric::MediaErrors, log, lang).len();
    if i < n1 {
        NvmeMetric::SpareBlocks
    } else if i < n2 {
        NvmeMetric::Endurance
    } else if i < n3 {
        NvmeMetric::DataRead
    } else if i < n4 {
        NvmeMetric::DataWritten
    } else if i < n5 {
        NvmeMetric::PowerOnHours
    } else if i < n6 {
        NvmeMetric::PowerCycles
    } else if i < n7 {
        NvmeMetric::MediaErrors
    } else {
        NvmeMetric::UnsafeShutdowns
    }
}

/// Law: a metric whose attribute is absent from the table never appears
/// in the ATA output: every output record is the rendering of a metric
/// whose source value is present.
#[verifier::rlimit(60)]
pub proof fn lemma_ata_output_sources_present(entries: Seq<AtaAttribute>, lang: Language)
    ensures
        forall|i: int|
            0 <= i < ata_records(entries, lang).len() ==> exists|m: AtaMetric|
                ata_emits(m, entries) && #[trigger] ata_records(entries, lang)[i] == ata_render(
                    m,
                    entries,
                    lang,
                ),
{
    let r = ata_records(entries, lang);
    assert forall|i: int| 0 <= i < r.len() implies exists|m: AtaMetric|
        ata_emits(m, entries) && #[trigger] r[i] == ata_render(m, entries, lang) by {
        let witness = ata_record_source(entries, lang, i);
        assert(ata_emits(witness, entries) && r[i] == ata_render(witness, entries, lang));
    }
}

/// The metric that produced the record at a given index of the ATA
/// output.
pub open spec fn ata_record_source(entries: Seq<AtaAttribute>, lang: Language, i: int) -> AtaMetric {
    let n1 = ata_metric_records(AtaMetric::Reallocated, entries, lang).len();
    let n2 = n1 + ata_metric_records(AtaMetric::SpinRetry, entries, lang).len();
    let n3 = n2 + ata_metric_records(AtaMetric::PowerOnHours, entries, lang).len();
    let n4 = n3 + ata_metric_records(AtaMetric::PowerCycles, entries, lang).len();
    let n5 = n4 + ata_metric_records(AtaMetric::WearLevel, entries, lang).len();
    if i < n1 {
        AtaMetric::Reallocated
    } else if i < n2 {
        AtaMetric::SpinRetry
    } else if i < n3 {
        AtaMetric::PowerOnHours
    } else if i < n4 {
        AtaMetric::PowerCycles
    } else if i < n5 {
        AtaMetric::WearLevel
    } else {
        AtaMetric::TotalWritten
    }
}

/// Law: extraction is a pure function of the telemetry document and the
/// language: any two outputs that meet the extractor's contract on the
/// same document are identical, record for record, and carry the same
/// alert.
pub proof fn lemma_extraction_deterministic(
    out1: Seq<MetricModel>,
    alert1: Option<Seq<char>>,
    out2: Seq<MetricModel>,
    alert2: Option<Seq<char>>,
    t: RawTelemetry,
    lang: Language,
)
    requires
        out1 == telemetry_records(t, lang),
        alert1 == telemetry_alert(t, lang),
        out2 == telemetry_records(t, lang),
        alert2 == telemetry_alert(t, lang),
    ensures
        out1 == out2,
        alert1 == alert2,
{
}

} // verus!
