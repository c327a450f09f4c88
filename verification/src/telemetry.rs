//! The telemetry model: the plain values the extractors read out of a
//! device's raw telemetry document, with every source field optional.
//!
//! A field holds `None` both when it is absent from the document and when
//! it carries an unexpected type; the extractors treat the two alike, by
//! omitting the metric.

use vstd::prelude::*;
use vstd::string::StrSliceExecFns;

verus! {

/// The interface kind of a storage device.
#[derive(Clone, Copy, PartialEq, Eq, Debug, Structural)]
pub enum InterfaceKind {
    Nvme,
    Ata,
}

/// Which interface kind a discovered interface name denotes: exactly the
/// name "nvme" selects NVMe; every other name is treated as ATA/SATA.
pub open spec fn kind_of_interface(name: Seq<char>) -> InterfaceKind {
    if name == "nvme"@ {
        InterfaceKind::Nvme
    } else {
        InterfaceKind::Ata
    }
}

/// Parses a discovered interface name into its interface kind.
pub fn interface_kind(name: &str) -> (r: InterfaceKind)
    ensures
        r == kind_of_interface(name@),
{
    proof {
        reveal_strlit("nvme");
    }
    if name.unicode_len() != 4 {
        return InterfaceKind::Ata;
    }
    let c0 = name.get_char(0);
    let c1 = name.get_char(1);
    let c2 = name.get_char(2);
    let c3 = name.get_char(3);
    if c0 == 'n' && c1 == 'v' && c2 == 'm' && c3 == 'e' {
        proof {
            assert(name@ =~= "nvme"@);
        }
        InterfaceKind::Nvme
    } else {
        InterfaceKind::Ata
    }
}

/// The fixed set of NVMe health-log fields the extractor reads.
#[derive(Clone, Copy, PartialEq, Eq, Debug)]
pub struct NvmeHealthLog {
    pub critical_warning: Option<i64>,
    pub available_spare: Option<i64>,
    pub available_spare_threshold: Option<i64>,
    pub percentage_used: Option<i64>,
    pub data_units_read: Option<i64>,
    pub data_units_written: Option<i64>,
    pub power_on_hours: Option<i64>,
    pub power_cycles: Option<i64>,
    pub media_errors: Option<i64>,
    pub unsafe_shutdowns: Option<i64>,
}

/// A health log with every field absent.
pub open spec fn empty_nvme_log() -> NvmeHealthLog {
    NvmeHealthLog {
        critical_warning: None,
        available_spare: None,
        available_spare_threshold: None,
        percentage_used: None,
        data_units_read: None,
        data_units_written: None,
        power_on_hours: None,
        power_cycles: None,
        media_errors: None,
        unsafe_shutdowns: None,
    }
}

impl Default for NvmeHealthLog {
    /// A health log with every field absent.
    fn default() -> (r: Self)
        ensures
            r == empty_nvme_log(),
    {
        NvmeHealthLog {
            critical_warning: None,
            available_spare: None,
            available_spare_threshold: None,
            percentage_used: None,
            data_units_read: None,
            data_units_written: None,
            power_on_hours: None,
            power_cycles: None,
            media_errors: None,
            unsafe_shutdowns: None,
        }
    }
}

/// One entry of the numbered ATA SMART attribute table, as the extractor
/// reads it: its numeric ID, its raw value, and its normalized value.
#[derive(Clone, Copy, PartialEq, Eq, Debug)]
pub struct AtaAttribute {
    pub id: Option<i64>,
    pub raw_value: Option<i64>,
    pub normalized_value: Option<i64>,
}

/// The first table entry carrying the given attribute ID, if any.
pub open spec fn find_attr(entries: Seq<AtaAttribute>, id: i64) -> Option<AtaAttribute>
    decreases entries.len(),
{
    if entries.len() == 0 {
        None
    } else if entries[0].id == Some(id) {
        Some(entries[0])
    } else {
        find_attr(entries.drop_first(), id)
    }
}

/// The raw value of the first table entry with the given ID, absent when
/// no entry carries the ID or that entry's raw value is absent.
pub open spec fn attr_raw(entries: Seq<AtaAttribute>, id: i64) -> Option<i64> {
    match find_attr(entries, id) {
        Some(a) => a.raw_value,
        None => None,
    }
}

/// The normalized value of the first table entry with the given ID.
pub open spec fn attr_normalized(entries: Seq<AtaAttribute>, id: i64) -> Option<i64> {
    match find_attr(entries, id) {
        Some(a) => a.normalized_value,
        None => None,
    }
}

/// Looks up the first table entry carrying the given attribute ID.
pub fn lookup_attr(entries: &Vec<AtaAttribute>, id: i64) -> (r: Option<AtaAttribute>)
    ensures
        r == find_attr(entries@, id),
{
    let ghost all = entries@;
    proof {
        assert(all.skip(0) =~= all);
    }
    let mut i: usize = 0;
    while i < entries.len()
        invariant
            0 <= i <= entries.len(),
            all == entries@,
            find_attr(all, id) == find_attr(all.skip(i as int), id),
        decreases entries.len() - i,
    {
        let a = entries[i];
        proof {
            assert(all.skip(i as int)[0] == all[i as int]);
            assert(all.skip(i as int).drop_first() =~= all.skip(i as int + 1));
        }
        if let Some(entry_id) = a.id {
            if entry_id == id {
                return Some(a);
            }
        }
        proof {
            assert(all[i as int].id != Some(id));
        }
        i = i + 1;
    }
    proof {
        assert(all.skip(i as int) =~= Seq::<AtaAttribute>::empty());
    }
    None
}

/// A device's raw telemetry, reduced to the plain values the extractor
/// for its interface kind reads.
#[derive(Clone, PartialEq, Eq, Debug)]
pub enum RawTelemetry {
    Nvme(NvmeHealthLog),
    Ata(Vec<AtaAttribute>),
}

} // verus!
