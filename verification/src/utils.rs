//! Device identity and the unit conversions of formatted metric values.
//!
//! The terabyte conversions round half up on the magnitude, at a fixed
//! number of fractional digits.

use vstd::prelude::*;
use vstd::string::StringExecFns;

use crate::numfmt::dec_chars_of;
use crate::numfmt::dec_digits_of;
use crate::numfmt::digit_char;
use crate::numfmt::i128_to_string;
use crate::numfmt::i64_to_string;
use crate::numfmt::u128_to_string;

verus! {

/// Immutable identity of a discovered storage device.
#[derive(Clone, Debug)]
pub struct StorageDevice {
    /// The full scan line for the device, e.g. "/dev/sda -d nvme".
    pub all_parts: String,
    /// The device path, e.g. "/dev/sda".
    pub device_path: String,
    /// The short device name, e.g. "sda".
    pub short_device_name: String,
    /// The discovered interface name, e.g. "nvme".
    pub interface: String,
}

/// The magnitude of an integer.
pub open spec fn abs_of(n: int) -> int {
    if n < 0 {
        -n
    } else {
        n
    }
}

/// Terabytes in tenths for a count of 512,000-byte data units, rounded
/// half up on the magnitude.
pub open spec fn tb_tenths_of(units: int) -> int {
    (abs_of(units) * 5120000 + 500000000000) / 1000000000000
}

/// The formatted value for a count of 512,000-byte data units: terabytes
/// with one fractional digit and a " TB" suffix.
pub open spec fn data_units_chars(units: int) -> Seq<char> {
    let t = tb_tenths_of(units);
    (if units < 0 {
        seq!['-']
    } else {
        Seq::<char>::empty()
    }) + dec_digits_of((t / 10) as nat) + seq!['.'] + seq![digit_char((t % 10) as nat)] + " TB"@
}

/// Terabytes in hundredths for a count of 512-byte blocks, rounded half
/// up on the magnitude.
pub open spec fn tb_hundredths_of(blocks: int) -> int {
    (abs_of(blocks) * 51200 + 500000000000) / 1000000000000
}

/// The formatted value for a total count of written 512-byte blocks:
/// terabytes with two fractional digits and a " TB" suffix.
pub open spec fn total_lbas_chars(blocks: int) -> Seq<char> {
    let h = tb_hundredths_of(blocks);
    (if blocks < 0 {
        seq!['-']
    } else {
        Seq::<char>::empty()
    }) + dec_digits_of((h / 100) as nat) + seq!['.'] + seq![digit_char(((h / 10) % 10) as nat)]
        + seq![digit_char((h % 10) as nat)] + " TB"@
}

/// Whole days in an hour count, truncated toward zero.
pub open spec fn days_of_hours(hours: int) -> int {
    if hours >= 0 {
        hours / 24
    } else {
        -((-hours) / 24)
    }
}

/// The formatted value for a power-on hour count: the hours and, in
/// parentheses, the whole days they contain.
pub open spec fn hours_chars(hours: int) -> Seq<char> {
    dec_chars_of(hours) + " h ("@ + dec_chars_of(days_of_hours(hours)) + " Tage)"@
}

/// The magnitude of a 64-bit signed value.
fn magnitude(n: i64) -> (r: u64)
    ensures
        r as int == abs_of(n as int),
{
    if n < 0 {
        ((-(n + 1)) as u64) + 1
    } else {
        n as u64
    }
}

/// Converts a count of 512,000-byte data units into a terabyte string
/// with one fractional digit.
pub fn convert_data_units(units: i64) -> (r: String)
    ensures
        r@ == data_units_chars(units as int),
{
    let mag = magnitude(units);
    let t: u128 = (mag as u128 * 5120000 + 500000000000) / 1000000000000;
    proof {
        assert(t as int == tb_tenths_of(units as int));
    }
    let mut s = if units < 0 {
        "-".to_owned()
    } else {
        String::new()
    };
    s.append(u128_to_string(t / 10).as_str());
    s.append(".");
    s.append(u128_to_string(t % 10).as_str());
    s.append(" TB");
    proof {
        reveal_strlit("-");
        reveal_strlit(".");
        assert(s@ =~= data_units_chars(units as int));
    }
    s
}

/// Converts a total count of written 512-byte blocks into a terabyte
/// string with two fractional digits.
pub fn convert_total_lbas(blocks: i64) -> (r: String)
    ensures
        r@ == total_lbas_chars(blocks as int),
{
    let mag = magnitude(blocks);
    let h: u128 = (mag as u128 * 51200 + 500000000000) / 1000000000000;
    proof {
        assert(h as int == tb_hundredths_of(blocks as int));
    }
    let mut s = if blocks < 0 {
        "-".to_owned()
    } else {
        String::new()
    };
    s.append(u128_to_string(h / 100).as_str());
    s.append(".");
    s.append(u128_to_string((h / 10) % 10).as_str());
    s.append(u128_to_string(h % 10).as_str());
    s.append(" TB");
    proof {
        reveal_strlit("-");
        reveal_strlit(".");
        assert(s@ =~= total_lbas_chars(blocks as int));
    }
    s
}

/// Formats a power-on hour count as hours followed by whole days.
pub fn format_power_on_hours(hours: i64) -> (r: String)
    ensures
        r@ == hours_chars(hours as int),
{
    let day_mag: u64 = magnitude(hours) / 24;
    let days: i128 = if hours >= 0 {
        day_mag as i128
    } else {
        -(day_mag as i128)
    };
    proof {
        assert(days as int == days_of_hours(hours as int));
    }
    let mut s = i64_to_string(hours);
    s.append(" h (");
    s.append(i128_to_string(days).as_str());
    s.append(" Tage)");
    proof {
        assert(s@ =~= hours_chars(hours as int));
    }
    s
}

} // verus!
