//! Text helpers of the performance dashboard: spans and sizes in a short,
//! human-readable form.

use vstd::prelude::*;
use crate::progress::messages::{nearest_float, nearest_float_u64, round_half_even, round_half_even_u128,
    tenths_text, push_tenths};
use crate::text::{string_of, push_str, push_dec, dec};
use crate::time::Duration;

verus! {

/// A span of whole seconds as `1h 1m 1s`, `1m 30s` or `30s`: the larger
/// units only when they are not zero.
pub open spec fn duration_text(secs: nat) -> Seq<char> {
    let h = secs / 3600;
    let m = (secs % 3600) / 60;
    let s = secs % 60;
    if h > 0 {
        dec(h) + "h "@ + dec(m) + "m "@ + dec(s) + "s"@
    } else if m > 0 {
        dec(m) + "m "@ + dec(s) + "s"@
    } else {
        dec(s) + "s"@
    }
}

/// A span in hours, minutes and seconds, the fraction of a second dropped.
pub fn format_duration(duration: Duration) -> (res: String)
    requires
        duration@ <= crate::time::max_nanos(),
    ensures
        res@ == duration_text((duration@ / 1_000_000_000) as nat),
{
    let total_seconds = duration.as_secs();
    let hours = total_seconds / 3600;
    let minutes = (total_seconds % 3600) / 60;
    let seconds = total_seconds % 60;
    let mut out = String::new();
    if hours > 0 {
        push_dec(&mut out, hours);
        push_str(&mut out, "h ");
        push_dec(&mut out, minutes);
        push_str(&mut out, "m ");
        push_dec(&mut out, seconds);
        push_str(&mut out, "s");
    } else if minutes > 0 {
        push_dec(&mut out, minutes);
        push_str(&mut out, "m ");
        push_dec(&mut out, seconds);
        push_str(&mut out, "s");
    } else {
        push_dec(&mut out, seconds);
        push_str(&mut out, "s");
    }
    out
}

/// `1024` raised to a unit's index.
pub open spec fn unit_size(k: nat) -> nat {
    if k == 0 { 1 } else if k == 1 { 1024 } else if k == 2 { 1048576 } else if k == 3 { 1073741824 } else { 1099511627776 }
}

/// The name of a unit: B, KB, MB, GB, TB.
pub open spec fn unit_name(k: nat) -> Seq<char> {
    if k == 0 { "B"@ } else if k == 1 { "KB"@ } else if k == 2 { "MB"@ } else if k == 3 { "GB"@ } else { "TB"@ }
}

/// The largest unit, up to TB, that the size (as a float) reaches.
pub open spec fn unit_index(f: nat) -> nat {
    if f >= 1099511627776 { 4 } else if f >= 1073741824 { 3 } else if f >= 1048576 { 2 } else if f >= 1024 { 1 } else { 0 }
}

/// A byte count in the largest unit it reaches: whole bytes as `512 B`,
/// else the size divided by the unit with one decimal, rounded half to even
/// (the `{:.1}` rendering of the float quotient), as `1.5 KB`.
pub open spec fn bytes_with_unit(bytes: u64) -> Seq<char> {
    let f = nearest_float(bytes as nat);
    let k = unit_index(f);
    if k == 0 {
        dec(bytes as nat) + " B"@
    } else {
        tenths_text(round_half_even(f * 10, unit_size(k))) + " "@ + unit_name(k)
    }
}

/// A byte count in B, KB, MB, GB or TB.
pub fn format_bytes(bytes: u64) -> (res: String)
    ensures
        res@ == bytes_with_unit(bytes),
{
    let f = nearest_float_u64(bytes);
    let (k, size, name): (u32, u128, &str) = if f >= 1099511627776 {
        (4, 1099511627776, "TB")
    } else if f >= 1073741824 {
        (3, 1073741824, "GB")
    } else if f >= 1048576 {
        (2, 1048576, "MB")
    } else if f >= 1024 {
        (1, 1024, "KB")
    } else {
        (0, 1, "B")
    };
    let mut out = String::new();
    if k == 0 {
        push_dec(&mut out, bytes);
        push_str(&mut out, " B");
    } else {
        let t = round_half_even_u128(f * 10, size);
        assert(t <= (f * 10) / (size as int) + 1);
        push_tenths(&mut out, t);
        push_str(&mut out, " ");
        push_str(&mut out, name);
    }
    out
}

} // verus!
