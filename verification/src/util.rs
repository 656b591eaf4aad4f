//! Human-readable byte counts.

use vstd::prelude::*;
use crate::decimal::{append_one_decimal, div_round_half_even, one_decimal, round_half_even};

verus! {

/// Counts below this are shown from all their digits: two to the power 53.
pub const FULL_PRECISION: u64 = 0x20_0000_0000_0000;

/// The grain of a count for display: 1 below `FULL_PRECISION`, and doubled
/// for every binary digit that the count has beyond 53.
pub open spec fn precision_step(bytes: nat) -> nat
    decreases bytes,
{
    if bytes < FULL_PRECISION {
        1
    } else {
        2 * precision_step(bytes / 2)
    }
}

/// The count that is shown for `bytes`: `bytes` kept to its 53 leading
/// binary digits, which is the nearest multiple of its grain, a tie going to
/// the even multiple. Below `FULL_PRECISION` it is `bytes` itself.
pub open spec fn display_count(bytes: nat) -> nat {
    round_half_even(bytes, precision_step(bytes)) * precision_step(bytes)
}

/// Index of the unit that a count is shown in: the count is divided by 1024
/// for as long as it exceeds 1024 and a larger unit is left, so exactly 1024
/// of a unit are still shown in that unit.
pub open spec fn unit_index(count: nat) -> nat {
    if count <= 1024 {
        0
    } else if count <= 1024 * 1024 {
        1
    } else if count <= 1024 * 1024 * 1024 {
        2
    } else if count <= 1024 * 1024 * 1024 * 1024 {
        3
    } else {
        4
    }
}

/// Number of bytes in one unit of the given index.
pub open spec fn unit_size(unit: nat) -> nat {
    if unit == 0 {
        1
    } else if unit == 1 {
        1024
    } else if unit == 2 {
        1024 * 1024
    } else if unit == 3 {
        1024 * 1024 * 1024
    } else {
        1024 * 1024 * 1024 * 1024
    }
}

/// Abbreviation of the unit of the given index.
pub open spec fn unit_name(unit: nat) -> Seq<char> {
    if unit == 0 {
        seq!['B']
    } else if unit == 1 {
        seq!['K', 'B']
    } else if unit == 2 {
        seq!['M', 'B']
    } else if unit == 3 {
        seq!['G', 'B']
    } else {
        seq!['T', 'B']
    }
}

/// Tenths of its unit that a byte count is shown as: the count for display
/// over the size of its unit, rounded half to even.
pub open spec fn scaled_tenths(bytes: nat) -> nat {
    let count = display_count(bytes);
    round_half_even(count * 10, unit_size(unit_index(count)))
}

/// The text of a byte count: the count in its unit with one decimal place,
/// a space and the unit, as in `1.5 KB`.
pub open spec fn fmt_bytes_text(bytes: nat) -> Seq<char> {
    one_decimal(scaled_tenths(bytes)) + seq![' '] + unit_name(unit_index(display_count(bytes)))
}

/// A percentage in thousandths of a percent, in percent with one decimal
/// place, rounded half to even.
pub open spec fn percent_text(value: u64) -> Seq<char> {
    one_decimal(round_half_even(value as nat, 100))
}

/// Renders a percentage given in thousandths of a percent with one decimal place.
pub fn fmt_percent(value: u64) -> (text: String)
    ensures
        text@ == percent_text(value),
{
    let tenths: u128 = div_round_half_even(value as u128, 100);
    let mut text = String::new();
    append_one_decimal(&mut text, tenths as u64);
    text
}

fn unit_str(unit: usize) -> (s: &'static str)
    ensures
        s@ == unit_name(unit as nat),
{
    proof {
        reveal_strlit("B");
        reveal_strlit("KB");
        reveal_strlit("MB");
        reveal_strlit("GB");
        reveal_strlit("TB");
    }
    let s = if unit == 0 {
        "B"
    } else if unit == 1 {
        "KB"
    } else if unit == 2 {
        "MB"
    } else if unit == 3 {
        "GB"
    } else {
        "TB"
    };
    s
}

/// The count that is shown for `bytes`: see `display_count`.
pub fn count_for_display(bytes: u64) -> (count: u128)
    ensures
        count == display_count(bytes as nat),
        bytes < FULL_PRECISION ==> count == bytes,
        count <= bytes + 4096,
{
    let mut rest: u64 = bytes;
    let mut step: u64 = 1;
    while rest >= FULL_PRECISION
        invariant
            1 <= step <= 4096,
            rest * step <= bytes,
            bytes < FULL_PRECISION ==> step == 1,
            precision_step(bytes as nat) == step * precision_step(rest as nat),
        decreases rest,
    {
        assert(step * precision_step(rest as nat) == (step * 2) * precision_step(
            (rest / 2) as nat,
        )) by (nonlinear_arith)
            requires
                precision_step(rest as nat) == 2 * precision_step((rest / 2) as nat),
        ;
        assert((rest / 2) * (step * 2) <= rest * step) by (nonlinear_arith)
            requires
                (rest / 2) * 2 <= rest,
                step >= 0,
        ;
        assert(step < 2048) by (nonlinear_arith)
            requires
                rest >= 0x20_0000_0000_0000,
                rest * step <= bytes,
                bytes <= 0xffff_ffff_ffff_ffff,
                step >= 1,
        ;
        rest = rest / 2;
        step = step * 2;
    }
    assert(precision_step(bytes as nat) == step) by (nonlinear_arith)
        requires
            precision_step(bytes as nat) == step * precision_step(rest as nat),
            precision_step(rest as nat) == 1,
    ;
    let whole: u128 = div_round_half_even(bytes as u128, step as u128);
    proof {
        vstd::arithmetic::div_mod::lemma_fundamental_div_mod(bytes as int, step as int);
    }
    assert(whole * step <= bytes + step) by (nonlinear_arith)
        requires
            whole <= bytes as int / step as int + 1,
            bytes == step * (bytes as int / step as int) + (bytes as int % step as int),
            bytes as int % step as int >= 0,
            step >= 1,
    ;
    if step == 1 {
        assert(bytes as nat / 1 == bytes && bytes as nat % 1 == 0) by (nonlinear_arith);
    }
    whole * step as u128
}

/// Renders a byte count for display, in the largest of B, KB, MB, GB and TB
/// that keeps the number at or below 1024 where one exists. A count of more
/// than 53 binary digits is shown from its 53 leading ones.
pub fn fmt_bytes(bytes: u64) -> (text: String)
    ensures
        text@ == fmt_bytes_text(bytes as nat),
{
    let count = count_for_display(bytes);
    let mut unit: usize = 0;
    let mut scale: u64 = 1;
    while unit < 4 && count > 1024 * scale as u128
        invariant
            unit <= 4,
            scale == unit_size(unit as nat),
            unit > 0 ==> count > scale,
        decreases 4 - unit,
    {
        scale = scale * 1024;
        unit = unit + 1;
    }
    let tenths: u128 = div_round_half_even(count * 10, scale as u128);
    assert(tenths <= u64::MAX) by {
        let q = (count * 10) as nat / (scale as nat);
        assert(q * scale <= count * 10) by (nonlinear_arith)
            requires
                scale >= 1,
                q == (count * 10) as nat / (scale as nat),
        ;
        assert(unit > 0 ==> q * 1024 <= q * scale) by (nonlinear_arith)
            requires
                unit > 0 ==> scale >= 1024,
        ;
    }
    let mut text = String::new();
    append_one_decimal(&mut text, tenths as u64);
    proof {
        reveal_strlit(" ");
    }
    text.append(" ");
    text.append(unit_str(unit));
    text
}

} // verus!
