//! Human-readable byte sizes for terminal tables.
//!
//! The size is shown in the largest of B, KB, MB, GB, TB (steps of 1024) in
//! which it is at least 1, with one decimal, exactly as formatting the 64-bit
//! float `bytes as f64` divided by the unit with `{:.1}` does. The float is
//! modelled exactly with integers: `bytes as f64` rounds to the nearest value
//! with a 53-bit significand (ties to even), dividing it by a power of two is
//! exact, and `{:.1}` rounds the exact value to one decimal (ties to even).
use vstd::prelude::*;
use crate::numfmt::{dec_nat, digit, digit_char, push_decimal};
use crate::text::push_char;

verus! {

/// The gap between neighbouring 64-bit floats around `b` (a power of two).
pub open spec fn f64_spacing(b: nat) -> nat {
    if b < 0x20_0000_0000_0000 {
        1
    } else if b < 0x40_0000_0000_0000 {
        2
    } else if b < 0x80_0000_0000_0000 {
        4
    } else if b < 0x100_0000_0000_0000 {
        8
    } else if b < 0x200_0000_0000_0000 {
        16
    } else if b < 0x400_0000_0000_0000 {
        32
    } else if b < 0x800_0000_0000_0000 {
        64
    } else if b < 0x1000_0000_0000_0000 {
        128
    } else if b < 0x2000_0000_0000_0000 {
        256
    } else if b < 0x4000_0000_0000_0000 {
        512
    } else if b < 0x8000_0000_0000_0000 {
        1024
    } else {
        2048
    }
}

/// `x / d` rounded to the nearest integer, ties to the even one.
pub open spec fn round_half_even(x: nat, d: nat) -> nat
    recommends
        d > 0,
{
    let q = x / d;
    let r = x % d;
    if 2 * r > d || (2 * r == d && q % 2 == 1) {
        q + 1
    } else {
        q
    }
}

/// The value of `b as f64` for an unsigned 64-bit `b`.
pub open spec fn as_f64(b: nat) -> nat {
    let s = f64_spacing(b);
    round_half_even(b, s) * s
}

/// Index of the display unit for a value: 0 = B, 1 = KB, 2 = MB, 3 = GB, 4 = TB.
pub open spec fn unit_index(v: nat) -> nat {
    if v < 0x400 {
        0
    } else if v < 0x10_0000 {
        1
    } else if v < 0x4000_0000 {
        2
    } else if v < 0x100_0000_0000 {
        3
    } else {
        4
    }
}

/// 1024 to the power `k` (k <= 4).
pub open spec fn unit_size(k: nat) -> nat {
    if k == 0 {
        1
    } else if k == 1 {
        0x400
    } else if k == 2 {
        0x10_0000
    } else if k == 3 {
        0x4000_0000
    } else {
        0x100_0000_0000
    }
}

/// The name of unit `k`.
pub open spec fn unit_name(k: nat) -> Seq<char> {
    if k == 0 {
        seq!['B']
    } else if k == 1 {
        seq!['K', 'B']
    } else if k == 2 {
        seq!['M', 'B']
    } else if k == 3 {
        seq!['G', 'B']
    } else {
        seq!['T', 'B']
    }
}

/// The text `format_bytes` gives for `bytes`.
pub open spec fn bytes_text(bytes: nat) -> Seq<char> {
    if bytes < 1024 {
        dec_nat(bytes) + seq![' ', 'B']
    } else {
        let v = as_f64(bytes);
        let k = unit_index(v);
        let tenths = round_half_even(10 * v, unit_size(k));
        dec_nat(tenths / 10) + seq!['.', digit((tenths % 10) as int), ' '] + unit_name(k)
    }
}

fn round_half_even_exec(x: u128, d: u128) -> (r: u128)
    requires
        0 < d <= 0x1_0000_0000_0000_0000,
        x <= 0x1_0000_0000_0000_0000_0000,
    ensures
        r == round_half_even(x as nat, d as nat),
        r <= x / d + 1,
{
    let q = x / d;
    let r = x % d;
    if 2 * r > d || (2 * r == d && q % 2 == 1) {
        q + 1
    } else {
        q
    }
}

fn spacing_exec(b: u64) -> (s: u128)
    ensures
        s == f64_spacing(b as nat),
        1 <= s <= 2048,
{
    if b < 0x20_0000_0000_0000 {
        1
    } else if b < 0x40_0000_0000_0000 {
        2
    } else if b < 0x80_0000_0000_0000 {
        4
    } else if b < 0x100_0000_0000_0000 {
        8
    } else if b < 0x200_0000_0000_0000 {
        16
    } else if b < 0x400_0000_0000_0000 {
        32
    } else if b < 0x800_0000_0000_0000 {
        64
    } else if b < 0x1000_0000_0000_0000 {
        128
    } else if b < 0x2000_0000_0000_0000 {
        256
    } else if b < 0x4000_0000_0000_0000 {
        512
    } else if b < 0x8000_0000_0000_0000 {
        1024
    } else {
        2048
    }
}

fn unit_of(v: u128) -> (k: u64)
    ensures
        k == unit_index(v as nat),
{
    if v < 0x400 {
        0
    } else if v < 0x10_0000 {
        1
    } else if v < 0x4000_0000 {
        2
    } else if v < 0x100_0000_0000 {
        3
    } else {
        4
    }
}

fn unit_size_of(k: u64) -> (d: u128)
    requires
        k <= 4,
    ensures
        d == unit_size(k as nat),
{
    if k == 0 {
        1
    } else if k == 1 {
        0x400
    } else if k == 2 {
        0x10_0000
    } else if k == 3 {
        0x4000_0000
    } else {
        0x100_0000_0000
    }
}

fn push_unit_name(s: &mut String, k: u64)
    requires
        k <= 4,
    ensures
        final(s)@ == old(s)@ + unit_name(k as nat),
{
    if k == 0 {
        push_char(s, 'B');
    } else {
        if k == 1 {
            push_char(s, 'K');
        } else if k == 2 {
            push_char(s, 'M');
        } else if k == 3 {
            push_char(s, 'G');
        } else {
            push_char(s, 'T');
        }
        push_char(s, 'B');
    }
    assert(s@ =~= old(s)@ + unit_name(k as nat));
}

/// Formats a byte count compactly, e.g. `0 B`, `1.0 KB`, `3.0 MB`.
pub fn format_bytes(bytes: u64) -> (r: String)
    ensures
        r@ == bytes_text(bytes as nat),
{
    let mut s = String::new();
    if bytes < 1024 {
        push_decimal(&mut s, bytes);
        push_char(&mut s, ' ');
        push_char(&mut s, 'B');
        assert(s@ =~= bytes_text(bytes as nat));
        return s;
    }
    let b = bytes as u128;
    let sp = spacing_exec(bytes);
    let q = round_half_even_exec(b, sp);
    assert(q * sp <= b + sp) by (nonlinear_arith)
        requires
            q <= b / sp + 1,
            sp > 0,
    {
        vstd::arithmetic::div_mod::lemma_fundamental_div_mod(b as int, sp as int);
        assert(sp * (b / sp) <= b);
        assert(sp * (b / sp + 1) <= b + sp);
    }
    let v = q * sp;
    assert(v == as_f64(bytes as nat));
    let k = unit_of(v);
    let d = unit_size_of(k);
    let tenths = round_half_even_exec(10 * v, d);
    let tv: u128 = 10 * v;
    assert(tv / d <= tv) by (nonlinear_arith)
        requires
            d >= 1,
    ;
    assert(tenths / 10 <= 0xffff_ffff_ffff_ffff);
    push_decimal(&mut s, (tenths / 10) as u64);
    push_char(&mut s, '.');
    push_char(&mut s, digit_char((tenths % 10) as u64));
    push_char(&mut s, ' ');
    push_unit_name(&mut s, k);
    assert(s@ =~= bytes_text(bytes as nat));
    s
}

/// The space a file occupies on disk, given its count of 512-byte blocks;
/// saturates at the largest `u64` instead of overflowing.
pub fn allocated_bytes(blocks: u64) -> (r: u64)
    ensures
        r == if blocks * 512 > u64::MAX {
            u64::MAX as int
        } else {
            blocks * 512
        },
{
    if blocks > u64::MAX / 512 {
        u64::MAX
    } else {
        blocks * 512
    }
}

} // verus!
