//! Numbers as people read them: sizes in binary units and lengths of
//! time.

use vstd::prelude::*;
use crate::text::{concat2, concat4, decimal, render_u64};

verus! {

pub const KIB: u64 = 1024;

pub const MIB: u64 = 1024 * 1024;

pub const GIB: u64 = 1024 * 1024 * 1024;

pub const TIB: u64 = 1024 * 1024 * 1024 * 1024;

/// The first number that needs more than 53 binary digits.
pub const PRECISION_LIMIT: u128 = 0x20_0000_0000_0000;

/// `n` over `d` rounded to the nearest whole number, a half to the
/// nearest even one.
pub open spec fn round_half_even(n: nat, d: nat) -> nat {
    let q = n / d;
    let r = n % d;
    if 2 * r > d || (2 * r == d && q % 2 == 1) {
        q + 1
    } else {
        q
    }
}

/// The power of two by which a size has to be divided to fit into 53
/// binary digits.
pub open spec fn precision_scale(n: nat) -> nat {
    if n < 0x20000000000000 {
        1
    } else if n < 0x40000000000000 {
        2
    } else if n < 0x80000000000000 {
        4
    } else if n < 0x100000000000000 {
        8
    } else if n < 0x200000000000000 {
        16
    } else if n < 0x400000000000000 {
        32
    } else if n < 0x800000000000000 {
        64
    } else if n < 0x1000000000000000 {
        128
    } else if n < 0x2000000000000000 {
        256
    } else if n < 0x4000000000000000 {
        512
    } else if n < 0x8000000000000000 {
        1024
    } else {
        2048
    }
}

/// `n` rounded to 53 binary digits, a half to the nearest even: the
/// number a double-precision float holds for it.
pub open spec fn rounded_to_precision(n: nat) -> nat {
    let p = precision_scale(n);
    round_half_even(n, p) * p
}

/// The tenths of `bytes` over `unit`: the size is first rounded to 53
/// binary digits, then the quotient to one decimal, a half to the
/// nearest even each time.
pub open spec fn tenths(bytes: nat, unit: nat) -> nat {
    round_half_even(rounded_to_precision(bytes) * 10, unit)
}

/// A number of tenths as a decimal number with one decimal.
pub open spec fn one_decimal(t: nat) -> Seq<char> {
    decimal(t / 10) + "."@ + decimal(t % 10)
}

/// A size in bytes, in the largest binary unit that it fills, with
/// one decimal; below 1024 in whole bytes.
pub open spec fn size_text(bytes: nat) -> Seq<char> {
    if bytes >= TIB {
        one_decimal(tenths(bytes, TIB as nat)) + " TiB"@
    } else if bytes >= GIB {
        one_decimal(tenths(bytes, GIB as nat)) + " GiB"@
    } else if bytes >= MIB {
        one_decimal(tenths(bytes, MIB as nat)) + " MiB"@
    } else if bytes >= KIB {
        one_decimal(tenths(bytes, KIB as nat)) + " KiB"@
    } else {
        decimal(bytes) + " B"@
    }
}

fn rounded_quotient(n: u128, d: u128) -> (q: u128)
    requires
        d > 0,
        n / d < u128::MAX,
    ensures
        q == round_half_even(n as nat, d as nat),
{
    let q: u128 = n / d;
    let r: u128 = n % d;
    // 2 * r > d, written so that nothing overflows
    let more: bool = r > d - r;
    let half: bool = r == d - r;
    if more || (half && q % 2 == 1) {
        q + 1
    } else {
        q
    }
}

fn scale_of(n: u64) -> (p: u128)
    ensures
        p == precision_scale(n as nat),
        1 <= p <= 2048,
        n < PRECISION_LIMIT * p,
{
    if n < 0x20000000000000 {
        1
    } else if n < 0x40000000000000 {
        2
    } else if n < 0x80000000000000 {
        4
    } else if n < 0x100000000000000 {
        8
    } else if n < 0x200000000000000 {
        16
    } else if n < 0x400000000000000 {
        32
    } else if n < 0x800000000000000 {
        64
    } else if n < 0x1000000000000000 {
        128
    } else if n < 0x2000000000000000 {
        256
    } else if n < 0x4000000000000000 {
        512
    } else if n < 0x8000000000000000 {
        1024
    } else {
        2048
    }
}

fn tenths_of(bytes: u64, unit: u64) -> (t: u64)
    requires
        unit >= 1024,
    ensures
        t == tenths(bytes as nat, unit as nat),
{
    let p: u128 = scale_of(bytes);
    let kept: u128 = rounded_quotient(bytes as u128, p);
    proof {
        assert((bytes as int) / (p as int) < PRECISION_LIMIT) by (nonlinear_arith)
            requires
                bytes < PRECISION_LIMIT * p,
                p >= 1,
        ;
        assert(kept <= PRECISION_LIMIT);
        assert(kept * p <= PRECISION_LIMIT * 2048) by (nonlinear_arith)
            requires
                kept <= PRECISION_LIMIT,
                p <= 2048,
        ;
    }
    let rounded: u128 = kept * p;
    let n: u128 = rounded * 10;
    let t: u128 = rounded_quotient(n, unit as u128);
    proof {
        assert(n / (unit as u128) <= n / 1024) by (nonlinear_arith)
            requires
                unit >= 1024,
                n >= 0,
        ;
        assert(t <= u64::MAX);
    }
    t as u64
}

fn print_one_decimal(t: u64) -> (text: String)
    ensures
        text@ == one_decimal(t as nat),
{
    let whole = render_u64(t / 10);
    let part = render_u64(t % 10);
    let mut text = concat2(whole.as_str(), ".");
    text.append(part.as_str());
    text
}

/// Writes a size in bytes as people read it: `0 B`, `384.0 MiB`,
/// `1.2 GiB`.
pub fn format_bytes(bytes: u64) -> (text: String)
    ensures
        text@ == size_text(bytes as nat),
{
    if bytes >= TIB {
        let n = print_one_decimal(tenths_of(bytes, TIB));
        concat2(n.as_str(), " TiB")
    } else if bytes >= GIB {
        let n = print_one_decimal(tenths_of(bytes, GIB));
        concat2(n.as_str(), " GiB")
    } else if bytes >= MIB {
        let n = print_one_decimal(tenths_of(bytes, MIB));
        concat2(n.as_str(), " MiB")
    } else if bytes >= KIB {
        let n = print_one_decimal(tenths_of(bytes, KIB));
        concat2(n.as_str(), " KiB")
    } else {
        let n = render_u64(bytes);
        concat2(n.as_str(), " B")
    }
}

/// A length of time in seconds, in its three largest units from days
/// down where there are days, and else from the largest unit that is
/// not zero down to seconds.
pub open spec fn uptime_text(secs: nat) -> Seq<char> {
    let days = secs / 86400;
    let hours = (secs % 86400) / 3600;
    let mins = (secs % 3600) / 60;
    let s = secs % 60;
    if days > 0 {
        decimal(days) + "d "@ + decimal(hours) + "h "@ + decimal(mins) + "m"@
    } else if hours > 0 {
        decimal(hours) + "h "@ + decimal(mins) + "m "@ + decimal(s) + "s"@
    } else if mins > 0 {
        decimal(mins) + "m "@ + decimal(s) + "s"@
    } else {
        decimal(s) + "s"@
    }
}

/// Writes a length of time as people read it: `0s`, `2m 5s`,
/// `2h 15m 30s`, `3d 1h 45m`.
pub fn format_uptime(secs: u64) -> (text: String)
    ensures
        text@ == uptime_text(secs as nat),
{
    let days: u64 = secs / 86400;
    let hours: u64 = (secs % 86400) / 3600;
    let mins: u64 = (secs % 3600) / 60;
    let s: u64 = secs % 60;
    let d = render_u64(days);
    let h = render_u64(hours);
    let m = render_u64(mins);
    let x = render_u64(s);
    if days > 0 {
        let mut text = concat4(d.as_str(), "d ", h.as_str(), "h ");
        text.append(m.as_str());
        text.append("m");
        text
    } else if hours > 0 {
        let mut text = concat4(h.as_str(), "h ", m.as_str(), "m ");
        text.append(x.as_str());
        text.append("s");
        text
    } else if mins > 0 {
        concat4(m.as_str(), "m ", x.as_str(), "s")
    } else {
        concat2(x.as_str(), "s")
    }
}

} // verus!
