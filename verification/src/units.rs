//! Human-readable byte sizes.
//!
//! A size is shown in the largest unit (B, KB, MB, GB and, where allowed, TB)
//! that it reaches, with one decimal digit once it is at least one kilobyte.
//! The tenth is the one that a binary64 rendering of the size with one decimal
//! gives: the size is first rounded to 53 significant bits (round half to
//! even), then divided by the unit, and the tenth is rounded half to even.
use vstd::prelude::*;
use vstd::arithmetic::div_mod::*;
use crate::text::{decimal, digit_char, push_decimal, push_digit};

verus! {

/// Two to the power `n`.
pub open spec fn pow2(n: nat) -> nat
    decreases n,
{
    if n == 0 { 1 } else { 2 * pow2((n - 1) as nat) }
}

/// 1024 to the power `k`.
pub open spec fn pow1024(k: nat) -> nat
    decreases k,
{
    if k == 0 { 1 } else { 1024 * pow1024((k - 1) as nat) }
}

/// `num / den` rounded to the nearest integer, ties to the even neighbour.
pub open spec fn round_half_even(num: nat, den: nat) -> nat
    recommends
        den > 0,
{
    let q = num / den;
    let r = num % den;
    if 2 * r > den || (2 * r == den && q % 2 == 1) { q + 1 } else { q }
}

/// 2^53: integers below it are exactly representable in binary64.
pub open spec fn mantissa_limit() -> nat {
    0x20_0000_0000_0000
}

/// How many low bits of `b` binary64 cannot keep.
pub open spec fn f64_shift(b: nat) -> nat
    decreases b,
{
    if b < mantissa_limit() { 0 } else { 1 + f64_shift(b / 2) }
}

/// The value of `b` once converted to binary64 (round to nearest, ties to even).
pub open spec fn as_f64_value(b: nat) -> nat {
    let s = f64_shift(b);
    round_half_even(b, pow2(s)) * pow2(s)
}

/// The largest `k <= max` with `b >= 1024^k`.
pub open spec fn size_unit(b: nat, max: nat) -> nat
    decreases max,
{
    if max == 0 { 0 } else if b >= pow1024(max) { max } else { size_unit(b, (max - 1) as nat) }
}

/// The name of the `k`-th unit.
pub open spec fn unit_name(k: nat) -> Seq<char> {
    if k == 0 { seq!['B'] }
    else if k == 1 { seq!['K', 'B'] }
    else if k == 2 { seq!['M', 'B'] }
    else if k == 3 { seq!['G', 'B'] }
    else { seq!['T', 'B'] }
}

/// The size in tenths of the unit `k`, as the binary64 rendering rounds it.
pub open spec fn size_tenths(b: nat, k: nat) -> nat {
    round_half_even(as_f64_value(b) * 10, pow1024(k))
}

/// The text of a size: `"<n> B"` below one kilobyte, otherwise the size in
/// its unit with one decimal, then `sep`, then the unit's name.
pub open spec fn scaled_size_text(b: nat, max: nat, sep: Seq<char>) -> Seq<char> {
    let k = size_unit(b, max);
    if k == 0 {
        decimal(b) + seq![' ', 'B']
    } else {
        let t = size_tenths(b, k);
        decimal(t / 10) + seq!['.', digit_char(t % 10)] + sep + unit_name(k)
    }
}

proof fn lemma_pow2_pos(n: nat)
    ensures
        pow2(n) >= 1,
    decreases n,
{
    if n > 0 {
        lemma_pow2_pos((n - 1) as nat);
    }
}

proof fn lemma_pow2_mono(a: nat, b: nat)
    requires
        a <= b,
    ensures
        pow2(a) <= pow2(b),
    decreases b,
{
    if a < b {
        lemma_pow2_mono(a, (b - 1) as nat);
        lemma_pow2_pos((b - 1) as nat);
    }
}

/// `b` converted to binary64, as an exact integer.
pub fn f64_value(b: u64) -> (r: u128)
    ensures
        r == as_f64_value(b as nat),
        r <= 0x1_0000_0000_0000_0000,
{
    let mut x: u64 = b;
    let mut pow: u128 = 1;
    let ghost mut s: nat = 0;
    while x >= 0x20_0000_0000_0000
        invariant
            pow == pow2(s),
            x == b as nat / pow2(s),
            f64_shift(b as nat) == s + f64_shift(x as nat),
            pow * x <= b,
            s <= 11,
        decreases x,
    {
        proof {
            lemma_pow2_pos(s);
            lemma_div_denominator(b as int, pow2(s) as int, 2);
            assert(pow2(s + 1) == pow2(s) * 2);
            assert(pow * 2 * (x / 2) <= pow * x) by (nonlinear_arith)
                requires
                    pow >= 1,
                    x >= 0,
            ;
            assert(pow < 2048) by (nonlinear_arith)
                requires
                    pow * x <= b,
                    x >= 0x20_0000_0000_0000,
                    b <= 0xffff_ffff_ffff_ffff,
            ;
            if s >= 11 {
                lemma_pow2_mono(11, s);
                reveal_with_fuel(pow2, 12);
                assert(false);
            }
        }
        x = x / 2;
        pow = pow * 2;
        proof {
            s = s + 1;
        }
    }
    proof {
        lemma_pow2_pos(s);
        lemma_pow2_mono(s, 11);
        reveal_with_fuel(pow2, 12);
    }
    let bb = b as u128;
    let q = bb / pow;
    let rem = bb % pow;
    let rounded = if 2 * rem > pow || (2 * rem == pow && q % 2 == 1) {
        q + 1
    } else {
        q
    };
    proof {
        assert(q == x);
        assert(rounded * pow <= 0x1_0000_0000_0000_0000) by (nonlinear_arith)
            requires
                rounded <= q + 1,
                q * pow <= b,
                pow <= 2048,
                q <= 0x1f_ffff_ffff_ffff,
                b <= 0xffff_ffff_ffff_ffff,
                pow >= 1,
        ;
    }
    rounded * pow
}

/// 1024 to the power `k`.
pub fn pow1024_value(k: u64) -> (r: u128)
    requires
        k <= 4,
    ensures
        r == pow1024(k as nat),
        1 <= r <= 1099511627776,
{
    proof {
        reveal_with_fuel(pow1024, 5);
    }
    if k == 0 {
        1
    } else if k == 1 {
        1024
    } else if k == 2 {
        1048576
    } else if k == 3 {
        1073741824
    } else {
        1099511627776
    }
}

/// The unit in which a size is shown.
pub fn unit_of(b: u64, max_unit: u64) -> (k: u64)
    requires
        max_unit <= 4,
    ensures
        k == size_unit(b as nat, max_unit as nat),
        k <= max_unit,
{
    let mut k = max_unit;
    while k > 0 && (b as u128) < pow1024_value(k)
        invariant
            k <= max_unit <= 4,
            size_unit(b as nat, max_unit as nat) == size_unit(b as nat, k as nat),
        decreases k,
    {
        k = k - 1;
    }
    k
}

/// Appends the name of the `k`-th unit.
fn push_unit_name(s: &mut String, k: u64)
    requires
        k <= 4,
    ensures
        final(s)@ == old(s)@ + unit_name(k as nat),
{
    proof {
        reveal_strlit("B");
        reveal_strlit("KB");
        reveal_strlit("MB");
        reveal_strlit("GB");
        reveal_strlit("TB");
    }
    if k == 0 {
        s.append("B");
    } else if k == 1 {
        s.append("KB");
    } else if k == 2 {
        s.append("MB");
    } else if k == 3 {
        s.append("GB");
    } else {
        s.append("TB");
    }
}

/// Renders a size in the largest unit up to `max_unit` that it reaches.
pub fn format_scaled(bytes: u64, max_unit: u64, sep: &str) -> (res: String)
    requires
        max_unit <= 4,
    ensures
        res@ == scaled_size_text(bytes as nat, max_unit as nat, sep@),
{
    let k = unit_of(bytes, max_unit);
    let mut s = String::new();
    if k == 0 {
        proof {
            reveal_strlit(" B");
        }
        push_decimal(&mut s, bytes as u128);
        s.append(" B");
        return s;
    }
    let r = f64_value(bytes);
    let den = pow1024_value(k);
    let num = r * 10;
    let q = num / den;
    let rem = num % den;
    let t = if 2 * rem > den || (2 * rem == den && q % 2 == 1) {
        q + 1
    } else {
        q
    };
    proof {
        reveal_strlit(".");
    }
    push_decimal(&mut s, t / 10);
    s.append(".");
    push_digit(&mut s, t % 10);
    s.append(sep);
    push_unit_name(&mut s, k);
    s
}

/// `x` rounded to the nearest binary64 value (ties to even), as an exact
/// integer; at most twice `x`.
pub fn round_to_f64(x: u128) -> (r: u128)
    requires
        x < 0x100_0000_0000_0000_0000_0000_0000_0000,
    ensures
        r == as_f64_value(x as nat),
        r <= 2 * x,
{
    let mut y: u128 = x;
    let mut pow: u128 = 1;
    let ghost mut s: nat = 0;
    while y >= 0x20_0000_0000_0000
        invariant
            pow == pow2(s),
            y == x as nat / pow2(s),
            f64_shift(x as nat) == s + f64_shift(y as nat),
            pow * y <= x,
            x < 0x100_0000_0000_0000_0000_0000_0000_0000,
            s > 0 ==> pow * 0x10_0000_0000_0000 <= x,
        decreases y,
    {
        proof {
            lemma_pow2_pos(s);
            lemma_div_denominator(x as int, pow2(s) as int, 2);
            assert(pow2(s + 1) == pow2(s) * 2);
            assert(pow * 2 * (y / 2) <= pow * y) by (nonlinear_arith)
                requires
                    pow >= 1,
            ;
            assert(pow * 2 * 0x10_0000_0000_0000 <= x) by (nonlinear_arith)
                requires
                    pow * y <= x,
                    y >= 0x20_0000_0000_0000,
            ;
            assert(pow * 2 <= 0x10_0000_0000_0000_0000) by (nonlinear_arith)
                requires
                    pow * 2 * 0x10_0000_0000_0000 <= x,
                    x < 0x100_0000_0000_0000_0000_0000_0000_0000,
            ;
        }
        y = y / 2;
        pow = pow * 2;
        proof {
            s = s + 1;
        }
    }
    proof {
        lemma_pow2_pos(s);
    }
    let q = x / pow;
    let rem = x % pow;
    let rounded = if 2 * rem > pow || (2 * rem == pow && q % 2 == 1) {
        q + 1
    } else {
        q
    };
    proof {
        assert(q == y);
        assert(q * pow <= x) by (nonlinear_arith)
            requires
                q == x / pow,
                pow >= 1,
        ;
        if s == 0 {
            assert(pow == 1);
            assert(rem == 0);
            assert(rounded == x);
        } else {
            assert(rounded * pow <= 2 * x) by (nonlinear_arith)
                requires
                    rounded <= q + 1,
                    q * pow <= x,
                    pow * 0x10_0000_0000_0000 <= x,
            ;
        }
    }
    rounded * pow
}

/// The first shift `t` (from `t` on, at most 62) that brings `f * 2^t`
/// to at least `1000 * 2^52`: the scale at which `f / 1000` has 53
/// significant bits.
pub open spec fn frac_shift(f: nat, t: nat) -> nat
    decreases 62 - t,
{
    if t >= 62 || f * pow2(t) >= 1000 * pow2(52) { t } else { frac_shift(f, t + 1) }
}

/// `f / 1000` (for `f < 1000`) rounded to the nearest binary64 value (ties
/// to even), in units of `2^-62`.
pub open spec fn millis_fraction_f64(f: nat) -> nat {
    if f == 0 {
        0
    } else {
        let t = frac_shift(f, 0);
        round_half_even(f * pow2(t), 1000) * pow2((62 - t) as nat)
    }
}

/// A duration of `ms` milliseconds in seconds as binary64 gives it (whole
/// seconds converted, plus the nanoseconds divided by 10^9, each step
/// rounded to nearest, ties to even), in units of `2^-62`.
pub open spec fn millis_as_f64(ms: nat) -> nat {
    as_f64_value(as_f64_value(ms / 1000) * pow2(62) + millis_fraction_f64(ms % 1000))
}

/// That value in hundredths, rounded to nearest, ties to even: what a
/// two-decimal rendering of it shows.
pub open spec fn centis_of(ms: nat) -> nat {
    round_half_even(100 * millis_as_f64(ms), pow2(62))
}

proof fn lemma_pow2_step(n: nat)
    ensures
        pow2(n + 1) == 2 * pow2(n),
{
}

proof fn lemma_pow2_constants()
    ensures
        pow2(9) == 512,
        pow2(52) == 0x10_0000_0000_0000,
        pow2(62) == 0x4000_0000_0000_0000,
{
    reveal_with_fuel(pow2, 63);
}

/// `f / 1000` as binary64, in units of `2^-62`.
pub fn fraction_f64(f: u64) -> (r: u128)
    requires
        f < 1000,
    ensures
        r == millis_fraction_f64(f as nat),
        r <= 0x8000_0000_0000_0000,
{
    if f == 0 {
        return 0;
    }
    proof {
        lemma_pow2_constants();
    }
    let mut t: u64 = 0;
    let mut num: u128 = f as u128;
    proof {
        assert(pow2(0) == 1);
        assert(f * pow2(0) == f);
    }
    while t < 62 && num < 1000 * 0x10_0000_0000_0000
        invariant
            1 <= f < 1000,
            t <= 62,
            num == f * pow2(t as nat),
            frac_shift(f as nat, 0) == frac_shift(f as nat, t as nat),
            num < 2000 * 0x10_0000_0000_0000,
            pow2(52) == 0x10_0000_0000_0000,
        decreases 62 - t,
    {
        proof {
            lemma_pow2_step(t as nat);
            assert(f * pow2((t + 1) as nat) == 2 * (f * pow2(t as nat))) by (nonlinear_arith)
                requires
                    pow2((t + 1) as nat) == 2 * pow2(t as nat),
            ;
        }
        num = num * 2;
        t = t + 1;
    }
    proof {
        assert(frac_shift(f as nat, t as nat) == t);
        if t <= 52 {
            lemma_pow2_mono(t as nat, 52);
            assert(f * pow2(t as nat) < 1000 * pow2(52)) by (nonlinear_arith)
                requires
                    f < 1000,
                    pow2(t as nat) <= pow2(52),
                    pow2(52) > 0,
            ;
            assert(false);
        }
    }
    let q = num / 1000;
    let rm = num % 1000;
    let m = if 2 * rm > 1000 || (2 * rm == 1000 && q % 2 == 1) { q + 1 } else { q };
    let mut r: u128 = m;
    let mut k: u64 = t;
    proof {
        assert(pow2(0) == 1);
        assert((k - t) as nat == 0);
        assert(m * pow2(0) == m);
    }
    while k < 62
        invariant
            53 <= t <= k <= 62,
            m <= 0x20_0000_0000_0001,
            r == m * pow2((k - t) as nat),
            pow2((k - t) as nat) <= 512,
            pow2(9) == 512,
        decreases 62 - k,
    {
        proof {
            lemma_pow2_step((k - t) as nat);
            assert((k + 1 - t) as nat == (k - t) as nat + 1);
            lemma_pow2_mono((k + 1 - t) as nat, 9);
            assert(m * pow2((k + 1 - t) as nat) == 2 * (m * pow2((k - t) as nat))) by (nonlinear_arith)
                requires
                    pow2((k + 1 - t) as nat) == 2 * pow2((k - t) as nat),
            ;
            assert(r * 2 <= 0x20_0000_0000_0001 * 512) by (nonlinear_arith)
                requires
                    r == m * pow2((k - t) as nat),
                    2 * pow2((k - t) as nat) <= 512,
                    m <= 0x20_0000_0000_0001,
            ;
        }
        r = r * 2;
        k = k + 1;
    }
    proof {
        assert(r <= 0x20_0000_0000_0001 * 512) by (nonlinear_arith)
            requires
                r == m * pow2((k - t) as nat),
                pow2((k - t) as nat) <= 512,
                m <= 0x20_0000_0000_0001,
        ;
    }
    r
}

/// A duration of `ms` milliseconds in hundredths of a second, as a
/// two-decimal rendering of its binary64 value in seconds shows it.
pub fn centis_of_millis(ms: u64) -> (c: u128)
    ensures
        c == centis_of(ms as nat),
{
    proof {
        lemma_pow2_constants();
    }
    let secs = round_to_f64((ms / 1000) as u128);
    let frac = fraction_f64(ms % 1000);
    assert(ms / 1000 < 0x80_0000_0000_0000);
    assert(secs < 0x100_0000_0000_0000);
    let x = secs * 0x4000_0000_0000_0000 + frac;
    let v = round_to_f64(x);
    let num = 100 * v;
    let den: u128 = 0x4000_0000_0000_0000;
    let q = num / den;
    let rm = num % den;
    if 2 * rm > den || (2 * rm == den && q % 2 == 1) { q + 1 } else { q }
}

} // verus!
