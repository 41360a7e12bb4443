//! Formatting of sizes and durations, and the test for a project directory.

use crate::text::{decimal, decimal_chars, digit, digit_char, string_of};
use std::time::Duration;
use vstd::arithmetic::div_mod::{
    lemma_div_denominator, lemma_fundamental_div_mod, lemma_fundamental_div_mod_converse,
    lemma_mod_breakdown,
};
use vstd::prelude::*;

verus! {

/// The whole seconds that a duration holds: what `Duration::as_secs` returns.
pub uninterp spec fn duration_secs(d: Duration) -> u64;

/// The part of a duration below one second, in nanoseconds: what
/// `Duration::subsec_nanos` returns.
pub uninterp spec fn duration_subsec_nanos(d: Duration) -> u32;

/// `Duration::as_secs` returns the number of whole seconds of the duration.
pub assume_specification[ Duration::as_secs ](d: &Duration) -> (r: u64)
    ensures
        r == duration_secs(*d),
;

/// `Duration::subsec_nanos` returns the fractional part of the duration in
/// nanoseconds, which is below one second.
pub assume_specification[ Duration::subsec_nanos ](d: &Duration) -> (r: u32)
    ensures
        r == duration_subsec_nanos(*d),
        r < 1_000_000_000,
;

/// `Path::exists` says whether the path points at an existing entity. The
/// answer depends on the file system, so nothing is stated of it.
#[verifier::external_body]
fn path_exists(path: &str) -> bool {
    std::path::Path::new(path).exists()
}

/// Whether the current directory holds a project manifest.
pub fn is_rust_project() -> bool {
    path_exists("Cargo.toml")
}

/// The length of a duration in nanoseconds.
pub open spec fn duration_nanos(d: Duration) -> nat {
    (duration_secs(d) * 1_000_000_000 + duration_subsec_nanos(d)) as nat
}

/// `n / d` rounded to the nearest whole number, a tie going to the even one.
pub open spec fn round_half_even(n: nat, d: nat) -> nat
    recommends
        d > 0,
{
    let q = n / d;
    let r = n % d;
    if 2 * r < d {
        q
    } else if 2 * r > d {
        q + 1
    } else if q % 2 == 0 {
        q
    } else {
        q + 1
    }
}

/// A count of hundredths written with two decimal places.
pub open spec fn fixed2(h: nat) -> Seq<char> {
    decimal(h / 100) + seq!['.', digit((h % 100) / 10), digit(h % 10)]
}

/// The index of the unit that a size is shown in: bytes below 1024, then
/// KB, MB, and GB for everything from 1024 MB on.
pub open spec fn unit_index(bytes: nat) -> nat {
    if bytes < 1024 {
        0
    } else if bytes < 1024 * 1024 {
        1
    } else if bytes < 1024 * 1024 * 1024 {
        2
    } else {
        3
    }
}

/// The number of bytes in one unit.
pub open spec fn unit_size(k: nat) -> nat {
    if k == 0 {
        1
    } else if k == 1 {
        1024
    } else if k == 2 {
        1024 * 1024
    } else {
        1024 * 1024 * 1024
    }
}

/// The name of a unit.
pub open spec fn unit_name(k: nat) -> Seq<char> {
    if k == 0 {
        seq!['B']
    } else if k == 1 {
        seq!['K', 'B']
    } else if k == 2 {
        seq!['M', 'B']
    } else {
        seq!['G', 'B']
    }
}

/// A size in bytes as text: the plain count and `B` below 1024, otherwise
/// the size in its unit, rounded to two decimal places.
pub open spec fn bytes_text(bytes: nat) -> Seq<char> {
    if bytes < 1024 {
        decimal(bytes) + seq![' ', 'B']
    } else {
        let k = unit_index(bytes);
        fixed2(round_half_even(bytes * 100, unit_size(k))) + seq![' '] + unit_name(k)
    }
}

/// 2 to the 28th, 30th, 52nd, 54th, 80th and 82nd power.
pub const TWO_28: u128 = 0x1000_0000;

pub const TWO_30: u128 = 0x4000_0000;

pub const TWO_52: u128 = 0x10_0000_0000_0000;

pub const TWO_54: u128 = 0x40_0000_0000_0000;

pub const TWO_80: u128 = 0x1_0000_0000_0000_0000_0000;

pub const TWO_82: u128 = 0x4_0000_0000_0000_0000_0000;

/// The nanoseconds in one second.
pub const NANOS_PER_SEC: u128 = 1_000_000_000;

/// The largest power of two that is not above `x`; 1 for 0.
pub open spec fn floor_pow2(x: nat) -> nat
    decreases x,
{
    if x < 2 {
        1
    } else {
        2 * floor_pow2(x / 2)
    }
}

/// The double-precision number nearest to `num / den`, a tie going to the
/// one whose last bit is 0, as a count of `1 / scale`. Such a number has 53
/// significant bits, so the candidates near a value are the multiples of a
/// grid step: the largest power of two that is not above the value,
/// divided by 2 to the 52nd. `scale` is a power of two so large that the
/// grid step is a whole count.
pub open spec fn nearest_double(num: nat, den: nat, scale: nat) -> nat {
    let grid = floor_pow2(num * scale / (TWO_52 as nat) / den);
    round_half_even(num * scale, den * grid) * grid
}

/// The double-precision number that floating-point arithmetic gives for a
/// duration in seconds, as a count of 2 to the minus 52nd: the whole
/// seconds as a double, plus the quotient of the nanoseconds by a
/// thousand million as a double, each step rounded to the nearest double.
pub open spec fn seconds_as_double(secs: nat, nanos: nat) -> nat {
    let whole = nearest_double(secs, 1, TWO_52 as nat);
    let part = if nanos == 0 {
        0
    } else {
        nearest_double(nanos, NANOS_PER_SEC as nat, TWO_82 as nat)
    };
    nearest_double((whole * TWO_30 + part) as nat, TWO_82 as nat, TWO_52 as nat)
}

/// A duration in nanoseconds as text: whole milliseconds below one second,
/// otherwise the seconds as a double, rounded to two decimal places.
pub open spec fn duration_text(nanos: nat) -> Seq<char> {
    if nanos < NANOS_PER_SEC {
        decimal(nanos / 1_000_000) + seq!['m', 's']
    } else {
        fixed2(
            round_half_even(
                seconds_as_double(nanos / (NANOS_PER_SEC as nat), nanos % (NANOS_PER_SEC as nat))
                    * 100,
                TWO_52 as nat,
            ),
        ) + seq!['s']
    }
}

/// The largest power of two that is not above `x` is at least 1, and from
/// 1 on it is not above `x` while its double is.
pub proof fn law_floor_pow2(x: nat)
    ensures
        floor_pow2(x) >= 1,
        x >= 1 ==> floor_pow2(x) <= x < 2 * floor_pow2(x),
    decreases x,
{
    if x >= 2 {
        law_floor_pow2(x / 2);
    }
}

/// The nearest double is off the value by half a grid step at most.
pub proof fn law_double_is_nearest(num: nat, den: nat, scale: nat)
    requires
        den > 0,
    ensures
        ({
            let grid = floor_pow2(num * scale / (TWO_52 as nat) / den);
            let double = nearest_double(num, den, scale);
            2 * (num * scale) - den * grid <= 2 * (den * double) <= 2 * (num * scale) + den * grid
        }),
{
    let grid = floor_pow2(num * scale / (TWO_52 as nat) / den);
    let m = round_half_even(num * scale, den * grid);
    law_floor_pow2(num * scale / (TWO_52 as nat) / den);
    assert(den * grid > 0) by (nonlinear_arith)
        requires
            den > 0,
            grid > 0,
    ;
    law_rounding_is_nearest(num * scale, den * grid);
    assert(2 * (den * (m * grid)) == 2 * (den * grid) * m) by (nonlinear_arith);
}

/// `(u + f) / q` rounded to the nearest whole number, a tie going to the
/// even one, where `f` is a fraction below 1 of which only this is known:
/// whether it is more than nothing.
pub open spec fn round_with_rest(u: nat, rest: bool, q: nat) -> nat {
    let whole = u / q;
    let r = u % q;
    let half = q / 2;
    if r > half || (r == half && rest) {
        whole + 1
    } else if r == half && whole % 2 == 1 {
        whole + 1
    } else {
        whole
    }
}

/// Rounding a count of fine units is rounding the count of coarse units
/// with what is left over: `u * p + f` over `p * q` rounds as `u` over `q`
/// does with the rest `f`.
pub proof fn lemma_round_with_rest(u: nat, f: nat, p: nat, q: nat)
    requires
        p > 0,
        f < p,
        q > 0,
        q % 2 == 0,
    ensures
        round_half_even(u * p + f, p * q) == round_with_rest(u, f > 0, q),
{
    let n = (u * p + f) as int;
    lemma_fundamental_div_mod_converse(n, p as int, u as int, f as int);
    lemma_div_denominator(n, p as int, q as int);
    lemma_mod_breakdown(n, p as int, q as int);
    let r = (u % q) as int;
    let half = (q / 2) as int;
    let rem = n % ((p * q) as int);
    assert(rem == p * r + f);
    assert(q == 2 * half);
    assert(p * q == 2 * (p * half)) by (nonlinear_arith)
        requires
            q == 2 * half,
    ;
    if r > half {
        assert(p * r >= p * half + p) by (nonlinear_arith)
            requires
                r >= half + 1,
                p > 0,
        ;
    } else if r < half {
        assert(p * r + p <= p * half) by (nonlinear_arith)
            requires
                r + 1 <= half,
                p > 0,
        ;
    } else {
        assert(p * r == p * half);
    }
}

/// A rounded quotient is a nearest whole number: it is off the quotient
/// by half at most.
pub proof fn law_rounding_is_nearest(n: nat, d: nat)
    requires
        d > 0,
    ensures
        2 * n - d <= 2 * d * round_half_even(n, d) <= 2 * n + d,
{
    let q = n / d;
    let r = n % d;
    assert(n == d * q + r && 0 <= r < d) by (nonlinear_arith)
        requires
            d > 0,
            q == n / d,
            r == n % d,
    ;
    assert(2 * d * (q + 1) == 2 * d * q + 2 * d) by (nonlinear_arith);
    assert(2 * d * q == 2 * (d * q)) by (nonlinear_arith);
}

/// The unit of a size from 1024 bytes on is the one in which the size is at
/// least 1, and below 1024 as long as the size is below 1024 GB.
pub proof fn law_unit_of_size(bytes: nat)
    requires
        bytes >= 1024,
    ensures
        1 <= unit_index(bytes) <= 3,
        unit_size(unit_index(bytes)) <= bytes,
        bytes < 1024 * 1024 * 1024 * 1024 ==> bytes < 1024 * unit_size(unit_index(bytes)),
{
}

/// Divides and rounds to the nearest whole number, a tie going to the even
/// one.
pub fn divide_round(n: u128, d: u128) -> (r: u128)
    requires
        0 < d <= u128::MAX / 2,
        n / d < u128::MAX,
    ensures
        r == round_half_even(n as nat, d as nat),
        r <= n / d + 1,
{
    let q: u128 = n / d;
    let rem: u128 = n % d;
    let twice: u128 = 2 * rem;
    if twice < d {
        q
    } else if twice > d {
        q + 1
    } else if q % 2 == 0 {
        q
    } else {
        q + 1
    }
}

/// Writes a count of hundredths with two decimal places.
pub fn fixed2_chars(h: u128) -> (r: Vec<char>)
    ensures
        r@ == fixed2(h as nat),
{
    let mut out = decimal_chars(h / 100);
    out.push('.');
    out.push(digit_char(((h % 100) / 10) as u8));
    out.push(digit_char((h % 10) as u8));
    out
}

/// Formats a size in bytes for a reader.
pub fn format_bytes(bytes: u64) -> (r: String)
    ensures
        r@ == bytes_text(bytes as nat),
{
    if bytes < 1024 {
        let mut out = decimal_chars(bytes as u128);
        out.push(' ');
        out.push('B');
        return string_of(&out);
    }
    let size: u128;
    let prefix: char;
    if bytes < 1024 * 1024 {
        size = 1024;
        prefix = 'K';
    } else if bytes < 1024 * 1024 * 1024 {
        size = 1024 * 1024;
        prefix = 'M';
    } else {
        size = 1024 * 1024 * 1024;
        prefix = 'G';
    }
    let scaled: u128 = (bytes as u128) * 100;
    let mut out = fixed2_chars(divide_round(scaled, size));
    out.push(' ');
    out.push(prefix);
    out.push('B');
    string_of(&out)
}

/// Finds the largest power of two that is not above `x`.
fn floor_power(x: u128) -> (g: u128)
    ensures
        g == floor_pow2(x as nat),
        g >= 1,
        x >= 1 ==> g <= x,
        x < 2 * g,
{
    let mut g: u128 = 1;
    while x / g >= 2
        invariant
            g >= 1,
            g == 1 || g <= x,
            floor_pow2(x as nat) == g * floor_pow2((x / g) as nat),
        decreases x - g,
    {
        proof {
            lemma_fundamental_div_mod(x as int, g as int);
            lemma_div_denominator(x as int, g as int, 2);
            assert(2 * g <= x) by (nonlinear_arith)
                requires
                    x == g * (x / g) + x % g,
                    x / g >= 2,
                    x % g >= 0,
                    g >= 1,
            ;
            assert(g * (2 * floor_pow2(((x / g) / 2) as nat)) == (2 * g) * floor_pow2(
                ((x / g) / 2) as nat,
            )) by (nonlinear_arith);
        }
        g = 2 * g;
    }
    proof {
        lemma_fundamental_div_mod(x as int, g as int);
        assert(floor_pow2((x / g) as nat) == 1);
        assert(g * floor_pow2((x / g) as nat) == g) by (nonlinear_arith)
            requires
                floor_pow2((x / g) as nat) == 1,
        ;
        assert(x < 2 * g) by (nonlinear_arith)
            requires
                x == g * (x / g) + x % g,
                x / g < 2,
                x % g < g,
                g >= 1,
        ;
    }
    g
}

/// Rounds `n / den` to the nearest multiple of `grid`, in units of which
/// `n / den` counts, a tie going to the even multiple.
fn round_to_grid(n: u128, den: u128, grid: u128) -> (r: u128)
    requires
        den >= 1,
        grid >= 1,
        den * grid <= u128::MAX / 2,
        n / den + grid <= u128::MAX,
    ensures
        r == round_half_even(n as nat, (den * grid) as nat) * grid,
        r <= n / den + grid,
{
    proof {
        lemma_div_denominator(n as int, den as int, grid as int);
        lemma_fundamental_div_mod((n / den) as int, grid as int);
    }
    let m = divide_round(n, den * grid);
    assert(m * grid <= n / den + grid) by (nonlinear_arith)
        requires
            m <= (n / den) / grid + 1,
            n / den == grid * ((n / den) / grid) + (n / den) % grid,
            (n / den) % grid >= 0,
            grid >= 1,
    ;
    m * grid
}

/// Rounds `(u + f) / 4` to the nearest multiple of `grid`, a tie going to
/// the even multiple, where `f` is a fraction below 1 and `rest` says
/// whether it is more than nothing.
fn round_wide(u: u128, rest: bool, grid: u128) -> (r: u128)
    requires
        grid >= 1,
        4 * grid <= u128::MAX,
        u / 4 + grid <= u128::MAX,
    ensures
        r == round_with_rest(u as nat, rest, (4 * grid) as nat) * grid,
        r <= u / 4 + grid,
{
    let q: u128 = 4 * grid;
    let whole: u128 = u / q;
    let rem: u128 = u % q;
    let half: u128 = 2 * grid;
    proof {
        lemma_div_denominator(u as int, 4, grid as int);
        lemma_fundamental_div_mod((u / 4) as int, grid as int);
        assert((whole + 1) * grid <= u / 4 + grid) by (nonlinear_arith)
            requires
                whole == (u / 4) / grid,
                u / 4 == grid * ((u / 4) / grid) + (u / 4) % grid,
                (u / 4) % grid >= 0,
                grid >= 1,
        ;
        assert(whole * grid <= (whole + 1) * grid) by (nonlinear_arith)
            requires
                grid >= 1,
        ;
    }
    let m: u128 = if rem > half || (rem == half && rest) {
        whole + 1
    } else if rem == half && whole % 2 == 1 {
        whole + 1
    } else {
        whole
    };
    assert(m * grid <= (whole + 1) * grid) by (nonlinear_arith)
        requires
            m <= whole + 1,
            grid >= 1,
    ;
    m * grid
}

/// The double that floating-point arithmetic gives for a duration of at
/// least one second, as a count of 2 to the minus 52nd.
fn double_of_seconds(secs: u128, nanos: u128) -> (d: u128)
    requires
        1 <= secs <= u64::MAX,
        nanos < NANOS_PER_SEC,
    ensures
        d == seconds_as_double(secs as nat, nanos as nat),
        d <= TWO_52 * secs + TWO_54 * secs,
{
    let whole = round_to_grid(secs * TWO_52, 1, floor_power(secs));
    let part = if nanos == 0 {
        0
    } else {
        let n: u128 = nanos * TWO_82;
        round_to_grid(n, NANOS_PER_SEC, floor_power(n / TWO_52 / NANOS_PER_SEC))
    };
    let u: u128 = whole * 4 + part / TWO_28;
    let f: u128 = part % TWO_28;
    let grid = floor_power(u / TWO_54);
    proof {
        let sum = (whole * TWO_30 + part) as nat;
        assert(sum == u * TWO_28 + f);
        lemma_fundamental_div_mod_converse(sum as int, TWO_28 as int, u as int, f as int);
        lemma_div_denominator(sum as int, TWO_28 as int, TWO_54 as int);
        assert((sum * TWO_52) as nat / (TWO_52 as nat) / (TWO_82 as nat) == u / TWO_54);
        assert(sum * TWO_52 == u * TWO_80 + f * TWO_52);
        assert(TWO_82 * grid == TWO_80 * (4 * grid));
        lemma_round_with_rest(u as nat, (f * TWO_52) as nat, TWO_80 as nat, (4 * grid) as nat);
    }
    round_wide(u, f != 0, grid)
}

/// Formats a length of time given in nanoseconds. The whole seconds fit in
/// 64 bits, as those of a duration do.
pub fn format_nanos(nanos: u128) -> (r: String)
    requires
        nanos / NANOS_PER_SEC <= u64::MAX,
    ensures
        r@ == duration_text(nanos as nat),
{
    if nanos < NANOS_PER_SEC {
        let mut out = decimal_chars(nanos / 1_000_000);
        out.push('m');
        out.push('s');
        string_of(&out)
    } else {
        let d = double_of_seconds(nanos / NANOS_PER_SEC, nanos % NANOS_PER_SEC);
        let mut out = fixed2_chars(divide_round(d * 100, TWO_52));
        out.push('s');
        string_of(&out)
    }
}

/// Formats a duration for a reader.
pub fn format_duration(duration: Duration) -> (r: String)
    ensures
        r@ == duration_text(duration_nanos(duration)),
{
    let secs: u128 = duration.as_secs() as u128;
    let sub: u128 = duration.subsec_nanos() as u128;
    format_nanos(secs * NANOS_PER_SEC + sub)
}

} // verus!
