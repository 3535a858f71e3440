//! Rounding as binary floating-point arithmetic does it, on integers.

use vstd::prelude::*;

verus! {

/// `n / d` rounded to the nearest integer, a tie to the even one.
pub open spec fn nearest_even(n: nat, d: nat) -> nat {
    let q = n / d;
    let r = n % d;
    if 2 * r < d || (2 * r == d && q % 2 == 0) {
        q
    } else {
        q + 1
    }
}

/// The largest of `unit`, twice `unit`, four times `unit` and so on that is at most `v`.
pub open spec fn binary_unit(v: nat, unit: nat) -> nat
    decreases v - unit,
{
    if unit == 0 || v < 2 * unit {
        unit
    } else {
        binary_unit(v, 2 * unit)
    }
}

/// `n` as a floating-point number whose significand takes the values below `top`, a power of two:
/// exact below `top`, else rounded to as many binary digits.
pub open spec fn rounded(n: nat, top: nat) -> nat {
    if n < top {
        n
    } else {
        let grain = binary_unit(n, top) / (top / 2);
        nearest_even(n, grain) * grain
    }
}

pub fn round_even(n: u128, d: u128) -> (r: u128)
    requires
        0 < d <= 0x1_0000_0000_0000_0000_0000_0000_0000,
        n <= 0x1000_0000_0000_0000_0000_0000_0000_0000,
    ensures
        r == nearest_even(n as nat, d as nat),
{
    let q: u128 = n / d;
    let r: u128 = n % d;
    assert(q <= n) by (nonlinear_arith)
        requires
            q == n / d,
            d > 0,
    ;
    if 2 * r < d || (2 * r == d && q % 2 == 0) {
        q
    } else {
        q + 1
    }
}

pub fn find_unit(v: u128, unit: u128) -> (r: u128)
    requires
        0 < unit <= v <= 0x4000_0000_0000_0000_0000_0000_0000_0000,
    ensures
        r == binary_unit(v as nat, unit as nat),
        unit <= r <= v < 2 * r,
{
    let mut u: u128 = unit;
    while v >= 2 * u
        invariant
            0 < unit <= u <= v <= 0x4000_0000_0000_0000_0000_0000_0000_0000,
            binary_unit(v as nat, unit as nat) == binary_unit(v as nat, u as nat),
        decreases v - u,
    {
        u = 2 * u;
    }
    u
}

/// `n` as a floating-point number whose significand takes the values below `top`.
pub fn round_to_bits(n: u64, top: u64) -> (r: u128)
    requires
        top >= 4,
    ensures
        r == rounded(n as nat, top as nat),
        n / 2 <= r <= 2 * n,
{
    if n < top {
        n as u128
    } else {
        let unit: u128 = find_unit(n as u128, top as u128);
        let half: u128 = (top / 2) as u128;
        let grain: u128 = unit / half;
        proof {
            let (u, h, g) = (unit as int, half as int, grain as int);
            assert(1 <= g && 2 * g <= u) by (nonlinear_arith)
                requires
                    g == u / h,
                    h >= 2,
                    u >= h,
            ;
        }
        let q: u128 = round_even(n as u128, grain);
        proof {
            let (n, g, q) = (n as int, grain as int, q as int);
            assert(q == n / g || q == n / g + 1);
            assert(n - g < n / g * g <= n) by (nonlinear_arith)
                requires
                    g > 0,
                    n >= 0,
            ;
            assert(n / g * g <= q * g <= n / g * g + g) by (nonlinear_arith)
                requires
                    q == n / g || q == n / g + 1,
                    g > 0,
            ;
        }
        q * grain
    }
}

/// A quotient is rounded to the nearest integer: twice the difference is at most the divisor.
pub proof fn nearest_is_near(n: nat, d: nat)
    requires
        d > 0,
    ensures
        2 * n - d <= 2 * (d * nearest_even(n, d)) <= 2 * n + d,
        2 * (d * nearest_even(n, d)) == 2 * n - d || 2 * (d * nearest_even(n, d)) == 2 * n + d
            ==> nearest_even(n, d) % 2 == 0,
{
    let (a, b) = (n as int, d as int);
    let q = a / b;
    let r = a % b;
    assert(a == b * q + r && 0 <= r < b) by (nonlinear_arith)
        requires
            b > 0,
            q == a / b,
            r == a % b,
    ;
    assert(b * (q + 1) == b * q + b) by (nonlinear_arith);
}

/// Rounding to so many binary digits is exact below the limit and changes a number by at most half
/// a unit of its last digit above.
pub proof fn rounding_is_exact_below_the_limit(n: u64, top: u64, r: u128)
    requires
        top >= 4,
        call_ensures(round_to_bits, (n, top), r),
    ensures
        n < top ==> r == n,
        n >= top ==> exists|grain: nat|
            grain > 0 && 2 * n - grain <= 2 * r <= 2 * n + grain && r == #[trigger] nearest_even(
                n as nat,
                grain,
            ) * grain,
{
    if n >= top {
        let grain = binary_unit(n as nat, top as nat) / (top / 2) as nat;
        unit_is_at_least(n as nat, top as nat);
        let (u, h) = (binary_unit(n as nat, top as nat) as int, (top / 2) as int);
        assert(u / h >= 1) by (nonlinear_arith)
            requires
                u >= h,
                h > 0,
        ;
        nearest_is_near(n as nat, grain);
        let q = nearest_even(n as nat, grain);
        assert(q * grain == grain * q) by (nonlinear_arith);
        assert(r == q * grain);
    }
}

proof fn unit_is_at_least(v: nat, unit: nat)
    requires
        unit <= v,
    ensures
        binary_unit(v, unit) >= unit,
    decreases v - unit,
{
    if unit > 0 && v >= 2 * unit {
        unit_is_at_least(v, 2 * unit);
    }
}

/// The unit that is found is at most the number, and more than half of it.
pub proof fn unit_is_close(v: nat, unit: nat)
    requires
        0 < unit <= v,
    ensures
        unit <= binary_unit(v, unit) <= v < 2 * binary_unit(v, unit),
    decreases v - unit,
{
    if v >= 2 * unit {
        unit_is_close(v, 2 * unit);
    }
}

} // verus!
