//! Integer helpers for wrapping and reflecting indices.

use vstd::prelude::*;

verus! {

/// Mathematical value of the wrapping modulus: for a negative dividend the
/// result is taken from the top of the range, so it lies in `(0, m]`; for a
/// nonnegative dividend it is the plain remainder in `[0, m)`.
pub open spec fn spec_modulo(n: int, m: int) -> int {
    if n < 0 {
        m - ((-n) % m)
    } else {
        n % m
    }
}

/// Dividend halved with truncation toward zero, as `/ 2` behaves on machine
/// integers.
pub open spec fn spec_half_toward_zero(n: int) -> int {
    if n >= 0 {
        n / 2
    } else {
        -((-n) / 2)
    }
}

/// Mathematical value of the reflecting modulus.
pub open spec fn spec_reflected_modulo(n: int, m: int) -> int {
    let w = spec_modulo(spec_half_toward_zero(n), m);
    if w >= 1 {
        m - 2 * (w - 1)
    } else {
        m - 2 * (1 - w)
    }
}

/// Modulus operation. Wraps a number.
///
/// `n` is the dividend, `m` the divisor.
pub fn modulo(n: i32, m: i32) -> (r: i32)
    requires
        m > 0,
        n > i32::MIN,
    ensures
        r == spec_modulo(n as int, m as int),
        0 <= r <= m,
{
    if n < 0 {
        m - ((((-n) as u32) % (m as u32)) as i32)
    } else {
        ((n as u32) % (m as u32)) as i32
    }
}

/// Reflected modulus operation. Instead of wrapping, it reflects.
///
/// `n` is the dividend, `m` the divisor.
pub fn reflected_modulo(n: i32, m: i32) -> (r: i32)
    requires
        0 < m <= 0x4000_0000,
        n > i32::MIN,
    ensures
        r == spec_reflected_modulo(n as int, m as int),
{
    let half: i32 = if n >= 0 {
        ((n as u32) / 2) as i32
    } else {
        -((((-n) as u32) / 2) as i32)
    };
    let w: i32 = modulo(half, m);
    let d: i32 = if w >= 1 {
        w - 1
    } else {
        1 - w
    };
    m - 2 * d
}

} // verus!
