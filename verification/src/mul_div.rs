use vstd::prelude::*;
use crate::error::VaultError;

verus! {

/// Rounding discipline for `mul_div`: truncate, or round any nonzero
/// remainder away from zero.
#[derive(Clone, Copy, PartialEq, Eq, Debug)]
pub enum Rounding {
    Down,
    Up,
}

/// `n / d` rounded up: one more than the truncated quotient when the
/// remainder is nonzero.
pub open spec fn div_up(n: int, d: int) -> int {
    if n % d == 0 {
        n / d
    } else {
        n / d + 1
    }
}

/// `n / d` under the given rounding mode.
pub open spec fn rounded_div(n: int, d: int, rounding: Rounding) -> int {
    match rounding {
        Rounding::Down => n / d,
        Rounding::Up => div_up(n, d),
    }
}

/// The floor quotient times the divisor never exceeds the dividend.
pub proof fn lemma_div_mul_le(x: int, d: int)
    requires
        d > 0,
    ensures
        (x / d) * d <= x,
{
    vstd::arithmetic::div_mod::lemma_fundamental_div_mod(x, d);
    vstd::arithmetic::div_mod::lemma_mod_bound(x, d);
    vstd::arithmetic::mul::lemma_mul_is_commutative(x / d, d);
}

/// Rounding up is monotone in the dividend.
pub proof fn lemma_div_up_le(y: int, x: int, d: int)
    requires
        0 <= y <= x,
        d > 0,
    ensures
        div_up(y, d) <= div_up(x, d),
{
    vstd::arithmetic::div_mod::lemma_div_is_ordered(y, x, d);
    vstd::arithmetic::div_mod::lemma_fundamental_div_mod(x, d);
    vstd::arithmetic::div_mod::lemma_fundamental_div_mod(y, d);
    vstd::arithmetic::div_mod::lemma_mod_bound(x, d);
    vstd::arithmetic::div_mod::lemma_mod_bound(y, d);
    if y % d != 0 && y / d == x / d {
        assert(x % d - y % d == x - y) by {
            vstd::arithmetic::mul::lemma_mul_is_commutative(x / d, d);
            vstd::arithmetic::mul::lemma_mul_is_commutative(y / d, d);
        }
    }
}

/// The quotient rounded up, times the divisor, covers the dividend and
/// overshoots it by less than the divisor.
pub proof fn lemma_div_up_bounds(v: int, d: int)
    requires
        v >= 0,
        d > 0,
    ensures
        div_up(v, d) * d >= v,
        div_up(v, d) * d <= v + d - 1,
{
    vstd::arithmetic::div_mod::lemma_fundamental_div_mod(v, d);
    vstd::arithmetic::div_mod::lemma_mod_bound(v, d);
    vstd::arithmetic::mul::lemma_mul_is_commutative(v / d, d);
    if v % d != 0 {
        assert((v / d + 1) * d == (v / d) * d + d) by {
            vstd::arithmetic::mul::lemma_mul_is_distributive_add_other_way(d, v / d, 1);
        }
    }
}

/// A product of the divisor divides exactly: the quotient is the other
/// factor and nothing rounds.
pub proof fn lemma_mul_div_exact(a: int, d: int)
    requires
        d > 0,
    ensures
        (a * d) / d == a,
        (a * d) % d == 0,
        div_up(a * d, d) == a,
{
    vstd::arithmetic::div_mod::lemma_div_multiples_vanish(a, d);
    vstd::arithmetic::div_mod::lemma_mod_multiples_basic(a, d);
    vstd::arithmetic::mul::lemma_mul_is_commutative(a, d);
}

/// Computes `x * y / denominator` with the given rounding mode.
///
/// The multiplication is checked: a product beyond the 128-bit range is a
/// hard `ArithmeticOverflow` failure, never a silent wrap.
pub fn mul_div(x: u128, y: u128, denominator: u128, rounding: Rounding) -> (r: Result<
    u128,
    VaultError,
>)
    requires
        denominator > 0,
    ensures
        r is Ok <==> x * y <= u128::MAX,
        r is Ok ==> r->Ok_0 == rounded_div(x * y, denominator as int, rounding),
        r is Err ==> r->Err_0 == VaultError::ArithmeticOverflow,
{
    match x.checked_mul(y) {
        None => Err(VaultError::ArithmeticOverflow),
        Some(numerator) => {
            let quotient = numerator / denominator;
            let remainder = numerator % denominator;
            match rounding {
                Rounding::Down => Ok(quotient),
                Rounding::Up => {
                    if remainder > 0 {
                        proof {
                            assert(quotient < u128::MAX) by {
                                vstd::arithmetic::div_mod::lemma_fundamental_div_mod(
                                    numerator as int,
                                    denominator as int,
                                );
                                assert(denominator * quotient >= quotient) by (nonlinear_arith)
                                    requires
                                        denominator >= 1,
                                        quotient >= 0,
                                ;
                            }
                        }
                        Ok(quotient + 1)
                    } else {
                        Ok(quotient)
                    }
                },
            }
        },
    }
}

} // verus!
