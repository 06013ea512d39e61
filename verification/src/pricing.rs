//! Price computation: a tier's base price, optionally reduced by a coupon's
//! percentage discount with integer truncation. A coupon code that does not
//! resolve prices the purchase at the full base price; that fallback is
//! deliberate, not an error.

use crate::coupons::{spec_lookup, CouponEntry};
use vstd::arithmetic::div_mod::{
    lemma_div_is_ordered, lemma_fundamental_div_mod, lemma_hoist_over_denominator,
};
use vstd::arithmetic::mul::{lemma_mul_inequality, lemma_mul_is_commutative};
use vstd::prelude::*;

verus! {

/// The base price after a percentage discount: `base * (100 - discount) / 100`,
/// truncating.
pub open spec fn spec_discounted(base: u128, discount: u32) -> int
    recommends
        discount <= 100,
{
    (base as int) * (100 - discount as int) / 100
}

/// The amount due for a tier with base price `base` when `code` is supplied:
/// the discounted price when the code resolves in the catalog, and the full
/// base price otherwise.
pub open spec fn spec_price_for(
    catalog: Seq<CouponEntry>,
    base: u128,
    code: Option<Seq<char>>,
) -> int {
    match code {
        Some(c) => match spec_lookup(catalog, c) {
            Some(discount) => spec_discounted(base, discount),
            None => base as int,
        },
        None => base as int,
    }
}

/// Applies a percentage discount to a base price, truncating. The result
/// never exceeds the base price, for any base price representable at all.
pub fn discounted_price(base: u128, discount: u32) -> (r: u128)
    requires
        discount <= 100,
    ensures
        r == spec_discounted(base, discount),
        r <= base,
{
    let factor: u128 = (100 - discount) as u128;
    let q: u128 = base / 100;
    let rem: u128 = base % 100;
    proof {
        let b = base as int;
        let f = factor as int;
        let qi = q as int;
        let ri = rem as int;
        lemma_fundamental_div_mod(b, 100);
        assert(b == 100 * qi + ri);
        lemma_mul_inequality(f, 100, qi);
        lemma_mul_is_commutative(f, qi);
        lemma_mul_is_commutative(100, qi);
        assert(qi * f <= qi * 100);
        assert(qi * 100 <= b);
        assert(ri * f <= 9900) by (nonlinear_arith)
            requires
                0 <= ri < 100,
                0 <= f <= 100,
        ;
        lemma_mul_inequality(f, 100, ri);
        lemma_mul_is_commutative(f, ri);
        lemma_mul_is_commutative(100, ri);
        assert(ri * f <= ri * 100);
        lemma_div_is_ordered(ri * f, ri * 100, 100);
        assert((ri * 100) / 100 == ri) by {
            vstd::arithmetic::div_mod::lemma_div_by_multiple(ri, 100);
        }
        assert((ri * f) / 100 <= ri);
        lemma_hoist_over_denominator(ri * f, qi * f, 100);
        assert((ri * f) / 100 + qi * f == (ri * f + (qi * f) * 100) / 100);
        assert(ri * f + (qi * f) * 100 == b * f) by (nonlinear_arith)
            requires
                b == 100 * qi + ri,
        ;
    }
    q * factor + rem * factor / 100
}

/// Coupon discount is monotonic: for a fixed base price, a higher discount
/// percent never yields a higher final price.
pub proof fn lemma_discount_monotonic(base: u128, d1: u32, d2: u32)
    requires
        d1 <= d2 <= 100,
    ensures
        spec_discounted(base, d2) <= spec_discounted(base, d1),
{
    lemma_mul_inequality(100 - d2 as int, 100 - d1 as int, base as int);
    lemma_mul_is_commutative(100 - d2 as int, base as int);
    lemma_mul_is_commutative(100 - d1 as int, base as int);
    lemma_div_is_ordered(
        (base as int) * (100 - d2 as int),
        (base as int) * (100 - d1 as int),
        100,
    );
}

} // verus!
