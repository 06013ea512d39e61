//! The settlement engine's transition relation, stated once over the slice
//! of state one tier's purchases read and write, together with the laws that
//! hold of any sequence of purchase calls: the sale counter grows by exactly
//! the number of successful calls and never passes the cap, and no two
//! successful calls allocate the same ticket key.

use crate::coupons::CouponEntry;
use crate::pool::{spec_get, Slot};
use crate::pricing::spec_price_for;
use vstd::prelude::*;

verus! {

/// One purchase request as the settlement engine sees it: the caller, the
/// payment escrowed with the call, and the coupon code supplied, if any.
pub struct PurchaseRequest {
    pub signer: Seq<char>,
    pub attached: u128,
    pub coupon: Option<Seq<char>>,
}

/// The slice of the contract state that one tier's purchases read and write.
pub struct TierState {
    /// The tier's sale counter.
    pub sold: u64,
    /// The tier's sale cap.
    pub cap: u64,
    /// Whether the tier allows each wallet to buy at most once.
    pub single_purchase: bool,
    /// The tier's base price.
    pub price: u128,
    /// The tier's pool slots.
    pub pool: Seq<Slot>,
    /// The participants that have purchased on a single-purchase tier.
    pub buyers: Seq<Seq<char>>,
    /// The coupon catalog.
    pub catalog: Seq<CouponEntry>,
}

/// Whether a purchase goes through: the sale counter is under the cap, the
/// caller has not bought before (on a single-purchase tier), the ticket at
/// the next allocation key is present, and the attached payment covers the
/// computed price.
pub open spec fn purchase_ok(s: TierState, req: PurchaseRequest) -> bool {
    &&& s.sold < s.cap
    &&& (s.single_purchase ==> !s.buyers.contains(req.signer))
    &&& spec_get(s.pool, s.sold) is Some
    &&& req.attached as int >= spec_price_for(s.catalog, s.price, req.coupon)
}

/// The state after one purchase call: a successful call removes the ticket
/// at the allocation key, steps the counter by exactly one and records the
/// buyer; a rejected call changes nothing.
pub open spec fn purchase_step(s: TierState, req: PurchaseRequest) -> TierState {
    if purchase_ok(s, req) {
        TierState {
            sold: (s.sold + 1) as u64,
            pool: s.pool.update(s.sold as int, None),
            buyers: if s.single_purchase {
                s.buyers.push(req.signer)
            } else {
                s.buyers
            },
            ..s
        }
    } else {
        s
    }
}

/// The state after a sequence of purchase calls, first request first.
pub open spec fn purchase_run(s: TierState, reqs: Seq<PurchaseRequest>) -> TierState
    decreases reqs.len(),
{
    if reqs.len() == 0 {
        s
    } else {
        purchase_run(purchase_step(s, reqs[0]), reqs.skip(1))
    }
}

/// How many calls of the sequence succeed.
pub open spec fn purchase_successes(s: TierState, reqs: Seq<PurchaseRequest>) -> nat
    decreases reqs.len(),
{
    if reqs.len() == 0 {
        0
    } else {
        (if purchase_ok(s, reqs[0]) {
            1nat
        } else {
            0nat
        }) + purchase_successes(purchase_step(s, reqs[0]), reqs.skip(1))
    }
}

/// The ticket keys the successful calls of the sequence allocate, in call
/// order.
pub open spec fn allocated_keys(s: TierState, reqs: Seq<PurchaseRequest>) -> Seq<u64>
    decreases reqs.len(),
{
    if reqs.len() == 0 {
        Seq::empty()
    } else if purchase_ok(s, reqs[0]) {
        seq![s.sold] + allocated_keys(purchase_step(s, reqs[0]), reqs.skip(1))
    } else {
        allocated_keys(s, reqs.skip(1))
    }
}

/// The sale counter after any sequence of purchase calls equals the counter
/// it started with plus the number of successful calls, and never exceeds
/// the cap.
pub proof fn lemma_sold_count(s: TierState, reqs: Seq<PurchaseRequest>)
    requires
        s.sold <= s.cap,
    ensures
        purchase_run(s, reqs).sold == s.sold + purchase_successes(s, reqs),
        purchase_run(s, reqs).sold <= s.cap,
    decreases reqs.len(),
{
    if reqs.len() > 0 {
        lemma_sold_count(purchase_step(s, reqs[0]), reqs.skip(1));
    }
}

/// A ticket key, once allocated, is never returned by a subsequent
/// allocation: over any sequence of purchase calls on one tier, the keys the
/// successful calls allocate are pairwise distinct (and none lies below the
/// starting counter).
pub proof fn lemma_no_double_issue(s: TierState, reqs: Seq<PurchaseRequest>)
    ensures
        forall|k: int|
            0 <= k < allocated_keys(s, reqs).len() ==> #[trigger] allocated_keys(s, reqs)[k]
                >= s.sold,
        forall|i: int, j: int|
            0 <= i < j < allocated_keys(s, reqs).len() ==> allocated_keys(s, reqs)[i]
                != allocated_keys(s, reqs)[j],
    decreases reqs.len(),
{
    if reqs.len() > 0 {
        let next = purchase_step(s, reqs[0]);
        lemma_no_double_issue(next, reqs.skip(1));
        if purchase_ok(s, reqs[0]) {
            let keys = allocated_keys(s, reqs);
            let rest = allocated_keys(next, reqs.skip(1));
            assert(next.sold == s.sold + 1);
            assert(keys[0] == s.sold);
            assert(forall|k: int| 0 <= k < rest.len() ==> keys[k + 1] == #[trigger] rest[k]);
            assert forall|k: int| 0 <= k < keys.len() implies #[trigger] keys[k] >= s.sold by {
                if k > 0 {
                    assert(keys[k] == rest[k - 1]);
                    assert(rest[k - 1] >= next.sold);
                }
            }
            assert forall|i: int, j: int|
                0 <= i < j < keys.len() implies keys[i] != keys[j] by {
                if i == 0 {
                    assert(keys[j] == rest[j - 1]);
                    assert(rest[j - 1] >= next.sold);
                } else {
                    assert(keys[i] == rest[i - 1]);
                    assert(keys[j] == rest[j - 1]);
                }
            }
        } else {
            assert(next == s);
            let keys = allocated_keys(s, reqs);
            let rest = allocated_keys(s, reqs.skip(1));
            assert(keys == rest);
            assert forall|k: int| 0 <= k < keys.len() implies #[trigger] keys[k] >= s.sold by {
                assert(rest[k] >= s.sold);
            }
            assert forall|i: int, j: int|
                0 <= i < j < keys.len() implies keys[i] != keys[j] by {
                assert(rest[i] != rest[j]);
            }
        }
    }
}

} // verus!
