//! A ticket-inventory and purchase-settlement engine.
//!
//! Tickets are pre-loaded into per-tier pools, each addressed by a dense
//! integer key. A purchase call validates eligibility, allocates the next
//! ticket, computes the price (optionally discounted by a coupon), updates
//! the sale counter and the buyer ledger, and returns exactly one outbound
//! payment instruction together with an audit event record. A rejected call
//! leaves the state exactly as it was.
//!
//! The hosting environment serializes calls, knows the caller's identity and
//! the payment attached to the call, and executes the returned transfer
//! instruction after the call commits; this library receives those as plain
//! values and never performs the outward effects itself.

pub mod coupons;
pub mod event;
pub mod ledger;
pub mod pool;
pub mod pricing;
pub mod settlement;

pub use crate::event::{EventLog, EventLogVariant, PurchaseTicket};

use crate::coupons::{catalog_wf, spec_lookup, CouponCatalog, CouponEntry};
use crate::ledger::{spec_links_after, spec_links_lookup, BuyerLedger, LinkEntry};
use crate::pool::{spec_appended, spec_get, spec_listing, Slot, TicketPool};
use crate::pricing::{discounted_price, spec_price_for};
use crate::settlement::{purchase_ok, purchase_step, PurchaseRequest, TierState};
use vstd::prelude::*;
use vstd::string::StringExecFns;

verus! {

/// Why a call was rejected. Every rejection leaves the contract state
/// untouched.
#[derive(Clone, Copy, Debug, PartialEq, Eq, Structural)]
pub enum Error {
    /// The caller is not the registered owner of the contract.
    NotOwner,
    /// The tier's sale counter has reached its sale cap.
    CapReached,
    /// The caller has already purchased on a single-purchase tier.
    AlreadyPurchased,
    /// The ticket at the tier's next allocation key is absent.
    TicketUnavailable,
    /// The attached payment is below the computed price.
    InsufficientPayment,
}

/// The sale cap of the vip tier.
pub const VIP_SALE_CAP: u64 = 2000;

/// The sale cap of the premium tier.
pub const PREMIUM_SALE_CAP: u64 = 1000;

/// The destination of the single settlement instruction a successful
/// purchase issues: a zero price settles to the buyer with a zero-value
/// instruction, an overpayment refunds the surplus to the buyer, and an
/// exact payment forwards the full price to the seller.
pub open spec fn spec_settlement_dest(
    owner: Seq<char>,
    buyer: Seq<char>,
    price: int,
    attached: u128,
) -> Seq<char> {
    if price == 0 {
        buyer
    } else if attached > price {
        buyer
    } else {
        owner
    }
}

/// The amount of the single settlement instruction.
pub open spec fn spec_settlement_amount(price: int, attached: u128) -> int {
    if price == 0 {
        0
    } else if attached > price {
        attached - price
    } else {
        price
    }
}

/// What concludes a successful purchase: the audit record to emit and the
/// one payment-reconciliation instruction to issue.
pub struct Settlement {
    pub event: EventLog,
    pub transfer_to: String,
    pub transfer_amount: u128,
}

/// The full state of the engine: one ticket pool, sale counter and price per
/// tier, the coupon catalog, and the buyer ledger.
pub struct Contract {
    pub owner_id: String,
    pub tickets_standard: TicketPool,
    pub tickets_vip: TicketPool,
    pub tickets_premium: TicketPool,
    pub coupons: CouponCatalog,
    pub vip_price: u128,
    pub premium_price: u128,
    pub ticket_standard_saled: u64,
    pub ticket_vip_saled: u64,
    pub ticket_premium_saled: u64,
    pub buyers: BuyerLedger,
}

impl Contract {
    /// The standard tier's pool slots.
    pub open spec fn spec_standard_pool(&self) -> Seq<Slot> {
        self.tickets_standard@
    }

    /// The vip tier's pool slots.
    pub open spec fn spec_vip_pool(&self) -> Seq<Slot> {
        self.tickets_vip@
    }

    /// The premium tier's pool slots.
    pub open spec fn spec_premium_pool(&self) -> Seq<Slot> {
        self.tickets_premium@
    }

    /// The coupon catalog's entries.
    pub open spec fn spec_coupons(&self) -> Seq<CouponEntry> {
        self.coupons@
    }

    /// The participants marked as having purchased on a single-purchase tier.
    pub open spec fn spec_buyers(&self) -> Seq<Seq<char>> {
        self.buyers.purchased_view()
    }

    /// The per-participant issued ticket payloads.
    pub open spec fn spec_links(&self) -> Seq<LinkEntry> {
        self.buyers.links_view()
    }

    /// Well-formedness: the coupon catalog's invariant holds, each sale
    /// counter is within its tier's cap, and each pool's key space fits the
    /// key type.
    pub open spec fn wf(&self) -> bool {
        &&& catalog_wf(self.spec_coupons())
        &&& self.ticket_vip_saled <= VIP_SALE_CAP
        &&& self.ticket_premium_saled <= PREMIUM_SALE_CAP
        &&& self.spec_standard_pool().len() <= u64::MAX
        &&& self.spec_vip_pool().len() <= u64::MAX
        &&& self.spec_premium_pool().len() <= u64::MAX
    }

    /// A fresh engine owned by `owner_id`: empty pools, empty catalog, empty
    /// ledger, zero prices and zero counters.
    pub fn new(owner_id: String) -> (r: Contract)
        ensures
            r.wf(),
            r.owner_id@ == owner_id@,
            r.spec_standard_pool() =~= Seq::<Slot>::empty(),
            r.spec_vip_pool() =~= Seq::<Slot>::empty(),
            r.spec_premium_pool() =~= Seq::<Slot>::empty(),
            r.spec_coupons() =~= Seq::<CouponEntry>::empty(),
            r.spec_buyers() =~= Seq::<Seq<char>>::empty(),
            r.spec_links() =~= Seq::<LinkEntry>::empty(),
            r.vip_price == 0,
            r.premium_price == 0,
            r.ticket_standard_saled == 0,
            r.ticket_vip_saled == 0,
            r.ticket_premium_saled == 0,
    {
        Contract {
            owner_id,
            tickets_standard: TicketPool::new(),
            tickets_vip: TicketPool::new(),
            tickets_premium: TicketPool::new(),
            coupons: CouponCatalog::new(),
            vip_price: 0,
            premium_price: 0,
            ticket_standard_saled: 0,
            ticket_vip_saled: 0,
            ticket_premium_saled: 0,
            buyers: BuyerLedger::new(),
        }
    }

    /// The authorization guard every administrative entry point runs first:
    /// only the registered owner may proceed.
    fn require_owner(&self, caller: &String) -> (r: Result<(), Error>)
        ensures
            r is Ok <==> caller@ == self.owner_id@,
            r is Err ==> r == Err::<(), Error>(Error::NotOwner),
    {
        if *caller == self.owner_id {
            Ok(())
        } else {
            Err(Error::NotOwner)
        }
    }

    /// Appends each of `ticket_links` to the standard tier's pool, in order,
    /// each under the next key. Owner only.
    pub fn add_tickets_standard(&mut self, caller: String, ticket_links: Vec<String>) -> (r:
        Result<(), Error>)
        requires
            old(self).wf(),
            old(self).spec_standard_pool().len() + ticket_links@.len() <= u64::MAX,
        ensures
            final(self).wf(),
            r is Err ==> r == Err::<(), Error>(Error::NotOwner) && *final(self) == *old(self),
            r is Ok <==> caller@ == old(self).owner_id@,
            r is Ok ==> ({
                &&& final(self).spec_standard_pool() =~= spec_appended(
                    old(self).spec_standard_pool(),
                    ticket_links.deep_view(),
                )
                &&& final(self).spec_vip_pool() == old(self).spec_vip_pool()
                &&& final(self).spec_premium_pool() == old(self).spec_premium_pool()
                &&& final(self).spec_coupons() == old(self).spec_coupons()
                &&& final(self).spec_buyers() == old(self).spec_buyers()
                &&& final(self).spec_links() == old(self).spec_links()
                &&& final(self).owner_id == old(self).owner_id
                &&& final(self).vip_price == old(self).vip_price
                &&& final(self).premium_price == old(self).premium_price
                &&& final(self).ticket_standard_saled == old(self).ticket_standard_saled
                &&& final(self).ticket_vip_saled == old(self).ticket_vip_saled
                &&& final(self).ticket_premium_saled == old(self).ticket_premium_saled
            }),
    {
        self.require_owner(&caller)?;
        let n = ticket_links.len();
        for i in 0..n
            invariant
                n == ticket_links@.len(),
                self.tickets_standard@ =~= spec_appended(
                    old(self).spec_standard_pool(),
                    ticket_links.deep_view().take(i as int),
                ),
                old(self).spec_standard_pool().len() + n <= u64::MAX,
                *self == (Contract { tickets_standard: self.tickets_standard, ..*old(self) }),
        {
            proof {
                assert(ticket_links.deep_view().take(i + 1) =~= ticket_links.deep_view().take(
                    i as int,
                ).push(ticket_links@[i as int]@));
            }
            self.tickets_standard.append(ticket_links[i].clone());
            proof {
                assert(self.tickets_standard@ =~= spec_appended(
                    old(self).spec_standard_pool(),
                    ticket_links.deep_view().take(i + 1),
                ));
            }
        }
        proof {
            assert(ticket_links.deep_view().take(n as int) =~= ticket_links.deep_view());
        }
        Ok(())
    }

    /// Every `(key, payload)` pair still present in the standard tier's pool.
    /// Owner only.
    pub fn get_all_tickets_standard(&self, caller: String) -> (r: Result<Vec<(u64, String)>, Error>)
        requires
            self.wf(),
        ensures
            r is Ok <==> caller@ == self.owner_id@,
            r matches Ok(v) ==> v.deep_view() =~= spec_listing(self.spec_standard_pool()),
            r is Err ==> r == Err::<Vec<(u64, String)>, Error>(Error::NotOwner),
    {
        self.require_owner(&caller)?;
        Ok(self.tickets_standard.list_all())
    }

    /// Appends each of `ticket_links` to the vip tier's pool, in order, each
    /// under the next key. Owner only.
    pub fn add_tickets_vip(&mut self, caller: String, ticket_links: Vec<String>) -> (r: Result<
        (),
        Error,
    >)
        requires
            old(self).wf(),
            old(self).spec_vip_pool().len() + ticket_links@.len() <= u64::MAX,
        ensures
            final(self).wf(),
            r is Err ==> r == Err::<(), Error>(Error::NotOwner) && *final(self) == *old(self),
            r is Ok <==> caller@ == old(self).owner_id@,
            r is Ok ==> ({
                &&& final(self).spec_vip_pool() =~= spec_appended(
                    old(self).spec_vip_pool(),
                    ticket_links.deep_view(),
                )
                &&& final(self).spec_standard_pool() == old(self).spec_standard_pool()
                &&& final(self).spec_premium_pool() == old(self).spec_premium_pool()
                &&& final(self).spec_coupons() == old(self).spec_coupons()
                &&& final(self).spec_buyers() == old(self).spec_buyers()
                &&& final(self).spec_links() == old(self).spec_links()
                &&& final(self).owner_id == old(self).owner_id
                &&& final(self).vip_price == old(self).vip_price
                &&& final(self).premium_price == old(self).premium_price
                &&& final(self).ticket_standard_saled == old(self).ticket_standard_saled
                &&& final(self).ticket_vip_saled == old(self).ticket_vip_saled
                &&& final(self).ticket_premium_saled == old(self).ticket_premium_saled
            }),
    {
        self.require_owner(&caller)?;
        let n = ticket_links.len();
        for i in 0..n
            invariant
                n == ticket_links@.len(),
                self.tickets_vip@ =~= spec_appended(
                    old(self).spec_vip_pool(),
                    ticket_links.deep_view().take(i as int),
                ),
                old(self).spec_vip_pool().len() + n <= u64::MAX,
                *self == (Contract { tickets_vip: self.tickets_vip, ..*old(self) }),
        {
            proof {
                assert(ticket_links.deep_view().take(i + 1) =~= ticket_links.deep_view().take(
                    i as int,
                ).push(ticket_links@[i as int]@));
            }
            self.tickets_vip.append(ticket_links[i].clone());
            proof {
                assert(self.tickets_vip@ =~= spec_appended(
                    old(self).spec_vip_pool(),
                    ticket_links.deep_view().take(i + 1),
                ));
            }
        }
        proof {
            assert(ticket_links.deep_view().take(n as int) =~= ticket_links.deep_view());
        }
        Ok(())
    }

    /// The number of keys ever assigned in the vip pool. Owner only.
    pub fn total_vip_tickets(&self, caller: String) -> (r: Result<u64, Error>)
        requires
            self.wf(),
        ensures
            r is Ok <==> caller@ == self.owner_id@,
            r matches Ok(n) ==> n == self.spec_vip_pool().len(),
            r is Err ==> r == Err::<u64, Error>(Error::NotOwner),
    {
        self.require_owner(&caller)?;
        Ok(self.tickets_vip.len())
    }

    /// Every `(key, payload)` pair still present in the vip tier's pool.
    /// Owner only.
    pub fn get_all_tickets_vip(&self, caller: String) -> (r: Result<Vec<(u64, String)>, Error>)
        requires
            self.wf(),
        ensures
            r is Ok <==> caller@ == self.owner_id@,
            r matches Ok(v) ==> v.deep_view() =~= spec_listing(self.spec_vip_pool()),
            r is Err ==> r == Err::<Vec<(u64, String)>, Error>(Error::NotOwner),
    {
        self.require_owner(&caller)?;
        Ok(self.tickets_vip.list_all())
    }

    /// Appends each of `ticket_links` to the premium tier's pool, in order,
    /// each under the next key. Owner only.
    pub fn add_tickets_premium(&mut self, caller: String, ticket_links: Vec<String>) -> (r: Result<
        (),
        Error,
    >)
        requires
            old(self).wf(),
            old(self).spec_premium_pool().len() + ticket_links@.len() <= u64::MAX,
        ensures
            final(self).wf(),
            r is Err ==> r == Err::<(), Error>(Error::NotOwner) && *final(self) == *old(self),
            r is Ok <==> caller@ == old(self).owner_id@,
            r is Ok ==> ({
                &&& final(self).spec_premium_pool() =~= spec_appended(
                    old(self).spec_premium_pool(),
                    ticket_links.deep_view(),
                )
                &&& final(self).spec_standard_pool() == old(self).spec_standard_pool()
                &&& final(self).spec_vip_pool() == old(self).spec_vip_pool()
                &&& final(self).spec_coupons() == old(self).spec_coupons()
                &&& final(self).spec_buyers() == old(self).spec_buyers()
                &&& final(self).spec_links() == old(self).spec_links()
                &&& final(self).owner_id == old(self).owner_id
                &&& final(self).vip_price == old(self).vip_price
                &&& final(self).premium_price == old(self).premium_price
                &&& final(self).ticket_standard_saled == old(self).ticket_standard_saled
                &&& final(self).ticket_vip_saled == old(self).ticket_vip_saled
                &&& final(self).ticket_premium_saled == old(self).ticket_premium_saled
            }),
    {
        self.require_owner(&caller)?;
        let n = ticket_links.len();
        for i in 0..n
            invariant
                n == ticket_links@.len(),
                self.tickets_premium@ =~= spec_appended(
                    old(self).spec_premium_pool(),
                    ticket_links.deep_view().take(i as int),
                ),
                old(self).spec_premium_pool().len() + n <= u64::MAX,
                *self == (Contract { tickets_premium: self.tickets_premium, ..*old(self) }),
        {
            proof {
                assert(ticket_links.deep_view().take(i + 1) =~= ticket_links.deep_view().take(
                    i as int,
                ).push(ticket_links@[i as int]@));
            }
            self.tickets_premium.append(ticket_links[i].clone());
            proof {
                assert(self.tickets_premium@ =~= spec_appended(
                    old(self).spec_premium_pool(),
                    ticket_links.deep_view().take(i + 1),
                ));
            }
        }
        proof {
            assert(ticket_links.deep_view().take(n as int) =~= ticket_links.deep_view());
        }
        Ok(())
    }

    /// Every `(key, payload)` pair still present in the premium tier's pool.
    /// Owner only.
    pub fn get_all_tickets_premium(&self, caller: String) -> (r: Result<Vec<(u64, String)>, Error>)
        requires
            self.wf(),
        ensures
            r is Ok <==> caller@ == self.owner_id@,
            r matches Ok(v) ==> v.deep_view() =~= spec_listing(self.spec_premium_pool()),
            r is Err ==> r == Err::<Vec<(u64, String)>, Error>(Error::NotOwner),
    {
        self.require_owner(&caller)?;
        Ok(self.tickets_premium.list_all())
    }

    /// Inserts or replaces a coupon. Owner only.
    pub fn add_coupon(&mut self, caller: String, code: String, discount: u32) -> (r: Result<
        (),
        Error,
    >)
        requires
            old(self).wf(),
            discount <= 100,
        ensures
            final(self).wf(),
            r is Err ==> r == Err::<(), Error>(Error::NotOwner) && *final(self) == *old(self),
            r is Ok <==> caller@ == old(self).owner_id@,
            r is Ok ==> ({
                &&& spec_lookup(final(self).spec_coupons(), code@) == Some(discount)
                &&& (forall|c: Seq<char>|
                    c != code@ ==> spec_lookup(final(self).spec_coupons(), c) == spec_lookup(
                        old(self).spec_coupons(),
                        c,
                    ))
                &&& final(self).spec_standard_pool() == old(self).spec_standard_pool()
                &&& final(self).spec_vip_pool() == old(self).spec_vip_pool()
                &&& final(self).spec_premium_pool() == old(self).spec_premium_pool()
                &&& final(self).spec_buyers() == old(self).spec_buyers()
                &&& final(self).spec_links() == old(self).spec_links()
                &&& final(self).owner_id == old(self).owner_id
                &&& final(self).vip_price == old(self).vip_price
                &&& final(self).premium_price == old(self).premium_price
                &&& final(self).ticket_standard_saled == old(self).ticket_standard_saled
                &&& final(self).ticket_vip_saled == old(self).ticket_vip_saled
                &&& final(self).ticket_premium_saled == old(self).ticket_premium_saled
            }),
    {
        self.require_owner(&caller)?;
        self.coupons.set(code, discount);
        Ok(())
    }

    /// The discount recorded under `coupon_code`, or `None` when the code
    /// does not resolve. Owner only.
    pub fn get_coupon(&self, caller: String, coupon_code: String) -> (r: Result<Option<u32>, Error>)
        requires
            self.wf(),
        ensures
            r is Ok <==> caller@ == self.owner_id@,
            r matches Ok(d) ==> d == spec_lookup(self.spec_coupons(), coupon_code@),
            r is Err ==> r == Err::<Option<u32>, Error>(Error::NotOwner),
    {
        self.require_owner(&caller)?;
        Ok(self.coupons.get(&coupon_code))
    }

    /// Every `(code, discount)` entry of the catalog. Owner only.
    pub fn get_all_coupons(&self, caller: String) -> (r: Result<Vec<(String, u32)>, Error>)
        requires
            self.wf(),
        ensures
            r is Ok <==> caller@ == self.owner_id@,
            r matches Ok(v) ==> v.deep_view() =~= self.spec_coupons(),
            r is Err ==> r == Err::<Vec<(String, u32)>, Error>(Error::NotOwner),
    {
        self.require_owner(&caller)?;
        Ok(self.coupons.list_all())
    }

    /// The amount due for a tier with base price `base` when `coupon_code`
    /// is supplied, per the pricing policy: an unresolved code falls back to
    /// the full base price.
    fn price_for(&self, base: u128, coupon_code: &Option<String>) -> (r: u128)
        requires
            catalog_wf(self.spec_coupons()),
        ensures
            r as int == spec_price_for(self.spec_coupons(), base, coupon_code.deep_view()),
            r <= base,
    {
        match coupon_code {
            Some(code) => match self.coupons.get(code) {
                Some(discount) => {
                    proof {
                        crate::coupons::lemma_lookup_bounded(self.spec_coupons(), code@);
                    }
                    discounted_price(base, discount)
                }
                None => base,
            },
            None => base,
        }
    }

    /// The slice of state vip purchases read and write, as the settlement
    /// engine's transition relation sees it.
    pub open spec fn vip_tier_state(&self) -> TierState {
        TierState {
            sold: self.ticket_vip_saled,
            cap: VIP_SALE_CAP,
            single_purchase: true,
            price: self.vip_price,
            pool: self.spec_vip_pool(),
            buyers: self.spec_buyers(),
            catalog: self.spec_coupons(),
        }
    }

    /// The slice of state premium purchases read and write, as the
    /// settlement engine's transition relation sees it.
    pub open spec fn premium_tier_state(&self) -> TierState {
        TierState {
            sold: self.ticket_premium_saled,
            cap: PREMIUM_SALE_CAP,
            single_purchase: false,
            price: self.premium_price,
            pool: self.spec_premium_pool(),
            buyers: self.spec_buyers(),
            catalog: self.spec_coupons(),
        }
    }

    /// The first check, in validation order, that rejects a vip purchase by
    /// `signer` with `attached` payment and optional coupon `code`, or `None`
    /// when the purchase goes through: the sale cap, then the single-purchase
    /// rule, then ticket availability at the next key, then sufficiency of
    /// the payment.
    pub open spec fn spec_vip_purchase_error(
        &self,
        signer: Seq<char>,
        attached: u128,
        code: Option<Seq<char>>,
    ) -> Option<Error> {
        if self.ticket_vip_saled >= VIP_SALE_CAP {
            Some(Error::CapReached)
        } else if self.spec_buyers().contains(signer) {
            Some(Error::AlreadyPurchased)
        } else if spec_get(self.spec_vip_pool(), self.ticket_vip_saled) is None {
            Some(Error::TicketUnavailable)
        } else if (attached as int) < spec_price_for(self.spec_coupons(), self.vip_price, code) {
            Some(Error::InsufficientPayment)
        } else {
            None
        }
    }

    /// The parts of the state a vip purchase never touches.
    pub open spec fn vip_purchase_frame(pre: Contract, post: Contract) -> bool {
        &&& post.owner_id == pre.owner_id
        &&& post.spec_standard_pool() == pre.spec_standard_pool()
        &&& post.spec_premium_pool() == pre.spec_premium_pool()
        &&& post.spec_coupons() == pre.spec_coupons()
        &&& post.vip_price == pre.vip_price
        &&& post.premium_price == pre.premium_price
        &&& post.ticket_standard_saled == pre.ticket_standard_saled
        &&& post.ticket_premium_saled == pre.ticket_premium_saled
    }

    /// One vip purchase: the caller buys the ticket at the tier's next
    /// allocation key, paying the tier price (discounted by a resolving
    /// coupon), with the attached payment reconciled by exactly one transfer
    /// instruction. The vip tier is single-purchase: a wallet buys at most
    /// once.
    pub fn purchase_vip_ticket(
        &mut self,
        signer: String,
        attached_deposit: u128,
        coupon_code: Option<String>,
    ) -> (r: Result<Settlement, Error>)
        requires
            old(self).wf(),
        ensures
            final(self).wf(),
            r is Ok <==> purchase_ok(
                old(self).vip_tier_state(),
                (PurchaseRequest {
                    signer: signer@,
                    attached: attached_deposit,
                    coupon: coupon_code.deep_view(),
                }),
            ),
            final(self).vip_tier_state() == purchase_step(
                old(self).vip_tier_state(),
                (PurchaseRequest {
                    signer: signer@,
                    attached: attached_deposit,
                    coupon: coupon_code.deep_view(),
                }),
            ),
            match r {
                Err(e) => {
                    &&& old(self).spec_vip_purchase_error(
                        signer@,
                        attached_deposit,
                        coupon_code.deep_view(),
                    ) == Some(e)
                    &&& *final(self) == *old(self)
                },
                Ok(s) => {
                    let key = old(self).ticket_vip_saled;
                    let price = spec_price_for(
                        old(self).spec_coupons(),
                        old(self).vip_price,
                        coupon_code.deep_view(),
                    );
                    &&& old(self).spec_vip_purchase_error(
                        signer@,
                        attached_deposit,
                        coupon_code.deep_view(),
                    ) is None
                    &&& spec_get(old(self).spec_vip_pool(), key) matches Some(link) && {
                        &&& final(self).ticket_vip_saled == key + 1
                        &&& final(self).spec_vip_pool() =~= old(self).spec_vip_pool().update(
                            key as int,
                            None,
                        )
                        &&& final(self).spec_buyers() =~= old(self).spec_buyers().push(signer@)
                        &&& spec_links_lookup(final(self).spec_links(), signer@) == Some(
                            spec_links_after(old(self).spec_links(), signer@, link),
                        )
                        &&& (forall|c: Seq<char>|
                            c != signer@ ==> spec_links_lookup(final(self).spec_links(), c)
                                == spec_links_lookup(old(self).spec_links(), c))
                        &&& Self::vip_purchase_frame(*old(self), *final(self))
                        &&& s.transfer_to@ == spec_settlement_dest(
                            old(self).owner_id@,
                            signer@,
                            price,
                            attached_deposit,
                        )
                        &&& s.transfer_amount as int == spec_settlement_amount(
                            price,
                            attached_deposit,
                        )
                        &&& s.event.standard@ == "1.0.0"@
                        &&& s.event.event matches EventLogVariant::Purchase(ts) && ts@.len() == 1
                            && ts@[0].owner_id@ == signer@ && ts@[0].ticket_link@ == link && ts@[0].price
                            as int == price && ts@[0].memo is None
                    }
                },
            },
    {
        if self.ticket_vip_saled >= VIP_SALE_CAP {
            return Err(Error::CapReached);
        }
        if self.buyers.has_purchased(&signer) {
            return Err(Error::AlreadyPurchased);
        }
        let key = self.ticket_vip_saled;
        let link = match self.tickets_vip.get(key) {
            Some(l) => l,
            None => {
                return Err(Error::TicketUnavailable);
            }
        };
        let price = self.price_for(self.vip_price, &coupon_code);
        if attached_deposit < price {
            return Err(Error::InsufficientPayment);
        }
        self.tickets_vip.remove(key);
        self.ticket_vip_saled = self.ticket_vip_saled + 1;
        self.buyers.mark_purchased(signer.clone());
        self.buyers.record_ticket(signer.clone(), link.clone());
        let event = EventLog {
            standard: String::from_str("1.0.0"),
            event: EventLogVariant::Purchase(
                vec![
                    PurchaseTicket {
                        owner_id: signer.clone(),
                        ticket_link: link,
                        price,
                        memo: None,
                    },
                ],
            ),
        };
        let (transfer_to, transfer_amount) = if price == 0 {
            (signer, 0u128)
        } else if attached_deposit > price {
            (signer, attached_deposit - price)
        } else {
            (self.owner_id.clone(), price)
        };
        Ok(Settlement { event, transfer_to, transfer_amount })
    }

    /// The first check, in validation order, that rejects a premium purchase,
    /// or `None` when the purchase goes through: the sale cap, then ticket
    /// availability at the next key, then sufficiency of the payment. The
    /// premium tier is multi-purchase, so no single-purchase rule applies.
    pub open spec fn spec_premium_purchase_error(
        &self,
        attached: u128,
        code: Option<Seq<char>>,
    ) -> Option<Error> {
        if self.ticket_premium_saled >= PREMIUM_SALE_CAP {
            Some(Error::CapReached)
        } else if spec_get(self.spec_premium_pool(), self.ticket_premium_saled) is None {
            Some(Error::TicketUnavailable)
        } else if (attached as int) < spec_price_for(
            self.spec_coupons(),
            self.premium_price,
            code,
        ) {
            Some(Error::InsufficientPayment)
        } else {
            None
        }
    }

    /// The parts of the state a premium purchase never touches. The premium
    /// tier is multi-purchase, so the purchased set is among them.
    pub open spec fn premium_purchase_frame(pre: Contract, post: Contract) -> bool {
        &&& post.owner_id == pre.owner_id
        &&& post.spec_standard_pool() == pre.spec_standard_pool()
        &&& post.spec_vip_pool() == pre.spec_vip_pool()
        &&& post.spec_coupons() == pre.spec_coupons()
        &&& post.spec_buyers() == pre.spec_buyers()
        &&& post.vip_price == pre.vip_price
        &&& post.premium_price == pre.premium_price
        &&& post.ticket_standard_saled == pre.ticket_standard_saled
        &&& post.ticket_vip_saled == pre.ticket_vip_saled
    }

    /// One premium purchase: as the vip purchase, but on the premium tier,
    /// which allows the same wallet to buy repeatedly.
    pub fn purchase_premium_ticket(
        &mut self,
        signer: String,
        attached_deposit: u128,
        coupon_code: Option<String>,
    ) -> (r: Result<Settlement, Error>)
        requires
            old(self).wf(),
        ensures
            final(self).wf(),
            r is Ok <==> purchase_ok(
                old(self).premium_tier_state(),
                (PurchaseRequest {
                    signer: signer@,
                    attached: attached_deposit,
                    coupon: coupon_code.deep_view(),
                }),
            ),
            final(self).premium_tier_state() == purchase_step(
                old(self).premium_tier_state(),
                (PurchaseRequest {
                    signer: signer@,
                    attached: attached_deposit,
                    coupon: coupon_code.deep_view(),
                }),
            ),
            match r {
                Err(e) => {
                    &&& old(self).spec_premium_purchase_error(
                        attached_deposit,
                        coupon_code.deep_view(),
                    ) == Some(e)
                    &&& *final(self) == *old(self)
                },
                Ok(s) => {
                    let key = old(self).ticket_premium_saled;
                    let price = spec_price_for(
                        old(self).spec_coupons(),
                        old(self).premium_price,
                        coupon_code.deep_view(),
                    );
                    &&& old(self).spec_premium_purchase_error(
                        attached_deposit,
                        coupon_code.deep_view(),
                    ) is None
                    &&& spec_get(old(self).spec_premium_pool(), key) matches Some(link) && {
                        &&& final(self).ticket_premium_saled == key + 1
                        &&& final(self).spec_premium_pool() =~= old(
                            self,
                        ).spec_premium_pool().update(key as int, None)
                        &&& spec_links_lookup(final(self).spec_links(), signer@) == Some(
                            spec_links_after(old(self).spec_links(), signer@, link),
                        )
                        &&& (forall|c: Seq<char>|
                            c != signer@ ==> spec_links_lookup(final(self).spec_links(), c)
                                == spec_links_lookup(old(self).spec_links(), c))
                        &&& Self::premium_purchase_frame(*old(self), *final(self))
                        &&& s.transfer_to@ == spec_settlement_dest(
                            old(self).owner_id@,
                            signer@,
                            price,
                            attached_deposit,
                        )
                        &&& s.transfer_amount as int == spec_settlement_amount(
                            price,
                            attached_deposit,
                        )
                        &&& s.event.standard@ == "1.0.0"@
                        &&& s.event.event matches EventLogVariant::Purchase(ts) && ts@.len() == 1
                            && ts@[0].owner_id@ == signer@ && ts@[0].ticket_link@ == link && ts@[0].price
                            as int == price && ts@[0].memo is None
                    }
                },
            },
    {
        if self.ticket_premium_saled >= PREMIUM_SALE_CAP {
            return Err(Error::CapReached);
        }
        let key = self.ticket_premium_saled;
        let link = match self.tickets_premium.get(key) {
            Some(l) => l,
            None => {
                return Err(Error::TicketUnavailable);
            }
        };
        let price = self.price_for(self.premium_price, &coupon_code);
        if attached_deposit < price {
            return Err(Error::InsufficientPayment);
        }
        self.tickets_premium.remove(key);
        self.ticket_premium_saled = self.ticket_premium_saled + 1;
        self.buyers.record_ticket(signer.clone(), link.clone());
        let event = EventLog {
            standard: String::from_str("1.0.0"),
            event: EventLogVariant::Purchase(
                vec![
                    PurchaseTicket {
                        owner_id: signer.clone(),
                        ticket_link: link,
                        price,
                        memo: None,
                    },
                ],
            ),
        };
        let (transfer_to, transfer_amount) = if price == 0 {
            (signer, 0u128)
        } else if attached_deposit > price {
            (signer, attached_deposit - price)
        } else {
            (self.owner_id.clone(), price)
        };
        Ok(Settlement { event, transfer_to, transfer_amount })
    }

    /// Sets the premium tier's base price to the natively-denominated price
    /// the owner derived, and reports the stored value. Owner only.
    pub fn ticket_premium_price(&mut self, caller: String, new_price: u128) -> (r: Result<
        u128,
        Error,
    >)
        requires
            old(self).wf(),
        ensures
            final(self).wf(),
            r is Err ==> r == Err::<u128, Error>(Error::NotOwner) && *final(self) == *old(self),
            r is Ok <==> caller@ == old(self).owner_id@,
            r is Ok ==> r == Ok::<u128, Error>(new_price) && *final(self) == (Contract {
                premium_price: new_price,
                ..*old(self)
            }),
    {
        self.require_owner(&caller)?;
        self.premium_price = new_price;
        Ok(new_price)
    }

    /// The premium tier's stored base price.
    pub fn get_premium_price(&self) -> (r: u128)
        ensures
            r == self.premium_price,
    {
        self.premium_price
    }

    /// Sets the vip tier's base price to the natively-denominated price the
    /// owner derived. Owner only.
    pub fn ticket_vip_price(&mut self, caller: String, new_price: u128) -> (r: Result<(), Error>)
        requires
            old(self).wf(),
        ensures
            final(self).wf(),
            r is Err ==> r == Err::<(), Error>(Error::NotOwner) && *final(self) == *old(self),
            r is Ok <==> caller@ == old(self).owner_id@,
            r is Ok ==> *final(self) == (Contract { vip_price: new_price, ..*old(self) }),
    {
        self.require_owner(&caller)?;
        self.vip_price = new_price;
        Ok(())
    }

    /// The vip tier's stored base price.
    pub fn get_vip_price(&self) -> (r: u128)
        ensures
            r == self.vip_price,
    {
        self.vip_price
    }

    /// The ticket payloads issued to `account_id`, or `None` for a
    /// participant that was never issued any.
    pub fn get_ticket_links_by_buyer(&self, account_id: String) -> (r: Option<Vec<String>>)
        ensures
            match r {
                Some(v) => spec_links_lookup(self.spec_links(), account_id@) == Some(v.deep_view()),
                None => spec_links_lookup(self.spec_links(), account_id@) is None,
            },
    {
        self.buyers.tickets_for(&account_id)
    }

    /// The standard tier's sale counter.
    pub fn count_standard(&self) -> (r: u64)
        ensures
            r == self.ticket_standard_saled,
    {
        self.ticket_standard_saled
    }

    /// The vip tier's sale counter.
    pub fn count_vipd(&self) -> (r: u64)
        ensures
            r == self.ticket_vip_saled,
    {
        self.ticket_vip_saled
    }

    /// The premium tier's sale counter.
    pub fn count_premium(&self) -> (r: u64)
        ensures
            r == self.ticket_premium_saled,
    {
        self.ticket_premium_saled
    }
}

} // verus!
