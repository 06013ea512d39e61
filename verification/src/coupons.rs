//! The coupon catalog: a mapping from coupon code to a percentage discount,
//! mutated only through insert-or-replace. Codes are unique and every
//! discount lies in 0..=100.

use vstd::prelude::*;

verus! {

/// One catalog entry: the code's characters and its discount percent.
pub type CouponEntry = (Seq<char>, u32);

/// The discount recorded under `code`, or `None` when the code does not
/// resolve.
pub open spec fn spec_lookup(entries: Seq<CouponEntry>, code: Seq<char>) -> Option<u32>
    decreases entries.len(),
{
    if entries.len() == 0 {
        None
    } else if entries[0].0 == code {
        Some(entries[0].1)
    } else {
        spec_lookup(entries.skip(1), code)
    }
}

/// Catalog well-formedness: codes are unique and discounts never exceed 100.
pub open spec fn catalog_wf(entries: Seq<CouponEntry>) -> bool {
    &&& forall|i: int, j: int|
        0 <= i < j < entries.len() ==> entries[i].0 != entries[j].0
    &&& forall|i: int| 0 <= i < entries.len() ==> entries[i].1 <= 100
}

/// A code resolves exactly when some entry carries it.
proof fn lemma_lookup_absent(entries: Seq<CouponEntry>, code: Seq<char>)
    ensures
        (spec_lookup(entries, code) is None) <==> (forall|i: int|
            0 <= i < entries.len() ==> entries[i].0 != code),
    decreases entries.len(),
{
    if entries.len() > 0 {
        let rest = entries.skip(1);
        lemma_lookup_absent(rest, code);
        assert(forall|i: int| 0 <= i < rest.len() ==> rest[i] == entries[i + 1]);
        if entries[0].0 == code {
            assert(!(forall|i: int| 0 <= i < entries.len() ==> entries[i].0 != code));
        } else {
            assert(spec_lookup(entries, code) == spec_lookup(rest, code));
            if spec_lookup(rest, code) is None {
                assert forall|i: int| 0 <= i < entries.len() implies entries[i].0 != code by {
                    if i > 0 {
                        assert(rest[i - 1] == entries[i]);
                    }
                }
            } else {
                assert(exists|k: int| 0 <= k < rest.len() && rest[k].0 == code);
                let k = choose|k: int| 0 <= k < rest.len() && rest[k].0 == code;
                assert(entries[k + 1].0 == code);
            }
        }
    }
}

/// Replacing the discount at the first entry that carries its code rewrites
/// that code's lookup and no other.
proof fn lemma_lookup_set(entries: Seq<CouponEntry>, i: int, discount: u32)
    requires
        0 <= i < entries.len(),
        forall|j: int| 0 <= j < i ==> entries[j].0 != entries[i].0,
    ensures
        spec_lookup(entries.update(i, (entries[i].0, discount)), entries[i].0) == Some(discount),
        forall|c: Seq<char>|
            c != entries[i].0 ==> spec_lookup(entries.update(i, (entries[i].0, discount)), c)
                == spec_lookup(entries, c),
    decreases entries.len(),
{
    let upd = entries.update(i, (entries[i].0, discount));
    if i == 0 {
        assert(upd.skip(1) =~= entries.skip(1));
    } else {
        lemma_lookup_set(entries.skip(1), i - 1, discount);
        assert(entries.skip(1)[i - 1] == entries[i]);
        assert(upd.skip(1) =~= entries.skip(1).update(i - 1, (entries[i].0, discount)));
        assert(upd[0] == entries[0]);
        assert(upd[0].0 != entries[i].0);
        assert(spec_lookup(upd, entries[i].0) == spec_lookup(upd.skip(1), entries[i].0));
        assert forall|c: Seq<char>|
            c != entries[i].0 implies spec_lookup(upd, c) == spec_lookup(entries, c) by {
            if upd[0].0 != c {
                assert(spec_lookup(upd.skip(1), c) == spec_lookup(entries.skip(1), c));
            }
        }
    }
}

/// Appending an entry whose code is absent makes that code resolve to the
/// appended discount and leaves every other lookup unchanged.
proof fn lemma_lookup_push(entries: Seq<CouponEntry>, code: Seq<char>, discount: u32)
    requires
        forall|i: int| 0 <= i < entries.len() ==> entries[i].0 != code,
    ensures
        spec_lookup(entries.push((code, discount)), code) == Some(discount),
        forall|c: Seq<char>|
            c != code ==> spec_lookup(entries.push((code, discount)), c) == spec_lookup(
                entries,
                c,
            ),
    decreases entries.len(),
{
    let pushed = entries.push((code, discount));
    if entries.len() == 0 {
        assert(pushed.skip(1) =~= Seq::<CouponEntry>::empty());
        assert forall|c: Seq<char>|
            c != code implies spec_lookup(pushed, c) == spec_lookup(entries, c) by {
            assert(spec_lookup(pushed, c) == spec_lookup(pushed.skip(1), c));
        }
    } else {
        lemma_lookup_push(entries.skip(1), code, discount);
        assert(forall|i: int|
            0 <= i < entries.skip(1).len() ==> entries.skip(1)[i] == entries[i + 1]);
        assert(pushed.skip(1) =~= entries.skip(1).push((code, discount)));
        assert(pushed[0] == entries[0]);
        assert(pushed[0].0 != code);
        assert(spec_lookup(pushed, code) == spec_lookup(pushed.skip(1), code));
        assert forall|c: Seq<char>|
            c != code implies spec_lookup(pushed, c) == spec_lookup(entries, c) by {
            if pushed[0].0 != c {
                assert(spec_lookup(pushed.skip(1), c) == spec_lookup(entries.skip(1), c));
            }
        }
    }
}

/// In a well-formed catalog every resolving code resolves to a discount of
/// at most 100.
pub proof fn lemma_lookup_bounded(entries: Seq<CouponEntry>, code: Seq<char>)
    requires
        catalog_wf(entries),
    ensures
        spec_lookup(entries, code) matches Some(d) ==> d <= 100,
    decreases entries.len(),
{
    if entries.len() > 0 && entries[0].0 != code {
        assert(forall|i: int|
            0 <= i < entries.skip(1).len() ==> entries.skip(1)[i] == entries[i + 1]);
        lemma_lookup_bounded(entries.skip(1), code);
    }
}

/// The coupon catalog. The view is the sequence of `(code, discount)` entries
/// in insertion order; a replaced code keeps its original position.
pub struct CouponCatalog {
    entries: Vec<(String, u32)>,
}

impl View for CouponCatalog {
    type V = Seq<CouponEntry>;

    closed spec fn view(&self) -> Seq<CouponEntry> {
        self.entries.deep_view()
    }
}

impl CouponCatalog {
    /// An empty catalog.
    pub fn new() -> (r: Self)
        ensures
            r@ =~= Seq::<CouponEntry>::empty(),
            catalog_wf(r@),
    {
        CouponCatalog { entries: Vec::new() }
    }

    /// The position of `code` in the catalog, if any.
    fn find(&self, code: &String) -> (r: Option<usize>)
        ensures
            match r {
                Some(i) => i < self@.len() && self@[i as int].0 == code@ && (forall|j: int|
                    0 <= j < i ==> self@[j].0 != code@),
                None => forall|i: int| 0 <= i < self@.len() ==> self@[i].0 != code@,
            },
    {
        let n = self.entries.len();
        for i in 0..n
            invariant
                n == self.entries.len(),
                forall|j: int| 0 <= j < i ==> self@[j].0 != code@,
        {
            if self.entries[i].0 == *code {
                return Some(i);
            }
        }
        None
    }

    /// Inserts `code` with `discount`, replacing any previous discount for
    /// the same code.
    pub fn set(&mut self, code: String, discount: u32) -> (replaced: bool)
        requires
            catalog_wf(old(self)@),
            discount <= 100,
        ensures
            catalog_wf(final(self)@),
            spec_lookup(final(self)@, code@) == Some(discount),
            forall|c: Seq<char>|
                c != code@ ==> spec_lookup(final(self)@, c) == spec_lookup(old(self)@, c),
            replaced == (spec_lookup(old(self)@, code@) is Some),
            replaced ==> final(self)@.len() == old(self)@.len(),
            !replaced ==> final(self)@ =~= old(self)@.push((code@, discount)),
    {
        let ghost code_view = code@;
        proof {
            lemma_lookup_absent(self@, code@);
        }
        match self.find(&code) {
            Some(i) => {
                proof {
                    lemma_lookup_set(self@, i as int, discount);
                    lemma_lookup_first(self@, i as int);
                }
                self.entries.set(i, (code, discount));
                proof {
                    assert(self@ =~= old(self)@.update(
                        i as int,
                        (old(self)@[i as int].0, discount),
                    ));
                }
                true
            }
            None => {
                proof {
                    lemma_lookup_push(self@, code@, discount);
                }
                self.entries.push((code, discount));
                proof {
                    assert(self@ =~= old(self)@.push((code_view, discount)));
                }
                false
            }
        }
    }

    /// The discount recorded under `code`, or `None` when the code does not
    /// resolve.
    pub fn get(&self, code: &String) -> (r: Option<u32>)
        ensures
            r == spec_lookup(self@, code@),
    {
        proof {
            lemma_lookup_absent(self@, code@);
        }
        match self.find(code) {
            Some(i) => {
                proof {
                    lemma_lookup_first(self@, i as int);
                }
                Some(self.entries[i].1)
            }
            None => None,
        }
    }

    /// Every `(code, discount)` entry, in insertion order.
    pub fn list_all(&self) -> (r: Vec<(String, u32)>)
        ensures
            r.deep_view() =~= self@,
    {
        let mut all: Vec<(String, u32)> = Vec::new();
        let n = self.entries.len();
        for i in 0..n
            invariant
                n == self.entries.len(),
                all.deep_view() =~= self@.take(i as int),
        {
            proof {
                assert(self@.take(i + 1) =~= self@.take(i as int).push(self@[i as int]));
            }
            let entry = &self.entries[i];
            all.push((entry.0.clone(), entry.1));
        }
        proof {
            assert(self@.take(n as int) =~= self@);
        }
        all
    }
}

/// The lookup of the code held by the first entry carrying it is that
/// entry's discount.
proof fn lemma_lookup_first(entries: Seq<CouponEntry>, i: int)
    requires
        0 <= i < entries.len(),
        forall|j: int| 0 <= j < i ==> entries[j].0 != entries[i].0,
    ensures
        spec_lookup(entries, entries[i].0) == Some(entries[i].1),
    decreases entries.len(),
{
    if i > 0 {
        lemma_lookup_first(entries.skip(1), i - 1);
        assert(entries.skip(1)[i - 1] == entries[i]);
        assert(forall|j: int|
            0 <= j < i - 1 ==> entries.skip(1)[j] == entries[j + 1]);
    }
}

} // verus!
