//! The buyer ledger: the set of participants who have already purchased on a
//! single-purchase tier, and the list of ticket payloads issued to each
//! participant. Records are only ever created or appended to, never deleted.

use vstd::prelude::*;

verus! {

/// One ledger entry: a participant identifier and the payloads issued to it,
/// oldest first.
pub type LinkEntry = (Seq<char>, Seq<Seq<char>>);

/// The payloads issued to `key`, or `None` for a participant with no record.
pub open spec fn spec_links_lookup(entries: Seq<LinkEntry>, key: Seq<char>) -> Option<
    Seq<Seq<char>>,
>
    decreases entries.len(),
{
    if entries.len() == 0 {
        None
    } else if entries[0].0 == key {
        Some(entries[0].1)
    } else {
        spec_links_lookup(entries.skip(1), key)
    }
}

/// The record `key` holds after one more `link` is issued to it.
pub open spec fn spec_links_after(entries: Seq<LinkEntry>, key: Seq<char>, link: Seq<char>) -> Seq<
    Seq<char>,
> {
    match spec_links_lookup(entries, key) {
        Some(v) => v.push(link),
        None => seq![link],
    }
}

/// Replacing the payload list at the first entry carrying its key rewrites
/// that key's lookup and no other.
proof fn lemma_links_set(entries: Seq<LinkEntry>, i: int, v: Seq<Seq<char>>)
    requires
        0 <= i < entries.len(),
        forall|j: int| 0 <= j < i ==> entries[j].0 != entries[i].0,
    ensures
        spec_links_lookup(entries.update(i, (entries[i].0, v)), entries[i].0) == Some(v),
        forall|c: Seq<char>|
            c != entries[i].0 ==> spec_links_lookup(entries.update(i, (entries[i].0, v)), c)
                == spec_links_lookup(entries, c),
    decreases entries.len(),
{
    let upd = entries.update(i, (entries[i].0, v));
    if i == 0 {
        assert(upd.skip(1) =~= entries.skip(1));
    } else {
        lemma_links_set(entries.skip(1), i - 1, v);
        assert(entries.skip(1)[i - 1] == entries[i]);
        assert(upd.skip(1) =~= entries.skip(1).update(i - 1, (entries[i].0, v)));
        assert(upd[0] == entries[0]);
        assert(spec_links_lookup(upd, entries[i].0) == spec_links_lookup(
            upd.skip(1),
            entries[i].0,
        ));
        assert forall|c: Seq<char>|
            c != entries[i].0 implies spec_links_lookup(upd, c) == spec_links_lookup(
            entries,
            c,
        ) by {
            if upd[0].0 != c {
                assert(spec_links_lookup(upd.skip(1), c) == spec_links_lookup(
                    entries.skip(1),
                    c,
                ));
            }
        }
    }
}

/// Appending an entry whose key is absent makes that key resolve to the
/// appended list and leaves every other lookup unchanged.
proof fn lemma_links_push(entries: Seq<LinkEntry>, key: Seq<char>, v: Seq<Seq<char>>)
    requires
        forall|i: int| 0 <= i < entries.len() ==> entries[i].0 != key,
    ensures
        spec_links_lookup(entries.push((key, v)), key) == Some(v),
        forall|c: Seq<char>|
            c != key ==> spec_links_lookup(entries.push((key, v)), c) == spec_links_lookup(
                entries,
                c,
            ),
    decreases entries.len(),
{
    let pushed = entries.push((key, v));
    if entries.len() == 0 {
        assert(pushed.skip(1) =~= Seq::<LinkEntry>::empty());
        assert forall|c: Seq<char>|
            c != key implies spec_links_lookup(pushed, c) == spec_links_lookup(entries, c) by {
            assert(spec_links_lookup(pushed, c) == spec_links_lookup(pushed.skip(1), c));
        }
    } else {
        lemma_links_push(entries.skip(1), key, v);
        assert(forall|i: int|
            0 <= i < entries.skip(1).len() ==> entries.skip(1)[i] == entries[i + 1]);
        assert(pushed.skip(1) =~= entries.skip(1).push((key, v)));
        assert(pushed[0] == entries[0]);
        assert(spec_links_lookup(pushed, key) == spec_links_lookup(pushed.skip(1), key));
        assert forall|c: Seq<char>|
            c != key implies spec_links_lookup(pushed, c) == spec_links_lookup(entries, c) by {
            if pushed[0].0 != c {
                assert(spec_links_lookup(pushed.skip(1), c) == spec_links_lookup(
                    entries.skip(1),
                    c,
                ));
            }
        }
    }
}

/// The lookup of the key held by the first entry carrying it is that entry's
/// payload list.
proof fn lemma_links_first(entries: Seq<LinkEntry>, i: int)
    requires
        0 <= i < entries.len(),
        forall|j: int| 0 <= j < i ==> entries[j].0 != entries[i].0,
    ensures
        spec_links_lookup(entries, entries[i].0) == Some(entries[i].1),
    decreases entries.len(),
{
    if i > 0 {
        lemma_links_first(entries.skip(1), i - 1);
        assert(entries.skip(1)[i - 1] == entries[i]);
        assert(forall|j: int| 0 <= j < i - 1 ==> entries.skip(1)[j] == entries[j + 1]);
    }
}

/// A key with no entry resolves to `None`.
proof fn lemma_links_absent(entries: Seq<LinkEntry>, key: Seq<char>)
    requires
        forall|i: int| 0 <= i < entries.len() ==> entries[i].0 != key,
    ensures
        spec_links_lookup(entries, key) is None,
    decreases entries.len(),
{
    if entries.len() > 0 {
        assert(forall|i: int|
            0 <= i < entries.skip(1).len() ==> entries.skip(1)[i] == entries[i + 1]);
        lemma_links_absent(entries.skip(1), key);
    }
}

/// The buyer ledger.
pub struct BuyerLedger {
    purchased: Vec<String>,
    links: Vec<(String, Vec<String>)>,
}

impl BuyerLedger {
    /// The participants who have purchased on a single-purchase tier.
    pub closed spec fn purchased_view(&self) -> Seq<Seq<char>> {
        self.purchased.deep_view()
    }

    /// The per-participant issued payload lists, in order of first issue.
    pub closed spec fn links_view(&self) -> Seq<LinkEntry> {
        self.links.deep_view()
    }

    /// An empty ledger.
    pub fn new() -> (r: Self)
        ensures
            r.purchased_view() =~= Seq::<Seq<char>>::empty(),
            r.links_view() =~= Seq::<LinkEntry>::empty(),
    {
        BuyerLedger { purchased: Vec::new(), links: Vec::new() }
    }

    /// Whether `acct` is marked as having purchased.
    pub fn has_purchased(&self, acct: &String) -> (r: bool)
        ensures
            r == self.purchased_view().contains(acct@),
    {
        let n = self.purchased.len();
        for i in 0..n
            invariant
                n == self.purchased.len(),
                forall|j: int| 0 <= j < i ==> self.purchased_view()[j] != acct@,
        {
            if self.purchased[i] == *acct {
                proof {
                    assert(self.purchased_view()[i as int] == acct@);
                }
                return true;
            }
        }
        false
    }

    /// Marks `acct` as having purchased. Already-marked participants are left
    /// as they are.
    pub fn mark_purchased(&mut self, acct: String)
        ensures
            final(self).purchased_view() =~= (if old(self).purchased_view().contains(acct@) {
                old(self).purchased_view()
            } else {
                old(self).purchased_view().push(acct@)
            }),
            final(self).links_view() == old(self).links_view(),
    {
        if !self.has_purchased(&acct) {
            self.purchased.push(acct);
        }
    }

    /// The position of `acct` among the link entries, if any.
    fn find_links(&self, acct: &String) -> (r: Option<usize>)
        ensures
            match r {
                Some(i) => i < self.links_view().len() && self.links_view()[i as int].0 == acct@
                    && (forall|j: int| 0 <= j < i ==> self.links_view()[j].0 != acct@),
                None => forall|i: int|
                    0 <= i < self.links_view().len() ==> self.links_view()[i].0 != acct@,
            },
    {
        let n = self.links.len();
        for i in 0..n
            invariant
                n == self.links.len(),
                forall|j: int| 0 <= j < i ==> self.links_view()[j].0 != acct@,
        {
            if self.links[i].0 == *acct {
                return Some(i);
            }
        }
        None
    }

    /// Appends `link` to the list of payloads issued to `acct`, creating the
    /// record on first issue.
    pub fn record_ticket(&mut self, acct: String, link: String)
        ensures
            spec_links_lookup(final(self).links_view(), acct@) == Some(
                spec_links_after(old(self).links_view(), acct@, link@),
            ),
            forall|c: Seq<char>|
                c != acct@ ==> spec_links_lookup(final(self).links_view(), c)
                    == spec_links_lookup(old(self).links_view(), c),
            final(self).purchased_view() == old(self).purchased_view(),
    {
        let ghost acct_view = acct@;
        let ghost link_view = link@;
        match self.find_links(&acct) {
            Some(i) => {
                let ghost prev = self.links_view()[i as int].1;
                proof {
                    lemma_links_first(self.links_view(), i as int);
                    lemma_links_set(self.links_view(), i as int, prev.push(link@));
                }
                let mut v = self.links[i].1.clone();
                v.push(link);
                proof {
                    assert(v.deep_view() =~= prev.push(link_view));
                }
                self.links.set(i, (acct, v));
                proof {
                    assert(self.links_view() =~= old(self).links_view().update(
                        i as int,
                        (old(self).links_view()[i as int].0, prev.push(link_view)),
                    ));
                }
            }
            None => {
                proof {
                    lemma_links_absent(self.links_view(), acct@);
                    lemma_links_push(self.links_view(), acct@, seq![link@]);
                }
                let mut v: Vec<String> = Vec::new();
                v.push(link);
                proof {
                    assert(v.deep_view() =~= seq![link_view]);
                }
                self.links.push((acct, v));
                proof {
                    assert(self.links_view() =~= old(self).links_view().push(
                        (acct_view, seq![link_view]),
                    ));
                }
            }
        }
    }

    /// The payloads issued to `acct`, or `None` for a participant that was
    /// never issued any.
    pub fn tickets_for(&self, acct: &String) -> (r: Option<Vec<String>>)
        ensures
            match r {
                Some(v) => spec_links_lookup(self.links_view(), acct@) == Some(v.deep_view()),
                None => spec_links_lookup(self.links_view(), acct@) is None,
            },
    {
        match self.find_links(acct) {
            Some(i) => {
                proof {
                    lemma_links_first(self.links_view(), i as int);
                }
                let v = self.links[i].1.clone();
                proof {
                    assert(v.deep_view() =~= self.links_view()[i as int].1);
                }
                Some(v)
            }
            None => {
                proof {
                    lemma_links_absent(self.links_view(), acct@);
                }
                None
            }
        }
    }
}

} // verus!
