//! Per-tier ticket inventory: a dense sequence of slots, one per key ever
//! assigned. Appending assigns the next integer key; removing a ticket leaves
//! a permanent gap, so a key is never reused.

use vstd::prelude::*;

verus! {

/// The payload stored under a key, or `None` once it has been removed.
pub type Slot = Option<Seq<char>>;

/// The payload a pool holds under `key`, or `None` when the key was never
/// assigned or its ticket has been removed.
pub open spec fn spec_get(slots: Seq<Slot>, key: u64) -> Option<Seq<char>> {
    if key < slots.len() {
        slots[key as int]
    } else {
        None
    }
}

/// The `(key, payload)` pairs still present in `slots`, in key order.
pub open spec fn spec_listing(slots: Seq<Slot>) -> Seq<(u64, Seq<char>)>
    decreases slots.len(),
{
    if slots.len() == 0 {
        Seq::empty()
    } else {
        spec_listing(slots.drop_last()) + (match slots.last() {
            Some(payload) => seq![((slots.len() - 1) as u64, payload)],
            None => Seq::empty(),
        })
    }
}

/// One tier's pool of tickets. The view is the sequence of slots: index `k`
/// holds `Some(payload)` while the ticket with key `k` is unsold, and `None`
/// after it has been removed.
pub struct TicketPool {
    entries: Vec<Option<String>>,
}

impl View for TicketPool {
    type V = Seq<Slot>;

    closed spec fn view(&self) -> Seq<Slot> {
        self.entries.deep_view()
    }
}

impl TicketPool {
    /// An empty pool: no key has ever been assigned.
    pub fn new() -> (r: Self)
        ensures
            r@ =~= Seq::<Slot>::empty(),
    {
        TicketPool { entries: Vec::new() }
    }

    /// The number of keys ever assigned (a high-water mark, not the number of
    /// tickets still present).
    pub fn len(&self) -> (n: u64)
        requires
            self@.len() <= u64::MAX,
        ensures
            n == self@.len(),
    {
        self.entries.len() as u64
    }

    /// Appends `payload` under the next key, which is the current length.
    pub fn append(&mut self, payload: String)
        ensures
            final(self)@ =~= old(self)@.push(Some(payload@)),
    {
        self.entries.push(Some(payload));
    }

    /// The payload under `key`, or `None` when absent.
    pub fn get(&self, key: u64) -> (r: Option<String>)
        ensures
            match r {
                Some(payload) => spec_get(self@, key) == Some(payload@),
                None => spec_get(self@, key) is None,
            },
    {
        if key < self.entries.len() as u64 {
            match &self.entries[key as usize] {
                Some(payload) => Some(payload.clone()),
                None => None,
            }
        } else {
            None
        }
    }

    /// Removes the ticket under `key`, leaving a gap; reports whether one was
    /// present. The key is never assigned again.
    pub fn remove(&mut self, key: u64) -> (removed: bool)
        ensures
            removed == (spec_get(old(self)@, key) is Some),
            removed ==> final(self)@ =~= old(self)@.update(key as int, None),
            !removed ==> final(self)@ =~= old(self)@,
    {
        if key < self.entries.len() as u64 {
            let present = self.entries[key as usize].is_some();
            if present {
                self.entries.set(key as usize, None);
            }
            present
        } else {
            false
        }
    }

    /// Every `(key, payload)` pair still present, in key order.
    pub fn list_all(&self) -> (r: Vec<(u64, String)>)
        requires
            self@.len() <= u64::MAX,
        ensures
            r.deep_view() =~= spec_listing(self@),
    {
        let mut all: Vec<(u64, String)> = Vec::new();
        let n = self.entries.len();
        for i in 0..n
            invariant
                n == self@.len() <= u64::MAX,
                all.deep_view() =~= spec_listing(self@.take(i as int)),
        {
            proof {
                assert(self@.take(i + 1).drop_last() =~= self@.take(i as int));
                assert(self@.take(i + 1).last() == self@[i as int]);
            }
            match &self.entries[i] {
                Some(payload) => {
                    all.push((i as u64, payload.clone()));
                }
                None => {}
            }
        }
        proof {
            assert(self@.take(n as int) =~= self@);
        }
        all
    }
}

/// The slots after a bulk-add: the supplied payloads appended in order, each
/// present, each under the next key.
pub open spec fn spec_appended(slots: Seq<Slot>, payloads: Seq<Seq<char>>) -> Seq<Slot> {
    slots + payloads.map_values(|p: Seq<char>| Some(p))
}

/// A ticket appended by the administrative bulk-add and then fetched by its
/// assigned key is exactly the payload supplied: the payload at position `i`
/// of the bulk stands under key `previous length + i`, and the slots already
/// assigned are untouched.
pub proof fn lemma_bulk_add_round_trip(slots: Seq<Slot>, payloads: Seq<Seq<char>>, i: int)
    requires
        0 <= i < payloads.len(),
        slots.len() + payloads.len() <= u64::MAX,
    ensures
        spec_get(spec_appended(slots, payloads), (slots.len() + i) as u64) == Some(payloads[i]),
        forall|k: u64| k < slots.len() ==> spec_get(spec_appended(slots, payloads), k) == spec_get(
            slots,
            k,
        ),
{
}

} // verus!
