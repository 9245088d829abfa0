//! The derived-address identity model. The host platform maps a namespace
//! tag and a seed tuple deterministically to a unique record address; records
//! store only the resulting identity. This module writes the seed tuples the
//! marketplace uses as plain values, and models the host's create-at-derived-
//! address primitive: a registry that assigns each seed tuple one fresh
//! address and deterministically refuses a second creation at the same tuple.

use vstd::prelude::*;
use vstd::pervasive::VecAdditionalExecFns;
use crate::addr::Addr;

verus! {

/// The namespace a seed tuple is derived under, one per record kind.
#[derive(Clone, Copy, PartialEq, Eq, Structural, Debug)]
pub enum SeedSpace {
    ProgramMetadata,
    Store,
    Product,
    ProductSnapshotMetadata,
    ProductSnapshot,
    PurchaseTicket,
    Redemption,
    StoreTaker,
    ProductTaker,
}

/// A full derivation input: the namespace tag and up to two referenced
/// addresses and a numeric discriminator. Unused positions hold the zero
/// address or zero.
#[derive(Clone, Copy, PartialEq, Eq, Structural, Debug)]
pub struct SeedKey {
    pub space: SeedSpace,
    pub key_a: Addr,
    pub key_b: Addr,
    pub nonce: u64,
}

/// The seeds of the singleton program record.
pub fn program_metadata_seed() -> (r: SeedKey)
    ensures
        r == (SeedKey { space: SeedSpace::ProgramMetadata, key_a: Addr { id: 0 }, key_b: Addr { id: 0 }, nonce: 0u64 }),
{
    SeedKey { space: SeedSpace::ProgramMetadata, key_a: Addr::zero(), key_b: Addr::zero(), nonce: 0 }
}

/// The seeds of a store: its creator and caller-chosen id.
pub fn store_seed(creator: Addr, id: u16) -> (r: SeedKey)
    ensures
        r == (SeedKey { space: SeedSpace::Store, key_a: creator, key_b: Addr { id: 0 }, nonce: id as u64 }),
{
    SeedKey { space: SeedSpace::Store, key_a: creator, key_b: Addr::zero(), nonce: id as u64 }
}

/// The seeds of a product: its creator and caller-chosen id.
pub fn product_seed(creator: Addr, id: u32) -> (r: SeedKey)
    ensures
        r == (SeedKey { space: SeedSpace::Product, key_a: creator, key_b: Addr { id: 0 }, nonce: id as u64 }),
{
    SeedKey { space: SeedSpace::Product, key_a: creator, key_b: Addr::zero(), nonce: id as u64 }
}

/// The seeds of a purchase's snapshot metadata: the product bought, the
/// buyer, and the purchase nonce. One record may ever exist per triple.
pub fn product_snapshot_metadata_seed(product: Addr, buyer: Addr, nonce: u16) -> (r: SeedKey)
    ensures
        r == (SeedKey { space: SeedSpace::ProductSnapshotMetadata, key_a: product, key_b: buyer, nonce: nonce as u64 }),
{
    SeedKey { space: SeedSpace::ProductSnapshotMetadata, key_a: product, key_b: buyer, nonce: nonce as u64 }
}

/// The seeds of the snapshot copy itself: its metadata record.
pub fn product_snapshot_seed(snapshot_metadata: Addr) -> (r: SeedKey)
    ensures
        r == (SeedKey { space: SeedSpace::ProductSnapshot, key_a: snapshot_metadata, key_b: Addr { id: 0 }, nonce: 0u64 }),
{
    SeedKey { space: SeedSpace::ProductSnapshot, key_a: snapshot_metadata, key_b: Addr::zero(), nonce: 0 }
}

/// The seeds of a purchase ticket: the snapshot metadata, the buyer, and
/// the purchase nonce.
pub fn purchase_ticket_seed(snapshot_metadata: Addr, buyer: Addr, nonce: u16) -> (r: SeedKey)
    ensures
        r == (SeedKey { space: SeedSpace::PurchaseTicket, key_a: snapshot_metadata, key_b: buyer, nonce: nonce as u64 }),
{
    SeedKey { space: SeedSpace::PurchaseTicket, key_a: snapshot_metadata, key_b: buyer, nonce: nonce as u64 }
}

/// The seeds of a redemption: its ticket and a nonce scoped to that ticket.
pub fn redemption_seed(purchase_ticket: Addr, nonce: u32) -> (r: SeedKey)
    ensures
        r == (SeedKey { space: SeedSpace::Redemption, key_a: purchase_ticket, key_b: Addr { id: 0 }, nonce: nonce as u64 }),
{
    SeedKey { space: SeedSpace::Redemption, key_a: purchase_ticket, key_b: Addr::zero(), nonce: nonce as u64 }
}

/// The seeds of a store's ticket-taker authorization.
pub fn store_taker_seed(store: Addr, taker: Addr) -> (r: SeedKey)
    ensures
        r == (SeedKey { space: SeedSpace::StoreTaker, key_a: store, key_b: taker, nonce: 0u64 }),
{
    SeedKey { space: SeedSpace::StoreTaker, key_a: store, key_b: taker, nonce: 0 }
}

/// The seeds of a product's ticket-taker authorization.
pub fn product_taker_seed(product: Addr, taker: Addr) -> (r: SeedKey)
    ensures
        r == (SeedKey { space: SeedSpace::ProductTaker, key_a: product, key_b: taker, nonce: 0u64 }),
{
    SeedKey { space: SeedSpace::ProductTaker, key_a: product, key_b: taker, nonce: 0 }
}

/// The host's address assignment: each seed tuple maps to one address for
/// all time. Deriving the same tuple always answers the same address,
/// distinct tuples never share one, creating a record where a live one
/// already exists fails deterministically, and closing a record frees the
/// tuple for re-creation at its one permanent address.
pub struct AddressRegistry {
    entries: Vec<(SeedKey, Addr, bool)>,
}

impl AddressRegistry {
    /// An address was ever derived for `key` (the assignment is permanent,
    /// whether or not a record currently lives there).
    pub closed spec fn was_assigned(self, key: SeedKey) -> bool {
        exists|i: int| 0 <= i < self.entries@.len() && self.entries@[i].0 == key
    }

    /// A record currently lives at `key`'s derived address.
    pub closed spec fn contains_key(self, key: SeedKey) -> bool {
        exists|i: int|
            0 <= i < self.entries@.len() && self.entries@[i].0 == key && self.entries@[i].2
    }

    /// The position of `key`'s entry (meaningful only under `wf` and
    /// `was_assigned`).
    pub closed spec fn index_of(self, key: SeedKey) -> int {
        choose|i: int| 0 <= i < self.entries@.len() && self.entries@[i].0 == key
    }

    /// The address derived for `key` (meaningful only under `wf` and
    /// `was_assigned`).
    pub closed spec fn addr_of(self, key: SeedKey) -> Addr {
        self.entries@[self.index_of(key)].1
    }

    /// How many seed tuples have ever been assigned an address.
    pub closed spec fn record_count(self) -> nat {
        self.entries@.len()
    }

    /// The registry's invariant: every seed tuple appears at most once, and
    /// the address assigned to the entry at position `i` is exactly `i` —
    /// so distinct tuples always carry distinct addresses.
    pub closed spec fn wf(self) -> bool {
        &&& forall|i: int, j: int|
            0 <= i < j < self.entries@.len() ==> self.entries@[i].0 != self.entries@[j].0
        &&& forall|i: int|
            0 <= i < self.entries@.len() ==> (#[trigger] self.entries@[i]).1 == (Addr {
                id: i as u64,
            })
    }

    /// An empty registry: no address derived yet.
    pub fn new() -> (r: AddressRegistry)
        ensures
            r.wf(),
            r.record_count() == 0,
            forall|k: SeedKey| !r.was_assigned(k),
            forall|k: SeedKey| !r.contains_key(k),
    {
        AddressRegistry { entries: Vec::new() }
    }

    /// The position of `key`'s entry, if any.
    fn find(&self, key: &SeedKey) -> (r: Option<usize>)
        ensures
            match r {
                Some(i) => {
                    &&& i < self.entries@.len()
                    &&& self.entries@[i as int].0 == *key
                    &&& self.was_assigned(*key)
                },
                None => !self.was_assigned(*key),
            },
    {
        let mut i: usize = 0;
        while i < self.entries.len()
            invariant
                i <= self.entries@.len(),
                forall|j: int| 0 <= j < i ==> self.entries@[j].0 != *key,
            decreases self.entries@.len() - i,
        {
            if self.entries[i].0 == *key {
                return Some(i);
            }
            i = i + 1;
        }
        None
    }

    /// Re-derives the address for a seed tuple. Derivation is a function of
    /// the tuple alone: whenever the tuple was ever assigned an address, the
    /// answer is that one address, so deriving twice always yields the same
    /// address — even across closure and re-creation of the record.
    pub fn derive(&self, key: SeedKey) -> (r: Option<Addr>)
        requires
            self.wf(),
        ensures
            match r {
                Some(a) => self.was_assigned(key) && a == self.addr_of(key),
                None => !self.was_assigned(key),
            },
    {
        match self.find(&key) {
            Some(i) => {
                let a = self.entries[i].1;
                proof {
                    let w = self.index_of(key);
                    assert(self.entries@[w].0 == key);
                    assert(w == i as int);
                }
                Some(a)
            },
            None => None,
        }
    }

    /// Creates a record at `key`'s derived address. While a record lives
    /// there, the creation fails with nothing changed — never merged, never
    /// overwritten. Otherwise the record is created at the tuple's one
    /// address: the address it always had, or a fresh one no other tuple
    /// holds.
    pub fn register(&mut self, key: SeedKey) -> (r: Option<Addr>)
        requires
            old(self).wf(),
        ensures
            final(self).wf(),
            match r {
                Some(a) => {
                    &&& !old(self).contains_key(key)
                    &&& final(self).contains_key(key)
                    &&& final(self).addr_of(key) == a
                    &&& old(self).was_assigned(key) ==> a == old(self).addr_of(key)
                        && final(self).record_count() == old(self).record_count()
                    &&& !old(self).was_assigned(key) ==> final(self).record_count() == old(
                        self,
                    ).record_count() + 1 && (forall|k2: SeedKey|
                        old(self).was_assigned(k2) ==> #[trigger] old(self).addr_of(k2) != a)
                },
                None => {
                    &&& old(self).contains_key(key)
                    &&& *final(self) == *old(self)
                },
            },
            forall|k2: SeedKey|
                k2 != key ==> #[trigger] final(self).contains_key(k2) == old(self).contains_key(
                    k2,
                ),
            forall|k2: SeedKey|
                k2 != key ==> #[trigger] final(self).was_assigned(k2) == old(self).was_assigned(
                    k2,
                ),
            forall|k2: SeedKey|
                k2 != key && old(self).was_assigned(k2) ==> #[trigger] final(self).addr_of(k2)
                    == old(self).addr_of(k2),
    {
        match self.find(&key) {
            Some(i) => {
                if self.entries[i].2 {
                    proof {
                        assert(self.contains_key(key));
                    }
                    None
                } else {
                    let k = self.entries[i].0;
                    let a = self.entries[i].1;
                    self.entries.set(i, (k, a, true));
                    proof {
                        self.lemma_liveness_update(*old(self), i as int);
                        assert(!old(self).contains_key(key)) by {
                            if old(self).contains_key(key) {
                                let j = choose|j: int|
                                    0 <= j < old(self).entries@.len() && old(self).entries@[j].0
                                        == key && old(self).entries@[j].2;
                                assert(j == i as int);
                            }
                        }
                        assert(self.entries@[i as int].0 == key && self.entries@[i as int].2);
                        assert(self.contains_key(key));
                        assert(self.index_of(key) == i as int);
                        assert(old(self).index_of(key) == i as int);
                        assert forall|k2: SeedKey|
                            k2 != key implies #[trigger] self.contains_key(k2) == old(
                            self,
                        ).contains_key(k2) by {
                            if old(self).contains_key(k2) {
                                let j = choose|j: int|
                                    0 <= j < old(self).entries@.len() && old(self).entries@[j].0
                                        == k2 && old(self).entries@[j].2;
                                assert(j != i as int);
                                assert(self.entries@[j].0 == k2 && self.entries@[j].2);
                            }
                            if self.contains_key(k2) {
                                let j = choose|j: int|
                                    0 <= j < self.entries@.len() && self.entries@[j].0 == k2
                                        && self.entries@[j].2;
                                assert(j != i as int);
                                assert(old(self).entries@[j].0 == k2 && old(self).entries@[j].2);
                            }
                        }
                    }
                    Some(a)
                }
            },
            None => {
                let a = Addr { id: self.entries.len() as u64 };
                self.entries.push((key, a, true));
                proof {
                    let n = old(self).entries@.len() as int;
                    vstd::std_specs::vec::axiom_spec_len(&self.entries);
                    assert(self.entries@.len() <= usize::MAX);
                    assert(self.entries@ == old(self).entries@.push((key, a, true)));
                    assert(self.entries@[n] == (key, a, true));
                    assert(self.wf());
                    assert(self.contains_key(key));
                    assert(self.index_of(key) == n);
                    assert forall|k2: SeedKey|
                        k2 != key implies #[trigger] self.was_assigned(k2) == old(
                        self,
                    ).was_assigned(k2) by {
                        if old(self).was_assigned(k2) {
                            let j = choose|j: int|
                                0 <= j < old(self).entries@.len() && old(self).entries@[j].0 == k2;
                            assert(self.entries@[j].0 == k2);
                        }
                        if self.was_assigned(k2) {
                            let j = choose|j: int|
                                0 <= j < self.entries@.len() && self.entries@[j].0 == k2;
                            assert(j < n);
                            assert(old(self).entries@[j].0 == k2);
                        }
                    }
                    assert forall|k2: SeedKey|
                        k2 != key implies #[trigger] self.contains_key(k2) == old(
                        self,
                    ).contains_key(k2) by {
                        if old(self).contains_key(k2) {
                            let j = choose|j: int|
                                0 <= j < old(self).entries@.len() && old(self).entries@[j].0 == k2
                                    && old(self).entries@[j].2;
                            assert(self.entries@[j].0 == k2 && self.entries@[j].2);
                        }
                        if self.contains_key(k2) {
                            let j = choose|j: int|
                                0 <= j < self.entries@.len() && self.entries@[j].0 == k2
                                    && self.entries@[j].2;
                            assert(j < n);
                            assert(old(self).entries@[j].0 == k2 && old(self).entries@[j].2);
                        }
                    }
                    assert forall|k2: SeedKey|
                        k2 != key && old(self).was_assigned(k2) implies #[trigger] self.addr_of(k2)
                        == old(self).addr_of(k2) by {
                        let j = old(self).index_of(k2);
                        assert(old(self).entries@[j].0 == k2);
                        assert(self.entries@[j].0 == k2);
                        let w = self.index_of(k2);
                        assert(self.entries@[w].0 == k2);
                        assert(w == j);
                    }
                    assert forall|k2: SeedKey|
                        old(self).was_assigned(k2) implies #[trigger] old(self).addr_of(k2)
                        != a by {
                        let j = old(self).index_of(k2);
                        assert(old(self).entries@[j].0 == k2);
                        assert(old(self).entries@[j].1 == (Addr { id: j as u64 }));
                        assert(j as u64 != n as u64);
                    }
                }
                Some(a)
            },
        }
    }

    /// Closes the record at `key`'s derived address, as the host does when
    /// an account is closed or a rejected transaction's creations are rolled
    /// back. The assignment itself is permanent: the tuple keeps its address
    /// and a later re-creation answers it again.
    pub fn release(&mut self, key: SeedKey) -> (r: bool)
        requires
            old(self).wf(),
        ensures
            final(self).wf(),
            r == old(self).contains_key(key),
            !final(self).contains_key(key),
            final(self).record_count() == old(self).record_count(),
            forall|k2: SeedKey|
                k2 != key ==> #[trigger] final(self).contains_key(k2) == old(self).contains_key(
                    k2,
                ),
            forall|k2: SeedKey|
                #[trigger] final(self).was_assigned(k2) == old(self).was_assigned(k2),
            forall|k2: SeedKey|
                old(self).was_assigned(k2) ==> #[trigger] final(self).addr_of(k2) == old(
                    self,
                ).addr_of(k2),
    {
        match self.find(&key) {
            Some(i) => {
                let live = self.entries[i].2;
                let k = self.entries[i].0;
                let a = self.entries[i].1;
                self.entries.set(i, (k, a, false));
                proof {
                    self.lemma_liveness_update(*old(self), i as int);
                    assert(old(self).contains_key(key) == live) by {
                        if old(self).contains_key(key) {
                            let j = choose|j: int|
                                0 <= j < old(self).entries@.len() && old(self).entries@[j].0 == key
                                    && old(self).entries@[j].2;
                            assert(j == i as int);
                        }
                    }
                    assert(!self.contains_key(key)) by {
                        if self.contains_key(key) {
                            let j = choose|j: int|
                                0 <= j < self.entries@.len() && self.entries@[j].0 == key
                                    && self.entries@[j].2;
                            assert(j == i as int);
                        }
                    }
                    assert forall|k2: SeedKey|
                        k2 != key implies #[trigger] self.contains_key(k2) == old(
                        self,
                    ).contains_key(k2) by {
                        if old(self).contains_key(k2) {
                            let j = choose|j: int|
                                0 <= j < old(self).entries@.len() && old(self).entries@[j].0 == k2
                                    && old(self).entries@[j].2;
                            assert(j != i as int);
                            assert(self.entries@[j].0 == k2 && self.entries@[j].2);
                        }
                        if self.contains_key(k2) {
                            let j = choose|j: int|
                                0 <= j < self.entries@.len() && self.entries@[j].0 == k2
                                    && self.entries@[j].2;
                            assert(j != i as int);
                            assert(old(self).entries@[j].0 == k2 && old(self).entries@[j].2);
                        }
                    }
                }
                live
            },
            None => false,
        }
    }

    /// After a liveness-only update at position `i`, every entry keeps its
    /// key and address, so the invariant, the assignment set and every
    /// derived address are untouched.
    proof fn lemma_liveness_update(self, older: AddressRegistry, i: int)
        requires
            older.wf(),
            0 <= i < older.entries@.len(),
            self.entries@.len() == older.entries@.len(),
            forall|j: int|
                0 <= j < self.entries@.len() ==> (#[trigger] self.entries@[j]).0
                    == older.entries@[j].0 && self.entries@[j].1 == older.entries@[j].1,
            forall|j: int|
                0 <= j < self.entries@.len() && j != i ==> (#[trigger] self.entries@[j]).2
                    == older.entries@[j].2,
        ensures
            self.wf(),
            forall|k2: SeedKey| #[trigger] self.was_assigned(k2) == older.was_assigned(k2),
            forall|k2: SeedKey|
                older.was_assigned(k2) ==> #[trigger] self.addr_of(k2) == older.addr_of(k2)
                    && self.index_of(k2) == older.index_of(k2),
    {
        assert forall|k2: SeedKey| #[trigger] self.was_assigned(k2) == older.was_assigned(
            k2,
        ) by {
            if older.was_assigned(k2) {
                let j = choose|j: int|
                    0 <= j < older.entries@.len() && older.entries@[j].0 == k2;
                assert(self.entries@[j].0 == k2);
            }
            if self.was_assigned(k2) {
                let j = choose|j: int| 0 <= j < self.entries@.len() && self.entries@[j].0 == k2;
                assert(older.entries@[j].0 == k2);
            }
        }
        assert forall|k2: SeedKey| older.was_assigned(k2) implies #[trigger] self.addr_of(k2)
            == older.addr_of(k2) && self.index_of(k2) == older.index_of(k2) by {
            let j = older.index_of(k2);
            assert(older.entries@[j].0 == k2);
            assert(self.entries@[j].0 == k2);
            let w = self.index_of(k2);
            assert(self.entries@[w].0 == k2);
            assert(older.entries@[w].0 == k2);
            assert(w == j);
        }
    }
}

/// Distinct seed tuples never share a derived address: in any well-formed
/// registry, two different tuples that were both assigned addresses resolve
/// to two different ones.
pub proof fn lemma_derived_addresses_injective(
    registry: AddressRegistry,
    k1: SeedKey,
    k2: SeedKey,
)
    requires
        registry.wf(),
        registry.was_assigned(k1),
        registry.was_assigned(k2),
        k1 != k2,
    ensures
        registry.addr_of(k1) != registry.addr_of(k2),
{
    let i1 = registry.index_of(k1);
    let i2 = registry.index_of(k2);
    assert(registry.entries@[i1].0 == k1);
    assert(registry.entries@[i2].0 == k2);
    assert(i1 != i2);
    vstd::std_specs::vec::axiom_spec_len(&registry.entries);
    assert(registry.entries@.len() <= usize::MAX);
    assert(registry.entries@[i1].1 == (Addr { id: i1 as u64 }));
    assert(registry.entries@[i2].1 == (Addr { id: i2 as u64 }));
    assert(i1 as u64 != i2 as u64);
}

} // verus!
