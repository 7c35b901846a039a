use vstd::prelude::*;

use crate::identity::Address;
use crate::identity::Identity;
use crate::identity::RecordView;

verus! {

/// Storage key for an identity record: one variant per address. The global
/// registration counter lives under its own fixed well-known key, modelled
/// here by a dedicated field of the store.
#[derive(Clone, Copy, PartialEq, Eq, Structural)]
pub enum IdentityBook {
    Identity(Address),
}

impl IdentityBook {
    /// The address a key points at.
    pub open spec fn addr(self) -> Address {
        match self {
            IdentityBook::Identity(a) => a,
        }
    }
}

/// No two entries claim the same address.
spec fn unique_addresses(s: Seq<Identity>) -> bool {
    forall|i: int, j: int| 0 <= i < j < s.len() ==> s[i].user_address != s[j].user_address
}

/// The map a sequence of entries stores: each entry keyed by its address.
/// A later entry would shadow an earlier one with the same address; under
/// `unique_addresses` there is nothing to shadow.
spec fn entries_map(s: Seq<Identity>) -> Map<Address, RecordView>
    decreases s.len(),
{
    if s.len() == 0 {
        Map::empty()
    } else {
        entries_map(s.drop_last()).insert(s.last().user_address, s.last()@)
    }
}

/// An address occurs among the entries.
spec fn has_address(s: Seq<Identity>, a: Address) -> bool {
    exists|i: int| 0 <= i < s.len() && s[i].user_address == a
}

proof fn lemma_entries_map_domain(s: Seq<Identity>)
    ensures
        entries_map(s).dom().finite(),
        forall|a: Address| #[trigger] entries_map(s).contains_key(a) <==> has_address(s, a),
    decreases s.len(),
{
    if s.len() > 0 {
        lemma_entries_map_domain(s.drop_last());
        assert forall|a: Address| has_address(s.drop_last(), a) || a == s.last().user_address
            implies has_address(s, a) by {
            if has_address(s.drop_last(), a) {
                let i = choose|i: int| 0 <= i < s.drop_last().len() && s.drop_last()[i].user_address == a;
                assert(s[i].user_address == a);
            } else {
                assert(s[s.len() - 1].user_address == a);
            }
        }
        assert forall|a: Address| has_address(s, a) && a != s.last().user_address
            implies has_address(s.drop_last(), a) by {
            let i = choose|i: int| 0 <= i < s.len() && s[i].user_address == a;
            assert(s.drop_last()[i].user_address == a);
        }
    }
}

proof fn lemma_entries_map_index(s: Seq<Identity>, i: int)
    requires
        unique_addresses(s),
        0 <= i < s.len(),
    ensures
        entries_map(s).contains_key(s[i].user_address),
        entries_map(s)[s[i].user_address] == s[i]@,
    decreases s.len(),
{
    if i < s.len() - 1 {
        lemma_entries_map_index(s.drop_last(), i);
        assert(s.drop_last()[i] == s[i]);
    }
}

proof fn lemma_entries_map_absent(s: Seq<Identity>, a: Address)
    requires
        forall|j: int| 0 <= j < s.len() ==> s[j].user_address != a,
    ensures
        !entries_map(s).contains_key(a),
{
    lemma_entries_map_domain(s);
}

proof fn lemma_entries_map_push(s: Seq<Identity>, rec: Identity)
    ensures
        entries_map(s.push(rec)) == entries_map(s).insert(rec.user_address, rec@),
{
    assert(s.push(rec).drop_last() =~= s);
    assert(s.push(rec).last() == rec);
}

proof fn lemma_entries_map_update(s: Seq<Identity>, i: int, rec: Identity)
    requires
        unique_addresses(s),
        0 <= i < s.len(),
        rec.user_address == s[i].user_address,
    ensures
        entries_map(s.update(i, rec)) == entries_map(s).insert(rec.user_address, rec@),
        unique_addresses(s.update(i, rec)),
    decreases s.len(),
{
    let t = s.update(i, rec);
    assert(forall|j: int| 0 <= j < s.len() && j != i ==> t[j] == s[j]);
    if i == s.len() - 1 {
        assert(t.drop_last() =~= s.drop_last());
        assert(t.last() == rec);
        assert(entries_map(t) =~= entries_map(s).insert(rec.user_address, rec@));
    } else {
        lemma_entries_map_update(s.drop_last(), i, rec);
        assert(t.drop_last() =~= s.drop_last().update(i, rec));
        assert(t.last() == s.last());
        assert(s.last().user_address != rec.user_address);
        assert(entries_map(t) =~= entries_map(s).insert(rec.user_address, rec@));
    }
}

/// The registry's durable storage: the identity records (one entry per
/// address), the global registration counter kept under its own well-known
/// key, and the most recently requested persistence lease. A lease renewal
/// is a side effect on the host's storage lifecycle policy: it keeps the
/// backing region from being garbage-collected, and the registry must
/// request one after every successful mutation.
pub struct PersistentStore {
    entries: Vec<Identity>,
    total: u64,
    lease_min_ttl: u32,
    lease_max_ttl: u32,
}

impl PersistentStore {
    /// The stored records, as a map from address to record.
    pub closed spec fn records(&self) -> Map<Address, RecordView> {
        entries_map(self.entries@)
    }

    /// The value under the well-known total-count key.
    pub closed spec fn total_count(&self) -> u64 {
        self.total
    }

    /// The most recently requested persistence lease, as a pair of the
    /// minimum and maximum extension in ledger entries; `(0, 0)` before
    /// any renewal.
    pub closed spec fn lease(&self) -> (u32, u32) {
        (self.lease_min_ttl, self.lease_max_ttl)
    }

    /// Representation invariant: no two entries claim the same address.
    pub closed spec fn wf(&self) -> bool {
        unique_addresses(self.entries@)
    }

    /// A well-formed store holds finitely many records.
    pub proof fn lemma_records_finite(&self)
        ensures
            self.records().dom().finite(),
    {
        lemma_entries_map_domain(self.entries@);
    }

    /// An empty store: no records, the counter absent (read as zero), no
    /// lease requested yet.
    pub fn new() -> (res: PersistentStore)
        ensures
            res.wf(),
            res.records() == Map::<Address, RecordView>::empty(),
            res.total_count() == 0,
            res.lease() == (0u32, 0u32),
    {
        PersistentStore { entries: Vec::new(), total: 0, lease_min_ttl: 0, lease_max_ttl: 0 }
    }

    /// Looks up the record under `key`, returning a copy, or `None` when
    /// nothing is stored for that address.
    pub fn get_identity(&self, key: &IdentityBook) -> (res: Option<Identity>)
        requires
            self.wf(),
        ensures
            match res {
                Some(rec) => self.records().contains_key(key.addr())
                    && rec@ == self.records()[key.addr()],
                None => !self.records().contains_key(key.addr()),
            },
    {
        let target: Address = match key {
            IdentityBook::Identity(a) => *a,
        };
        let mut i: usize = 0;
        while i < self.entries.len()
            invariant
                self.wf(),
                target == key.addr(),
                i <= self.entries.len(),
                forall|j: int| 0 <= j < i ==> self.entries@[j].user_address != target,
            decreases self.entries.len() - i,
        {
            if self.entries[i].user_address == target {
                proof {
                    lemma_entries_map_index(self.entries@, i as int);
                }
                return Some(self.entries[i].clone());
            }
            i = i + 1;
        }
        proof {
            lemma_entries_map_absent(self.entries@, target);
        }
        None
    }

    /// Stores `rec` under `key`, adding a new entry or overwriting the
    /// existing one for that address. The counter and the lease are
    /// untouched.
    pub fn set_identity(&mut self, key: IdentityBook, rec: Identity)
        requires
            old(self).wf(),
            rec.user_address == key.addr(),
        ensures
            final(self).wf(),
            final(self).records() == old(self).records().insert(key.addr(), rec@),
            final(self).total_count() == old(self).total_count(),
            final(self).lease() == old(self).lease(),
    {
        let mut i: usize = 0;
        while i < self.entries.len()
            invariant
                *self == *old(self),
                rec.user_address == key.addr(),
                old(self).wf(),
                i <= self.entries.len(),
                forall|j: int| 0 <= j < i ==> self.entries@[j].user_address != rec.user_address,
            decreases self.entries.len() - i,
        {
            if self.entries[i].user_address == rec.user_address {
                proof {
                    lemma_entries_map_update(self.entries@, i as int, rec);
                }
                self.entries.set(i, rec);
                return;
            }
            i = i + 1;
        }
        proof {
            lemma_entries_map_push(self.entries@, rec);
        }
        self.entries.push(rec);
    }

    /// Reads the counter under the well-known total-count key.
    pub fn get_total(&self) -> (res: u64)
        ensures
            res == self.total_count(),
    {
        self.total
    }

    /// Writes the counter under the well-known total-count key. The
    /// records and the lease are untouched.
    pub fn set_total(&mut self, value: u64)
        ensures
            final(self).wf() == old(self).wf(),
            final(self).records() == old(self).records(),
            final(self).total_count() == value,
            final(self).lease() == old(self).lease(),
    {
        self.total = value;
    }

    /// Renews the persistence lease on the storage region, asking the host
    /// to extend its time-to-live to at least `min_ttl` and at most
    /// `max_ttl` ledger entries. The records and the counter are untouched.
    pub fn renew_lease(&mut self, min_ttl: u32, max_ttl: u32)
        ensures
            final(self).wf() == old(self).wf(),
            final(self).records() == old(self).records(),
            final(self).total_count() == old(self).total_count(),
            final(self).lease() == (min_ttl, max_ttl),
    {
        self.lease_min_ttl = min_ttl;
        self.lease_max_ttl = max_ttl;
    }
}

} // verus!
