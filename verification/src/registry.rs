use vstd::prelude::*;

use crate::identity::Address;
use crate::identity::Identity;
use crate::identity::RecordView;
use crate::identity::sentinel_record;
use crate::identity::sentinel_view;
use crate::store::IdentityBook;
use crate::store::PersistentStore;

verus! {

/// Number of ledger entries by which every successful mutation extends the
/// persistence lease of the storage region (used for both the minimum and
/// the maximum extension).
pub const LEASE_TTL: u32 = 5000;

/// Why an operation aborted. Every abort is transactional: the registry is
/// left exactly as it was.
#[derive(Clone, Copy, Debug, PartialEq, Eq, Structural)]
pub enum RegistryError {
    /// The caller did not supply a valid authorization proof.
    Unauthorized,
    /// `register_identity` was called for an address that already has a
    /// record.
    AlreadyRegistered,
    /// `verify_identity` was called for an address with no record.
    RecordNotFound,
}

/// Mathematical image of the whole registry.
pub struct RegistryView {
    /// The stored records, one per registered address.
    pub records: Map<Address, RecordView>,
    /// The global registration counter: the number of successful
    /// registrations ever performed.
    pub total: u64,
    /// The latest ledger time the registry has consumed. The host clock is
    /// non-decreasing across invocations, so every reading handed to a
    /// later operation is at least this.
    pub last_time: u64,
    /// The most recently requested persistence lease, as a pair of the
    /// minimum and maximum extension in ledger entries.
    pub lease: (u32, u32),
}

/// The registry invariant: the counter equals the number of stored records
/// (nothing is ever deleted); every record is keyed by its own address,
/// was registered at a positive ledger time no later than the last one
/// consumed, is verified exactly when its verification time is non-zero,
/// and was verified, if at all, no earlier than it was registered.
pub open spec fn inv(s: RegistryView) -> bool {
    &&& s.records.dom().finite()
    &&& s.total == s.records.dom().len()
    &&& forall|a: Address| #[trigger] s.records.contains_key(a) ==> {
        let r = s.records[a];
        &&& r.user_address == a
        &&& 1 <= r.registration_time
        &&& r.registration_time <= s.last_time
        &&& (r.is_verified <==> r.verification_time != 0)
        &&& (r.is_verified ==> r.registration_time <= r.verification_time)
        &&& r.verification_time <= s.last_time
    }
}

/// The registry before any operation: no records, counter zero, no ledger
/// time consumed, no lease requested.
pub open spec fn init_view() -> RegistryView {
    RegistryView {
        records: Map::empty(),
        total: 0,
        last_time: 0,
        lease: (0u32, 0u32),
    }
}

/// The record a successful registration creates at ledger time `now`.
pub open spec fn fresh_record(
    user: Address,
    full_name: Seq<char>,
    id_number: Seq<char>,
    now: u64,
) -> RecordView {
    RecordView {
        user_address: user,
        full_name: full_name,
        id_number: id_number,
        is_verified: false,
        registration_time: now,
        verification_time: 0,
    }
}

/// What `register_identity` does: the registry afterwards, and the result.
/// `auth` stands for the host's verdict on the caller's proof of control
/// of `user`; without it nothing is touched. A duplicate registration
/// aborts, also leaving the registry unchanged. Otherwise the fresh record
/// is inserted, the counter grows by one, and the lease is renewed.
pub open spec fn spec_register(
    s: RegistryView,
    user: Address,
    full_name: Seq<char>,
    id_number: Seq<char>,
    auth: bool,
    now: u64,
) -> (RegistryView, Result<bool, RegistryError>) {
    if !auth {
        (s, Err(RegistryError::Unauthorized))
    } else if s.records.contains_key(user) {
        (s, Err(RegistryError::AlreadyRegistered))
    } else {
        (
            RegistryView {
                records: s.records.insert(user, fresh_record(user, full_name, id_number, now)),
                total: (s.total + 1) as u64,
                last_time: now,
                lease: (LEASE_TTL, LEASE_TTL),
            },
            Ok(true),
        )
    }
}

/// `r` marked verified at ledger time `now`; everything else kept.
pub open spec fn verified_record(r: RecordView, now: u64) -> RecordView {
    RecordView { is_verified: true, verification_time: now, ..r }
}

/// What `verify_identity` does: the registry afterwards, and the result.
/// The outcome does not depend on `admin`: the design grants no separate
/// administrator role, so any caller with a valid authorization proof may
/// verify any record. A missing record aborts; an already verified record
/// is left untouched and reported as `Ok(false)`, not as an error.
/// Otherwise the record is marked verified at `now`, the counter stays as
/// it is, and the lease is renewed.
pub open spec fn spec_verify(
    s: RegistryView,
    admin: Address,
    user_address: Address,
    auth: bool,
    now: u64,
) -> (RegistryView, Result<bool, RegistryError>) {
    if !auth {
        (s, Err(RegistryError::Unauthorized))
    } else if !s.records.contains_key(user_address) {
        (s, Err(RegistryError::RecordNotFound))
    } else if s.records[user_address].is_verified {
        (s, Ok(false))
    } else {
        (
            RegistryView {
                records: s.records.insert(user_address, verified_record(s.records[user_address], now)),
                total: s.total,
                last_time: now,
                lease: (LEASE_TTL, LEASE_TTL),
            },
            Ok(true),
        )
    }
}

/// What `view_identity` reports: the stored record, or the sentinel for an
/// address with no record. Never an error.
pub open spec fn spec_view(s: RegistryView, user_address: Address) -> RecordView {
    if s.records.contains_key(user_address) {
        s.records[user_address]
    } else {
        sentinel_view(user_address)
    }
}

/// The identity registry: a deterministic state machine over the
/// persistent store, plus the latest ledger time it has consumed. The host
/// supplies each operation with its authorization verdict (`auth`) and the
/// current ledger time (`now`); the clock never goes backwards, so `now`
/// is always at least the time recorded here.
pub struct DigitalIdentityContract {
    store: PersistentStore,
    last_time: u64,
}

impl View for DigitalIdentityContract {
    type V = RegistryView;

    closed spec fn view(&self) -> RegistryView {
        RegistryView {
            records: self.store.records(),
            total: self.store.total_count(),
            last_time: self.last_time,
            lease: self.store.lease(),
        }
    }
}

impl DigitalIdentityContract {
    /// Well-formedness: the store's representation invariant, and the
    /// registry invariant over the abstract state.
    pub closed spec fn wf(&self) -> bool {
        &&& self.store.wf()
        &&& inv(self@)
    }

    /// A fresh registry.
    pub fn new() -> (res: DigitalIdentityContract)
        ensures
            res.wf(),
            res@ == init_view(),
    {
        DigitalIdentityContract { store: PersistentStore::new(), last_time: 0 }
    }

    /// Registers an identity for `user` with the two text claims.
    ///
    /// `auth` is the host's verdict on the caller's proof of control of
    /// `user` itself (self-registration only); `now` is the current ledger
    /// time. Without the proof the operation aborts with `Unauthorized`;
    /// if a record already exists it aborts with `AlreadyRegistered`;
    /// either abort leaves the registry unchanged. On success the record
    /// is stored unverified with `registration_time = now`, the counter
    /// grows by exactly one, the lease is renewed, and `Ok(true)` comes
    /// back.
    pub fn register_identity(
        &mut self,
        user: Address,
        full_name: String,
        id_number: String,
        auth: bool,
        now: u64,
    ) -> (result: Result<bool, RegistryError>)
        requires
            old(self).wf(),
            old(self)@.last_time <= now,
            1 <= now,
            old(self)@.total < u64::MAX,
        ensures
            final(self).wf(),
            final(self)@ == spec_register(old(self)@, user, full_name@, id_number@, auth, now).0,
            result == spec_register(old(self)@, user, full_name@, id_number@, auth, now).1,
    {
        if !auth {
            return Err(RegistryError::Unauthorized);
        }
        let key = IdentityBook::Identity(user);
        if self.store.get_identity(&key).is_some() {
            return Err(RegistryError::AlreadyRegistered);
        }
        let record = Identity {
            user_address: user,
            full_name: full_name,
            id_number: id_number,
            is_verified: false,
            registration_time: now,
            verification_time: 0,
        };
        self.store.set_identity(key, record);
        let total = self.store.get_total();
        self.store.set_total(total + 1);
        self.store.renew_lease(LEASE_TTL, LEASE_TTL);
        self.last_time = now;
        proof {
            self.store.lemma_records_finite();
        }
        Ok(true)
    }

    /// Marks the record of `user_address` verified.
    ///
    /// `auth` is the host's verdict on the caller's proof of control of
    /// `admin` (its own address: the design grants no separate
    /// administrator role); `now` is the current ledger time. Without the
    /// proof the operation aborts with `Unauthorized`; with no record for
    /// `user_address` it aborts with `RecordNotFound`; either abort leaves
    /// the registry unchanged. A record already verified is left untouched
    /// and reported as `Ok(false)`. Otherwise the record is marked
    /// verified with `verification_time = now`, the lease is renewed, and
    /// `Ok(true)` comes back; the counter never moves.
    pub fn verify_identity(
        &mut self,
        admin: Address,
        user_address: Address,
        auth: bool,
        now: u64,
    ) -> (result: Result<bool, RegistryError>)
        requires
            old(self).wf(),
            old(self)@.last_time <= now,
        ensures
            final(self).wf(),
            final(self)@ == spec_verify(old(self)@, admin, user_address, auth, now).0,
            result == spec_verify(old(self)@, admin, user_address, auth, now).1,
    {
        if !auth {
            return Err(RegistryError::Unauthorized);
        }
        let key = IdentityBook::Identity(user_address);
        let found = self.store.get_identity(&key);
        match found {
            None => Err(RegistryError::RecordNotFound),
            Some(record) => {
                if record.is_verified {
                    return Ok(false);
                }
                let updated = Identity {
                    user_address: record.user_address,
                    full_name: record.full_name,
                    id_number: record.id_number,
                    is_verified: true,
                    registration_time: record.registration_time,
                    verification_time: now,
                };
                self.store.set_identity(key, updated);
                self.store.renew_lease(LEASE_TTL, LEASE_TTL);
                self.last_time = now;
                proof {
                    self.store.lemma_records_finite();
                }
                Ok(true)
            },
        }
    }

    /// Reports the record stored for `user_address`, or, when none is, the
    /// sentinel record: marker text claims, unverified, both timestamps
    /// zero. A pure read, open to anyone; never an error.
    pub fn view_identity(&self, user_address: Address) -> (result: Identity)
        requires
            self.wf(),
        ensures
            result@ == spec_view(self@, user_address),
    {
        let key = IdentityBook::Identity(user_address);
        match self.store.get_identity(&key) {
            Some(record) => record,
            None => sentinel_record(user_address),
        }
    }

    /// Reports the total number of identities ever registered, zero when
    /// the counter was never written. A pure read.
    pub fn get_total_identities(&self) -> (result: u64)
        ensures
            result == self@.total,
    {
        self.store.get_total()
    }
}

/// Decision core of `register_identity` for a host that keeps the records
/// in its own storage (the methods above keep them in the library's store).
/// From what that storage answered — whether a record for `user` exists —
/// the counter it holds, the authorization verdict and the clock reading,
/// this decides the whole transaction: `Ok` carries the record and the
/// counter the host must write (and success to report); an error is the
/// transactional abort, with nothing to write.
pub fn decide_register(
    user: Address,
    full_name: String,
    id_number: String,
    already_registered: bool,
    total: u64,
    auth: bool,
    now: u64,
) -> (result: Result<(Identity, u64), RegistryError>)
    requires
        total < u64::MAX,
        1 <= now,
    ensures
        (result is Ok) == (auth && !already_registered),
        (match result {
            Ok(p) => p.0@ == fresh_record(user, full_name@, id_number@, now) && p.1 == total + 1,
            Err(e) => e == (if !auth {
                RegistryError::Unauthorized
            } else {
                RegistryError::AlreadyRegistered
            }),
        }),
{
    if !auth {
        return Err(RegistryError::Unauthorized);
    }
    if already_registered {
        return Err(RegistryError::AlreadyRegistered);
    }
    let record = Identity {
        user_address: user,
        full_name: full_name,
        id_number: id_number,
        is_verified: false,
        registration_time: now,
        verification_time: 0,
    };
    Ok((record, total + 1))
}

/// Decision core of `verify_identity` for a host that keeps the records in
/// its own storage. From the record that storage answered for the target
/// address (if any), the authorization verdict and the clock reading, this
/// decides the whole transaction: `Ok(Some(..))` carries the verified
/// record the host must write back (and it reports success);
/// `Ok(None)` says the record was already verified — nothing to write,
/// report `false`, not an error; an error is the transactional abort.
pub fn decide_verify(existing: Option<&Identity>, auth: bool, now: u64) -> (result: Result<
    Option<Identity>,
    RegistryError,
>)
    requires
        1 <= now,
    ensures
        (result is Ok) == (auth && existing is Some),
        (match (result, existing) {
            (Ok(Some(updated)), Some(prev)) => !prev.is_verified && updated@ == verified_record(
                prev@,
                now,
            ),
            (Ok(None), Some(prev)) => prev.is_verified,
            (Err(e), _) => e == (if !auth {
                RegistryError::Unauthorized
            } else {
                RegistryError::RecordNotFound
            }),
            _ => false,
        }),
{
    if !auth {
        return Err(RegistryError::Unauthorized);
    }
    match existing {
        None => Err(RegistryError::RecordNotFound),
        Some(record) => {
            if record.is_verified {
                Ok(None)
            } else {
                let updated = Identity {
                    user_address: record.user_address,
                    full_name: record.full_name.clone(),
                    id_number: record.id_number.clone(),
                    is_verified: true,
                    registration_time: record.registration_time,
                    verification_time: now,
                };
                Ok(Some(updated))
            }
        },
    }
}

} // verus!
