use vstd::prelude::*;

use crate::identity::Address;
use crate::identity::sentinel_view;
use crate::registry::RegistryError;
use crate::registry::RegistryView;
use crate::registry::init_view;
use crate::registry::inv;
use crate::registry::spec_register;
use crate::registry::spec_verify;
use crate::registry::spec_view;

verus! {

/// The arguments of one `verify_identity` call: the authenticated caller,
/// the target address, the authorization verdict, the clock reading.
pub struct VerifyCall {
    pub admin: Address,
    pub user_address: Address,
    pub auth: bool,
    pub now: u64,
}

/// The registry after a sequence of verify calls, applied first to last.
pub open spec fn apply_verifies(s: RegistryView, calls: Seq<VerifyCall>) -> RegistryView
    decreases calls.len(),
{
    if calls.len() == 0 {
        s
    } else {
        spec_verify(
            apply_verifies(s, calls.drop_last()),
            calls.last().admin,
            calls.last().user_address,
            calls.last().auth,
            calls.last().now,
        ).0
    }
}

/// Uniqueness: once an address has registered successfully, a second
/// registration for it — whatever text claims it brings, at whatever later
/// time — aborts with `AlreadyRegistered` and changes nothing: the stored
/// record, the counter and the rest of the registry stay as they were.
pub proof fn lemma_register_unique(
    s: RegistryView,
    user: Address,
    name1: Seq<char>,
    id1: Seq<char>,
    now1: u64,
    name2: Seq<char>,
    id2: Seq<char>,
    now2: u64,
)
    requires
        spec_register(s, user, name1, id1, true, now1).1 == Ok::<bool, RegistryError>(true),
    ensures
        ({
            let s1 = spec_register(s, user, name1, id1, true, now1).0;
            spec_register(s1, user, name2, id2, true, now2) == (
                s1,
                Err::<bool, RegistryError>(RegistryError::AlreadyRegistered),
            )
        }),
{
}

/// Counter monotonicity, registration side: a successful registration
/// raises the counter by exactly one, and a failed one leaves it as it is.
pub proof fn lemma_register_count(
    s: RegistryView,
    user: Address,
    full_name: Seq<char>,
    id_number: Seq<char>,
    auth: bool,
    now: u64,
)
    requires
        s.total < u64::MAX,
    ensures
        ({
            let (s1, r1) = spec_register(s, user, full_name, id_number, auth, now);
            &&& (r1 == Ok::<bool, RegistryError>(true) ==> s1.total == s.total + 1)
            &&& (r1 != Ok::<bool, RegistryError>(true) ==> s1.total == s.total)
        }),
{
}

/// Counter monotonicity, verification side: `verify_identity` never moves
/// the counter, whatever its outcome.
pub proof fn lemma_verify_preserves_count(
    s: RegistryView,
    admin: Address,
    user_address: Address,
    auth: bool,
    now: u64,
)
    ensures
        spec_verify(s, admin, user_address, auth, now).0.total == s.total,
{
}

/// Counter monotonicity over any number of verifications: however many
/// verify calls run — any callers, any targets, any outcomes — the counter
/// stays exactly as it was.
pub proof fn lemma_verifies_preserve_count(s: RegistryView, calls: Seq<VerifyCall>)
    ensures
        apply_verifies(s, calls).total == s.total,
    decreases calls.len(),
{
    if calls.len() > 0 {
        lemma_verifies_preserve_count(s, calls.drop_last());
    }
}

/// The registry invariant holds of the initial registry.
pub proof fn lemma_init_inv()
    ensures
        inv(init_view()),
{
}

/// Registration preserves the registry invariant, whatever its outcome,
/// for any clock reading that is positive (the ledger clock has started)
/// and not before the last one the registry consumed.
pub proof fn lemma_register_preserves_inv(
    s: RegistryView,
    user: Address,
    full_name: Seq<char>,
    id_number: Seq<char>,
    auth: bool,
    now: u64,
)
    requires
        inv(s),
        s.last_time <= now,
        1 <= now,
        s.total < u64::MAX,
    ensures
        inv(spec_register(s, user, full_name, id_number, auth, now).0),
{
}

/// Verification preserves the registry invariant, whatever its outcome,
/// for any clock reading not before the last one the registry consumed.
pub proof fn lemma_verify_preserves_inv(
    s: RegistryView,
    admin: Address,
    user_address: Address,
    auth: bool,
    now: u64,
)
    requires
        inv(s),
        s.last_time <= now,
    ensures
        inv(spec_verify(s, admin, user_address, auth, now).0),
{
}

/// Verification ordering: in a well-formed registry, a verified record
/// carries a verification time no earlier than its registration time.
pub proof fn lemma_verification_ordering(s: RegistryView, user_address: Address)
    requires
        inv(s),
        s.records.contains_key(user_address),
        s.records[user_address].is_verified,
    ensures
        s.records[user_address].verification_time >= s.records[user_address].registration_time,
{
}

/// Idempotent verification: on a registered, not yet verified address the
/// first verification returns `Ok(true)`, and a second — by any caller, at
/// any later time — returns `Ok(false)` and changes nothing, so the
/// registry after both calls is exactly the one after the first.
pub proof fn lemma_verify_idempotent(
    s: RegistryView,
    admin1: Address,
    admin2: Address,
    user_address: Address,
    now1: u64,
    now2: u64,
)
    requires
        s.records.contains_key(user_address),
        !s.records[user_address].is_verified,
    ensures
        ({
            let (s1, r1) = spec_verify(s, admin1, user_address, true, now1);
            let (s2, r2) = spec_verify(s1, admin2, user_address, true, now2);
            &&& r1 == Ok::<bool, RegistryError>(true)
            &&& r2 == Ok::<bool, RegistryError>(false)
            &&& s2 == s1
        }),
{
}

/// Unauthenticated rejection: without a valid authorization proof both
/// mutating operations abort with `Unauthorized` and touch nothing.
pub proof fn lemma_unauthenticated_rejection(
    s: RegistryView,
    user: Address,
    full_name: Seq<char>,
    id_number: Seq<char>,
    now1: u64,
    admin: Address,
    user_address: Address,
    now2: u64,
)
    ensures
        spec_register(s, user, full_name, id_number, false, now1) == (
            s,
            Err::<bool, RegistryError>(RegistryError::Unauthorized),
        ),
        spec_verify(s, admin, user_address, false, now2) == (
            s,
            Err::<bool, RegistryError>(RegistryError::Unauthorized),
        ),
{
}

/// Soft miss: viewing an address with no record reports the sentinel, and
/// never an error.
pub proof fn lemma_view_soft_miss(s: RegistryView, user_address: Address)
    requires
        !s.records.contains_key(user_address),
    ensures
        spec_view(s, user_address) == sentinel_view(user_address),
{
}

} // verus!
