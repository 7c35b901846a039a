use vstd::prelude::*;

verus! {

/// A ledger principal, reduced to the one aspect the registry reads from
/// it: a stable identifier that can be compared for equality. The host
/// environment owns the real address representation and the authorization
/// machinery; the registry only keys records by it.
pub type Address = u64;

/// Mathematical image of one identity record: the text claims as character
/// sequences, everything else as plain values.
pub struct RecordView {
    pub user_address: Address,
    pub full_name: Seq<char>,
    pub id_number: Seq<char>,
    pub is_verified: bool,
    pub registration_time: u64,
    pub verification_time: u64,
}

/// One identity record, as stored per address: the owning address, two
/// opaque text claims (not validated for content), the verification flag,
/// and the two timestamps. `registration_time` is set once at creation;
/// `verification_time` stays 0 until the record is verified.
pub struct Identity {
    pub user_address: Address,
    pub full_name: String,
    pub id_number: String,
    pub is_verified: bool,
    pub registration_time: u64,
    pub verification_time: u64,
}

impl View for Identity {
    type V = RecordView;

    open spec fn view(&self) -> RecordView {
        RecordView {
            user_address: self.user_address,
            full_name: self.full_name@,
            id_number: self.id_number@,
            is_verified: self.is_verified,
            registration_time: self.registration_time,
            verification_time: self.verification_time,
        }
    }
}

impl Clone for Identity {
    fn clone(&self) -> (res: Self)
        ensures
            res@ == self@,
    {
        Identity {
            user_address: self.user_address,
            full_name: self.full_name.clone(),
            id_number: self.id_number.clone(),
            is_verified: self.is_verified,
            registration_time: self.registration_time,
            verification_time: self.verification_time,
        }
    }
}

/// The reserved marker text reported in both text claims of the sentinel
/// record for an address with no stored record.
pub open spec fn not_found_marker() -> Seq<char> {
    "Not_Found"@
}

/// The sentinel record for an unregistered address: marker text claims,
/// unverified, both timestamps zero. Lookups that miss report this record
/// instead of an error; callers tell a miss apart from a genuine record
/// only by the marker text.
pub open spec fn sentinel_view(user_address: Address) -> RecordView {
    RecordView {
        user_address: user_address,
        full_name: not_found_marker(),
        id_number: not_found_marker(),
        is_verified: false,
        registration_time: 0,
        verification_time: 0,
    }
}

/// Builds the sentinel record for `user_address`.
pub fn sentinel_record(user_address: Address) -> (res: Identity)
    ensures
        res@ == sentinel_view(user_address),
{
    Identity {
        user_address: user_address,
        full_name: String::from_str("Not_Found"),
        id_number: String::from_str("Not_Found"),
        is_verified: false,
        registration_time: 0,
        verification_time: 0,
    }
}

} // verus!
