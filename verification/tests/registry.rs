use identity_registry::registry::decide_register;
use identity_registry::registry::decide_verify;
use identity_registry::DigitalIdentityContract;
use identity_registry::Identity;
use identity_registry::IdentityBook;
use identity_registry::PersistentStore;
use identity_registry::RegistryError;

fn name(s: &str) -> String {
    s.to_string()
}

#[test]
fn test_register_and_verify() {
    let mut registry = DigitalIdentityContract::new();
    let user: u64 = 1;
    let admin: u64 = 2;

    let result = registry.register_identity(user, name("John Doe"), name("ID123456"), true, 10);
    assert_eq!(result, Ok(true));

    let verify_result = registry.verify_identity(admin, user, true, 20);
    assert_eq!(verify_result, Ok(true));

    let total = registry.get_total_identities();
    assert_eq!(total, 1);
}

#[test]
fn test_full_lifecycle() {
    let mut registry = DigitalIdentityContract::new();
    let user: u64 = 41;
    let admin: u64 = 77;

    assert_eq!(
        registry.register_identity(user, name("John Doe"), name("ID123456"), true, 100),
        Ok(true)
    );
    let record = registry.view_identity(user);
    assert_eq!(record.user_address, user);
    assert_eq!(record.full_name, "John Doe");
    assert_eq!(record.id_number, "ID123456");
    assert!(!record.is_verified);
    assert_eq!(record.registration_time, 100);
    assert_eq!(record.verification_time, 0);
    assert_eq!(registry.get_total_identities(), 1);

    assert_eq!(registry.verify_identity(admin, user, true, 150), Ok(true));
    let record = registry.view_identity(user);
    assert!(record.is_verified);
    assert_eq!(record.verification_time, 150);
    assert_eq!(record.registration_time, 100);

    assert_eq!(registry.verify_identity(admin, user, true, 160), Ok(false));
    let record = registry.view_identity(user);
    assert!(record.is_verified);
    assert_eq!(record.verification_time, 150);

    assert_eq!(
        registry.register_identity(user, name("Someone Else"), name("ID999"), true, 170),
        Err(RegistryError::AlreadyRegistered)
    );
    assert_eq!(registry.get_total_identities(), 1);
}

#[test]
fn test_duplicate_registration_changes_nothing() {
    let mut registry = DigitalIdentityContract::new();
    let user: u64 = 5;

    assert_eq!(registry.register_identity(user, name("First"), name("A-1"), true, 30), Ok(true));
    assert_eq!(
        registry.register_identity(user, name("Second"), name("B-2"), true, 40),
        Err(RegistryError::AlreadyRegistered)
    );

    let record = registry.view_identity(user);
    assert_eq!(record.full_name, "First");
    assert_eq!(record.id_number, "A-1");
    assert_eq!(record.registration_time, 30);
    assert_eq!(registry.get_total_identities(), 1);
}

#[test]
fn test_counter_counts_registrations_only() {
    let mut registry = DigitalIdentityContract::new();
    assert_eq!(registry.get_total_identities(), 0);

    assert_eq!(registry.register_identity(11, name("A"), name("1"), true, 5), Ok(true));
    assert_eq!(registry.get_total_identities(), 1);

    assert_eq!(registry.register_identity(12, name("B"), name("2"), true, 6), Ok(true));
    assert_eq!(registry.get_total_identities(), 2);

    assert_eq!(registry.verify_identity(99, 11, true, 7), Ok(true));
    assert_eq!(registry.verify_identity(99, 11, true, 8), Ok(false));
    assert_eq!(registry.verify_identity(99, 12, true, 9), Ok(true));
    assert_eq!(registry.get_total_identities(), 2);
}

#[test]
fn test_verification_never_precedes_registration() {
    let mut registry = DigitalIdentityContract::new();
    assert_eq!(registry.register_identity(3, name("C"), name("3"), true, 100), Ok(true));
    assert_eq!(registry.verify_identity(4, 3, true, 150), Ok(true));
    let record = registry.view_identity(3);
    assert!(record.verification_time >= record.registration_time);

    // The clock may stand still between the two operations.
    assert_eq!(registry.register_identity(8, name("D"), name("4"), true, 200), Ok(true));
    assert_eq!(registry.verify_identity(4, 8, true, 200), Ok(true));
    let record = registry.view_identity(8);
    assert_eq!(record.registration_time, 200);
    assert_eq!(record.verification_time, 200);
}

#[test]
fn test_verify_idempotent() {
    let mut registry = DigitalIdentityContract::new();
    assert_eq!(registry.register_identity(21, name("E"), name("5"), true, 50), Ok(true));

    assert_eq!(registry.verify_identity(22, 21, true, 60), Ok(true));
    let after_first = registry.view_identity(21);

    assert_eq!(registry.verify_identity(23, 21, true, 70), Ok(false));
    let after_second = registry.view_identity(21);

    assert_eq!(after_second.user_address, after_first.user_address);
    assert_eq!(after_second.full_name, after_first.full_name);
    assert_eq!(after_second.id_number, after_first.id_number);
    assert_eq!(after_second.is_verified, after_first.is_verified);
    assert_eq!(after_second.registration_time, after_first.registration_time);
    assert_eq!(after_second.verification_time, after_first.verification_time);
    assert_eq!(registry.get_total_identities(), 1);
}

#[test]
fn test_unauthenticated_register_rejected() {
    let mut registry = DigitalIdentityContract::new();
    assert_eq!(
        registry.register_identity(31, name("F"), name("6"), false, 80),
        Err(RegistryError::Unauthorized)
    );
    assert_eq!(registry.get_total_identities(), 0);
    let record = registry.view_identity(31);
    assert_eq!(record.full_name, "Not_Found");
}

#[test]
fn test_unauthenticated_verify_rejected() {
    let mut registry = DigitalIdentityContract::new();
    assert_eq!(registry.register_identity(32, name("G"), name("7"), true, 80), Ok(true));
    assert_eq!(registry.verify_identity(33, 32, false, 90), Err(RegistryError::Unauthorized));
    let record = registry.view_identity(32);
    assert!(!record.is_verified);
    assert_eq!(record.verification_time, 0);
    assert_eq!(registry.get_total_identities(), 1);
}

#[test]
fn test_view_soft_miss() {
    let registry = DigitalIdentityContract::new();
    let record = registry.view_identity(1234);
    assert_eq!(record.user_address, 1234);
    assert_eq!(record.full_name, "Not_Found");
    assert_eq!(record.id_number, "Not_Found");
    assert!(!record.is_verified);
    assert_eq!(record.registration_time, 0);
    assert_eq!(record.verification_time, 0);
}

#[test]
fn test_verify_missing_record() {
    let mut registry = DigitalIdentityContract::new();
    assert_eq!(registry.verify_identity(1, 2, true, 10), Err(RegistryError::RecordNotFound));
    assert_eq!(registry.get_total_identities(), 0);
}

#[test]
fn test_empty_claims_accepted() {
    let mut registry = DigitalIdentityContract::new();
    assert_eq!(registry.register_identity(44, name(""), name(""), true, 1), Ok(true));
    let record = registry.view_identity(44);
    assert_eq!(record.full_name, "");
    assert_eq!(record.id_number, "");
    assert_eq!(record.registration_time, 1);
}

#[test]
fn test_register_at_latest_time() {
    let mut registry = DigitalIdentityContract::new();
    assert_eq!(registry.register_identity(45, name("H"), name("8"), true, u64::MAX), Ok(true));
    let record = registry.view_identity(45);
    assert_eq!(record.registration_time, u64::MAX);
    assert_eq!(registry.verify_identity(46, 45, true, u64::MAX), Ok(true));
    assert_eq!(registry.view_identity(45).verification_time, u64::MAX);
}

#[test]
fn test_store_get_set() {
    let mut store = PersistentStore::new();
    let key = IdentityBook::Identity(9);
    assert!(store.get_identity(&key).is_none());

    store.set_identity(
        key,
        Identity {
            user_address: 9,
            full_name: name("I"),
            id_number: name("9"),
            is_verified: false,
            registration_time: 3,
            verification_time: 0,
        },
    );
    let stored = store.get_identity(&key).unwrap();
    assert_eq!(stored.full_name, "I");
    assert_eq!(stored.registration_time, 3);
    assert!(store.get_identity(&IdentityBook::Identity(10)).is_none());

    store.set_identity(
        key,
        Identity {
            user_address: 9,
            full_name: name("I2"),
            id_number: name("9b"),
            is_verified: true,
            registration_time: 3,
            verification_time: 4,
        },
    );
    let stored = store.get_identity(&key).unwrap();
    assert_eq!(stored.full_name, "I2");
    assert!(stored.is_verified);

    assert_eq!(store.get_total(), 0);
    store.set_total(17);
    assert_eq!(store.get_total(), 17);
    store.renew_lease(5000, 5000);
}

#[test]
fn test_decide_register_outcomes() {
    let ok = decide_register(51, name("J"), name("10"), false, 4, true, 90);
    let (record, new_total) = ok.unwrap();
    assert_eq!(record.user_address, 51);
    assert_eq!(record.full_name, "J");
    assert!(!record.is_verified);
    assert_eq!(record.registration_time, 90);
    assert_eq!(record.verification_time, 0);
    assert_eq!(new_total, 5);

    assert!(matches!(
        decide_register(51, name("J"), name("10"), true, 5, true, 91),
        Err(RegistryError::AlreadyRegistered)
    ));
    assert!(matches!(
        decide_register(51, name("J"), name("10"), false, 5, false, 92),
        Err(RegistryError::Unauthorized)
    ));
}

#[test]
fn test_decide_verify_outcomes() {
    let unverified = Identity {
        user_address: 61,
        full_name: name("K"),
        id_number: name("11"),
        is_verified: false,
        registration_time: 7,
        verification_time: 0,
    };
    let updated = decide_verify(Some(&unverified), true, 12).unwrap().unwrap();
    assert!(updated.is_verified);
    assert_eq!(updated.verification_time, 12);
    assert_eq!(updated.registration_time, 7);
    assert_eq!(updated.full_name, "K");

    assert!(matches!(decide_verify(Some(&updated), true, 13), Ok(None)));
    assert!(matches!(decide_verify(None, true, 14), Err(RegistryError::RecordNotFound)));
    assert!(matches!(
        decide_verify(Some(&unverified), false, 15),
        Err(RegistryError::Unauthorized)
    ));
}
