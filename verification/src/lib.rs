//! A verified on-ledger identity registry.
//!
//! An entity registers an identity claim for an address it controls; a
//! separately authenticated party later marks the claim verified. The
//! registry is a deterministic state machine over a persistent key-value
//! store plus one global counter. The host environment supplies the
//! authorization proofs, the (non-decreasing) ledger clock and the durable
//! storage backend; this crate holds the state machine itself, with its
//! invariants: one record per address, a counter equal to the number of
//! records, verification timestamps never before registration, and
//! all-or-nothing updates.

pub mod identity;
pub mod laws;
pub mod registry;
pub mod store;

pub use identity::Address;
pub use identity::Identity;
pub use identity::RecordView;
pub use registry::DigitalIdentityContract;
pub use registry::RegistryError;
pub use store::IdentityBook;
pub use store::PersistentStore;
