//! A proof-of-existence claim registry: a deterministic state machine in
//! which an identified actor may register a content fingerprint as claimed
//! by them at a point in logical time, and the owner — and only the owner —
//! may later revoke that claim.
//!
//! The data model lives in [`types`], the keyed store from fingerprints to
//! claims in [`storage`], the two state transitions and their error
//! taxonomy in [`pallet`], and the global guarantees of the state machine
//! are stated and proved in [`laws`].

pub mod laws;
pub mod pallet;
pub mod storage;
pub mod types;

pub use pallet::Pallet;
pub use storage::Registry;
pub use types::AccountId;
pub use types::BlockNumber;
pub use types::Claim;
pub use types::Error;
pub use types::Event;
pub use types::Fingerprint;
