//! The data model: actors, logical time, fingerprints, claims, and the
//! events and errors that the two state transitions can produce.

use vstd::prelude::*;

verus! {

/// Identity of an actor, as resolved by the host's identity oracle before a
/// transition runs. Two identities are the same actor exactly when they are
/// equal.
#[derive(Clone, Copy, PartialEq, Eq, Structural, Debug)]
pub struct AccountId {
    pub id: u64,
}

/// The value of the host's monotone logical clock (for instance a block
/// height). It is recorded on a claim for information only; no transition
/// compares clock values.
pub type BlockNumber = u64;

/// An opaque fixed-size content hash, 256 bits held as two words. It is the
/// key of the registry; equality is exact equality of the words, with no
/// normalization.
#[derive(Clone, Copy, PartialEq, Eq, Structural, Debug)]
pub struct Fingerprint {
    pub hi: u128,
    pub lo: u128,
}

/// The record stored for a claimed fingerprint: who created the claim and
/// the logical time at which they did. Both fields are immutable for as long
/// as the claim exists.
#[derive(Clone, Copy, PartialEq, Eq, Structural, Debug)]
pub struct Claim {
    pub owner: AccountId,
    pub registered_at: BlockNumber,
}

/// The ways a transition can fail. Every failure leaves the registry exactly
/// as it was and produces no event.
#[derive(Clone, Copy, PartialEq, Eq, Structural, Debug)]
pub enum Error {
    /// A claim on the fingerprint already exists, so it cannot be created.
    AlreadyClaimed,
    /// No claim on the fingerprint exists, so it cannot be revoked.
    NoSuchClaim,
    /// The claim is owned by another account, so the caller cannot revoke it.
    NotClaimOwner,
}

/// The event a successful transition hands to the host's event sink. A
/// failed transition emits nothing.
#[derive(Clone, Copy, PartialEq, Eq, Structural, Debug)]
pub enum Event {
    /// A claim has been created.
    ClaimCreated { who: AccountId, claim: Fingerprint },
    /// A claim has been revoked by its owner.
    ClaimRevoked { who: AccountId, claim: Fingerprint },
}

} // verus!
