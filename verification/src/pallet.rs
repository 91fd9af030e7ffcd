//! The two state transitions of the claim registry, `create_claim` and
//! `revoke_claim`, with the spec-level state machine they implement.
//!
//! Each fingerprint is in one of two states: unclaimed (absent from the
//! registry, the implicit initial state) or claimed by exactly one owner.
//! Creating moves an unclaimed fingerprint to claimed-by-the-requester;
//! revoking, allowed only to the owner, moves it back. A transition either
//! commits fully — mutating the registry and handing back the event for the
//! host's sink — or fails with an [`Error`] and changes nothing.

use vstd::prelude::*;

use crate::storage::Registry;
use crate::types::AccountId;
use crate::types::BlockNumber;
use crate::types::Claim;
use crate::types::Error;
use crate::types::Event;
use crate::types::Fingerprint;

verus! {

/// What `create_claim` returns when the registry holds `registry`: the
/// `ClaimCreated` event if `claim` is unclaimed, `AlreadyClaimed` otherwise.
pub open spec fn create_claim_result(
    registry: Map<Fingerprint, Claim>,
    who: AccountId,
    claim: Fingerprint,
    now: BlockNumber,
) -> Result<Event, Error> {
    if registry.contains_key(claim) {
        Result::Err(Error::AlreadyClaimed)
    } else {
        Result::Ok(Event::ClaimCreated { who, claim })
    }
}

/// The registry after `create_claim`: unchanged on failure, extended by a
/// claim of `who` registered at `now` on success.
pub open spec fn create_claim_next(
    registry: Map<Fingerprint, Claim>,
    who: AccountId,
    claim: Fingerprint,
    now: BlockNumber,
) -> Map<Fingerprint, Claim> {
    if registry.contains_key(claim) {
        registry
    } else {
        registry.insert(claim, Claim { owner: who, registered_at: now })
    }
}

/// What `revoke_claim` returns: `NoSuchClaim` if `claim` is unclaimed,
/// `NotClaimOwner` if it is claimed by someone other than `who`, and the
/// `ClaimRevoked` event if `who` owns it.
pub open spec fn revoke_claim_result(
    registry: Map<Fingerprint, Claim>,
    who: AccountId,
    claim: Fingerprint,
) -> Result<Event, Error> {
    if !registry.contains_key(claim) {
        Result::Err(Error::NoSuchClaim)
    } else if registry[claim].owner != who {
        Result::Err(Error::NotClaimOwner)
    } else {
        Result::Ok(Event::ClaimRevoked { who, claim })
    }
}

/// The registry after `revoke_claim`: the entry for `claim` is gone on
/// success, and nothing changes on failure.
pub open spec fn revoke_claim_next(
    registry: Map<Fingerprint, Claim>,
    who: AccountId,
    claim: Fingerprint,
) -> Map<Fingerprint, Claim> {
    if registry.contains_key(claim) && registry[claim].owner == who {
        registry.remove(claim)
    } else {
        registry
    }
}

/// The claim registry together with its transitions. Its view is the
/// mapping from each claimed fingerprint to the stored [`Claim`].
pub struct Pallet {
    claims: Registry,
}

impl View for Pallet {
    type V = Map<Fingerprint, Claim>;

    closed spec fn view(&self) -> Map<Fingerprint, Claim> {
        self.claims@
    }
}

impl Pallet {
    /// Well-formedness of the underlying store; [`Pallet::new`] establishes
    /// it and both transitions preserve it.
    pub closed spec fn wf(&self) -> bool {
        self.claims.wf()
    }

    /// A registry in which every fingerprint is unclaimed.
    pub fn new() -> (r: Pallet)
        ensures
            r.wf(),
            r@ == Map::<Fingerprint, Claim>::empty(),
    {
        Pallet { claims: Registry::new() }
    }

    /// Register `claim` as owned by `who` at logical time `now`.
    ///
    /// `who` is the requester, already resolved by the host's identity
    /// oracle; `now` is read from the host's logical clock. On success the
    /// claim is stored and the `ClaimCreated` event is returned for the
    /// host's event sink; if the fingerprint is already claimed — by anyone,
    /// `who` included — the call fails with `AlreadyClaimed` and the
    /// registry is untouched.
    pub fn create_claim(&mut self, who: AccountId, claim: Fingerprint, now: BlockNumber) -> (r:
        Result<Event, Error>)
        requires
            old(self).wf(),
        ensures
            final(self).wf(),
            r == create_claim_result(old(self)@, who, claim, now),
            final(self)@ == create_claim_next(old(self)@, who, claim, now),
    {
        if self.claims.contains_key(claim) {
            return Result::Err(Error::AlreadyClaimed);
        }
        self.claims.insert(claim, Claim { owner: who, registered_at: now });
        Result::Ok(Event::ClaimCreated { who, claim })
    }

    /// Revoke the claim `who` holds on `claim`.
    ///
    /// Fails with `NoSuchClaim` if the fingerprint is unclaimed and with
    /// `NotClaimOwner` if the stored owner is not `who`; either failure
    /// leaves the registry untouched. On success the entry is removed and
    /// the `ClaimRevoked` event is returned for the host's event sink.
    pub fn revoke_claim(&mut self, who: AccountId, claim: Fingerprint) -> (r: Result<
        Event,
        Error,
    >)
        requires
            old(self).wf(),
        ensures
            final(self).wf(),
            r == revoke_claim_result(old(self)@, who, claim),
            final(self)@ == revoke_claim_next(old(self)@, who, claim),
    {
        if !self.claims.contains_key(claim) {
            return Result::Err(Error::NoSuchClaim);
        }
        // Re-fetch the stored claim; storage access is treated as fallible,
        // so absence here is its own `NoSuchClaim` path even though it
        // cannot occur after the check above.
        let stored: Claim = match self.claims.get(claim) {
            Option::Some(c) => c,
            Option::None => {
                return Result::Err(Error::NoSuchClaim);
            },
        };
        if stored.owner != who {
            return Result::Err(Error::NotClaimOwner);
        }
        self.claims.remove(claim);
        Result::Ok(Event::ClaimRevoked { who, claim })
    }

    /// Whether `claim` currently carries an active claim.
    pub fn contains_claim(&self, claim: Fingerprint) -> (r: bool)
        ensures
            r == self@.contains_key(claim),
    {
        self.claims.contains_key(claim)
    }

    /// The stored claim on `claim`, if there is one.
    pub fn get_claim(&self, claim: Fingerprint) -> (r: Option<Claim>)
        requires
            self.wf(),
        ensures
            (match r {
                Option::Some(c) => self@.contains_key(claim) && self@[claim] == c,
                Option::None => !self@.contains_key(claim),
            }),
    {
        self.claims.get(claim)
    }

    /// How many fingerprints are currently claimed.
    pub fn claim_count(&self) -> (r: usize)
        requires
            self.wf(),
        ensures
            r as nat == self@.dom().len(),
    {
        self.claims.len()
    }
}

} // verus!
