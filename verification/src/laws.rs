//! The guarantees of the claim-registry state machine, stated over the spec
//! transition functions of [`crate::pallet`] and proved for every registry
//! state and every input. Since `create_claim` and `revoke_claim` pin their
//! result and their final state to exactly those functions, each lemma here
//! holds of any sequence of calls on a [`crate::pallet::Pallet`].

use vstd::prelude::*;

use crate::pallet::create_claim_next;
use crate::pallet::create_claim_result;
use crate::pallet::revoke_claim_next;
use crate::pallet::revoke_claim_result;
use crate::types::AccountId;
use crate::types::BlockNumber;
use crate::types::Claim;
use crate::types::Error;
use crate::types::Event;
use crate::types::Fingerprint;

verus! {

/// Uniqueness: after `a` successfully creates a claim on `f`, a later
/// attempt to create a claim on `f` — by any actor `b`, at any time — fails
/// with `AlreadyClaimed` and leaves the registry unchanged, so the claim on
/// `f` still belongs to `a`.
pub proof fn lemma_create_claim_unique(
    registry: Map<Fingerprint, Claim>,
    a: AccountId,
    b: AccountId,
    f: Fingerprint,
    t0: BlockNumber,
    t1: BlockNumber,
)
    requires
        create_claim_result(registry, a, f, t0) is Ok,
    ensures
        ({
            let next = create_claim_next(registry, a, f, t0);
            &&& next.contains_key(f)
            &&& next[f].owner == a
            &&& create_claim_result(next, b, f, t1) == Result::<Event, Error>::Err(
                Error::AlreadyClaimed,
            )
            &&& create_claim_next(next, b, f, t1) == next
        }),
{
}

/// Owner-exclusive revocation: while `f` is claimed by `a`, a revocation by
/// any other actor `b` fails with `NotClaimOwner` and changes nothing, so
/// the claim stays present and stays `a`'s.
pub proof fn lemma_revoke_claim_owner_exclusive(
    registry: Map<Fingerprint, Claim>,
    a: AccountId,
    b: AccountId,
    f: Fingerprint,
)
    requires
        registry.contains_key(f),
        registry[f].owner == a,
        b != a,
    ensures
        revoke_claim_result(registry, b, f) == Result::<Event, Error>::Err(Error::NotClaimOwner),
        revoke_claim_next(registry, b, f) == registry,
        revoke_claim_next(registry, b, f).contains_key(f),
        revoke_claim_next(registry, b, f)[f].owner == a,
{
}

/// Round-trip: on a registry where `f` is unclaimed, `a` creating and then
/// revoking a claim on `f` both succeed and return the registry to exactly
/// its starting state.
pub proof fn lemma_create_revoke_round_trip(
    registry: Map<Fingerprint, Claim>,
    a: AccountId,
    f: Fingerprint,
    t: BlockNumber,
)
    requires
        !registry.contains_key(f),
    ensures
        ({
            let created = create_claim_next(registry, a, f, t);
            &&& create_claim_result(registry, a, f, t) is Ok
            &&& revoke_claim_result(created, a, f) is Ok
            &&& revoke_claim_next(created, a, f) == registry
        }),
{
    let created = create_claim_next(registry, a, f, t);
    assert(created.remove(f) =~= registry);
}

/// No-op on failure: a `create_claim` that returns any error leaves the
/// registry exactly as it was. No event exists on this path — the only
/// event of a transition is the one carried inside an `Ok` result.
pub proof fn lemma_create_claim_failure_no_op(
    registry: Map<Fingerprint, Claim>,
    who: AccountId,
    f: Fingerprint,
    now: BlockNumber,
)
    requires
        create_claim_result(registry, who, f, now) is Err,
    ensures
        create_claim_next(registry, who, f, now) == registry,
{
}

/// No-op on failure: a `revoke_claim` that returns any error — whichever of
/// its error kinds — leaves the registry exactly as it was, and emits no
/// event.
pub proof fn lemma_revoke_claim_failure_no_op(
    registry: Map<Fingerprint, Claim>,
    who: AccountId,
    f: Fingerprint,
)
    requires
        revoke_claim_result(registry, who, f) is Err,
    ensures
        revoke_claim_next(registry, who, f) == registry,
{
}

/// Idempotent failure: revoking an unclaimed `f` fails with `NoSuchClaim`
/// and changes nothing, and therefore keeps failing the same way however
/// often it is repeated.
pub proof fn lemma_revoke_claim_unclaimed_idempotent(
    registry: Map<Fingerprint, Claim>,
    who: AccountId,
    f: Fingerprint,
)
    requires
        !registry.contains_key(f),
    ensures
        revoke_claim_result(registry, who, f) == Result::<Event, Error>::Err(Error::NoSuchClaim),
        revoke_claim_next(registry, who, f) == registry,
        revoke_claim_result(revoke_claim_next(registry, who, f), who, f) == Result::<
            Event,
            Error,
        >::Err(Error::NoSuchClaim),
{
}

} // verus!
