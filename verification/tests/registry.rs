//! Tests of the claim registry: the full create/revoke scenario, every
//! error kind, and concrete instances of the registry's guarantees.

use claim_registry::AccountId;
use claim_registry::Claim;
use claim_registry::Error;
use claim_registry::Event;
use claim_registry::Fingerprint;
use claim_registry::Pallet;

fn account(id: u64) -> AccountId {
    AccountId { id }
}

fn fingerprint(hi: u128, lo: u128) -> Fingerprint {
    Fingerprint { hi, lo }
}

#[test]
fn new_registry_is_empty() {
    let p = Pallet::new();
    assert_eq!(p.claim_count(), 0);
    assert!(!p.contains_claim(fingerprint(0, 0)));
    assert_eq!(p.get_claim(fingerprint(1, 2)), None);
}

#[test]
fn create_claim_stores_owner_and_time() {
    let mut p = Pallet::new();
    let a = account(1);
    let h = fingerprint(10, 20);
    let r = p.create_claim(a, h, 7);
    assert_eq!(r, Ok(Event::ClaimCreated { who: a, claim: h }));
    assert!(p.contains_claim(h));
    assert_eq!(p.get_claim(h), Some(Claim { owner: a, registered_at: 7 }));
    assert_eq!(p.claim_count(), 1);
}

#[test]
fn create_claim_on_claimed_fingerprint_fails() {
    let mut p = Pallet::new();
    let a = account(1);
    let b = account(2);
    let h = fingerprint(3, 4);
    assert!(p.create_claim(a, h, 1).is_ok());
    // Any actor fails, the original owner included.
    assert_eq!(p.create_claim(b, h, 2), Err(Error::AlreadyClaimed));
    assert_eq!(p.create_claim(a, h, 3), Err(Error::AlreadyClaimed));
    // The stored claim is untouched: owner and time are still the first ones.
    assert_eq!(p.get_claim(h), Some(Claim { owner: a, registered_at: 1 }));
    assert_eq!(p.claim_count(), 1);
}

#[test]
fn revoke_claim_by_non_owner_fails() {
    let mut p = Pallet::new();
    let a = account(1);
    let b = account(2);
    let h = fingerprint(5, 6);
    assert!(p.create_claim(a, h, 4).is_ok());
    assert_eq!(p.revoke_claim(b, h), Err(Error::NotClaimOwner));
    // The claim remains present and remains a's.
    assert_eq!(p.get_claim(h), Some(Claim { owner: a, registered_at: 4 }));
    assert_eq!(p.claim_count(), 1);
}

#[test]
fn revoke_claim_on_unclaimed_fingerprint_fails() {
    let mut p = Pallet::new();
    let a = account(1);
    let h = fingerprint(7, 8);
    assert_eq!(p.revoke_claim(a, h), Err(Error::NoSuchClaim));
    // Repeatably: the failure changes nothing, so it fails the same way again.
    assert_eq!(p.revoke_claim(a, h), Err(Error::NoSuchClaim));
    assert_eq!(p.claim_count(), 0);
}

#[test]
fn create_then_revoke_round_trip() {
    let mut p = Pallet::new();
    let a = account(9);
    let h = fingerprint(11, 12);
    assert!(p.create_claim(a, h, 5).is_ok());
    let r = p.revoke_claim(a, h);
    assert_eq!(r, Ok(Event::ClaimRevoked { who: a, claim: h }));
    // Back to the pre-creation state: absent from the registry.
    assert!(!p.contains_claim(h));
    assert_eq!(p.get_claim(h), None);
    assert_eq!(p.claim_count(), 0);
}

#[test]
fn failed_transitions_change_nothing() {
    let mut p = Pallet::new();
    let a = account(1);
    let b = account(2);
    let h1 = fingerprint(1, 1);
    let h2 = fingerprint(2, 2);
    assert!(p.create_claim(a, h1, 1).is_ok());
    assert!(p.create_claim(b, h2, 2).is_ok());

    let before = (p.get_claim(h1), p.get_claim(h2), p.claim_count());
    assert_eq!(p.create_claim(b, h1, 3), Err(Error::AlreadyClaimed));
    assert_eq!(p.revoke_claim(a, h2), Err(Error::NotClaimOwner));
    assert_eq!(p.revoke_claim(a, fingerprint(3, 3)), Err(Error::NoSuchClaim));
    let after = (p.get_claim(h1), p.get_claim(h2), p.claim_count());
    assert_eq!(before, after);
}

#[test]
fn distinct_fingerprints_are_independent() {
    let mut p = Pallet::new();
    let a = account(1);
    let h1 = fingerprint(0, 1);
    let h2 = fingerprint(1, 0);
    assert!(p.create_claim(a, h1, 1).is_ok());
    assert!(!p.contains_claim(h2));
    assert!(p.create_claim(a, h2, 2).is_ok());
    assert_eq!(p.claim_count(), 2);
    assert!(p.revoke_claim(a, h1).is_ok());
    assert!(!p.contains_claim(h1));
    assert_eq!(p.get_claim(h2), Some(Claim { owner: a, registered_at: 2 }));
}

#[test]
fn revoked_fingerprint_can_be_claimed_anew() {
    let mut p = Pallet::new();
    let a = account(1);
    let b = account(2);
    let h = fingerprint(42, 43);
    assert!(p.create_claim(a, h, 1).is_ok());
    assert!(p.revoke_claim(a, h).is_ok());
    // Ownership passes only through revocation and recreation, and the
    // original registration time is lost.
    assert!(p.create_claim(b, h, 9).is_ok());
    assert_eq!(p.get_claim(h), Some(Claim { owner: b, registered_at: 9 }));
}

#[test]
fn full_scenario_two_actors_one_fingerprint() {
    let mut p = Pallet::new();
    let a = account(100);
    let b = account(200);
    let h1 = fingerprint(0xabc, 0xdef);
    let t0: u64 = 1;

    // A creates the claim: success, ClaimCreated, registry = {h1: (a, t0)}.
    assert_eq!(p.create_claim(a, h1, t0), Ok(Event::ClaimCreated { who: a, claim: h1 }));
    assert_eq!(p.get_claim(h1), Some(Claim { owner: a, registered_at: t0 }));
    assert_eq!(p.claim_count(), 1);

    // B tries to create the same claim: AlreadyClaimed, registry unchanged.
    assert_eq!(p.create_claim(b, h1, 2), Err(Error::AlreadyClaimed));
    assert_eq!(p.get_claim(h1), Some(Claim { owner: a, registered_at: t0 }));
    assert_eq!(p.claim_count(), 1);

    // B tries to revoke it: NotClaimOwner, registry unchanged.
    assert_eq!(p.revoke_claim(b, h1), Err(Error::NotClaimOwner));
    assert_eq!(p.get_claim(h1), Some(Claim { owner: a, registered_at: t0 }));
    assert_eq!(p.claim_count(), 1);

    // A revokes it: success, ClaimRevoked, registry = {}.
    assert_eq!(p.revoke_claim(a, h1), Ok(Event::ClaimRevoked { who: a, claim: h1 }));
    assert!(!p.contains_claim(h1));
    assert_eq!(p.claim_count(), 0);

    // A revokes it again: NoSuchClaim.
    assert_eq!(p.revoke_claim(a, h1), Err(Error::NoSuchClaim));
}

#[test]
fn fingerprint_equality_is_exact() {
    let mut p = Pallet::new();
    let a = account(1);
    // The two words are both part of the key: differing in either word is a
    // different fingerprint.
    let h = fingerprint(1, 2);
    assert!(p.create_claim(a, h, 1).is_ok());
    assert!(!p.contains_claim(fingerprint(2, 1)));
    assert!(!p.contains_claim(fingerprint(1, 3)));
    assert!(p.contains_claim(fingerprint(1, 2)));
}
