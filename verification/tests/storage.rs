//! Tests of the keyed store underneath the transitions.

use claim_registry::AccountId;
use claim_registry::Claim;
use claim_registry::Fingerprint;
use claim_registry::Registry;

fn key(n: u128) -> Fingerprint {
    Fingerprint { hi: n, lo: n.wrapping_mul(31) }
}

fn claim_by(id: u64, at: u64) -> Claim {
    Claim {
        owner: AccountId { id },
        registered_at: at,
    }
}

#[test]
fn registry_insert_get_remove() {
    let mut r = Registry::new();
    assert_eq!(r.len(), 0);
    assert!(!r.contains_key(key(1)));

    r.insert(key(1), claim_by(10, 100));
    r.insert(key(2), claim_by(20, 200));
    assert_eq!(r.len(), 2);
    assert_eq!(r.get(key(1)), Some(claim_by(10, 100)));
    assert_eq!(r.get(key(2)), Some(claim_by(20, 200)));
    assert_eq!(r.get(key(3)), None);

    r.remove(key(1));
    assert_eq!(r.len(), 1);
    assert!(!r.contains_key(key(1)));
    assert!(r.contains_key(key(2)));
}

#[test]
fn registry_remove_of_absent_key_changes_nothing() {
    let mut r = Registry::new();
    r.insert(key(5), claim_by(1, 1));
    r.remove(key(6));
    assert_eq!(r.len(), 1);
    assert_eq!(r.get(key(5)), Some(claim_by(1, 1)));
}
