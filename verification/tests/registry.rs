use chat_relay::registry::NameRegistry;

#[test]
fn fresh_registry_is_empty() {
    let r = NameRegistry::new();
    assert_eq!(r.len(), 0);
    assert!(!r.is_claimed("alice"));
}

#[test]
fn claim_inserts_the_name() {
    let mut r = NameRegistry::new();
    assert!(r.try_claim("alice", "127.0.0.1_55001"));
    assert!(r.is_claimed("alice"));
    assert!(!r.is_claimed("127.0.0.1_55001"));
    assert_eq!(r.len(), 1);
}

#[test]
fn second_claim_of_same_name_fails() {
    let mut r = NameRegistry::new();
    assert!(r.try_claim("alice", "127.0.0.1_55001"));
    assert!(!r.try_claim("alice", "127.0.0.1_55002"));
    assert!(r.is_claimed("alice"));
    assert_eq!(r.len(), 1);
}

#[test]
fn claim_gives_up_the_old_name() {
    let mut r = NameRegistry::new();
    assert!(r.try_claim("alice", "127.0.0.1_55001"));
    assert!(r.try_claim("amanda", "alice"));
    assert!(r.is_claimed("amanda"));
    assert!(!r.is_claimed("alice"));
    assert_eq!(r.len(), 1);
    // the vacated name is free again
    assert!(r.try_claim("alice", "127.0.0.1_55002"));
    assert_eq!(r.len(), 2);
}

#[test]
fn failed_claim_keeps_the_old_name() {
    let mut r = NameRegistry::new();
    assert!(r.try_claim("alice", "127.0.0.1_55001"));
    assert!(r.try_claim("bob", "127.0.0.1_55002"));
    assert!(!r.try_claim("alice", "bob"));
    assert!(r.is_claimed("bob"));
    assert!(r.is_claimed("alice"));
    assert_eq!(r.len(), 2);
}

#[test]
fn release_removes_the_name() {
    let mut r = NameRegistry::new();
    assert!(r.try_claim("alice", "127.0.0.1_55001"));
    r.release("alice");
    assert!(!r.is_claimed("alice"));
    assert_eq!(r.len(), 0);
}

#[test]
fn release_twice_equals_release_once() {
    let mut r = NameRegistry::new();
    assert!(r.try_claim("alice", "127.0.0.1_55001"));
    assert!(r.try_claim("bob", "127.0.0.1_55002"));
    r.release("alice");
    let len_after_one = r.len();
    let bob_after_one = r.is_claimed("bob");
    let alice_after_one = r.is_claimed("alice");
    r.release("alice");
    assert_eq!(r.len(), len_after_one);
    assert_eq!(r.is_claimed("bob"), bob_after_one);
    assert_eq!(r.is_claimed("alice"), alice_after_one);
}

#[test]
fn release_of_unclaimed_name_is_a_no_op() {
    let mut r = NameRegistry::new();
    assert!(r.try_claim("alice", "127.0.0.1_55001"));
    r.release("127.0.0.1_55001");
    assert!(r.is_claimed("alice"));
    assert_eq!(r.len(), 1);
}

#[test]
fn released_name_can_be_claimed_again() {
    let mut r = NameRegistry::new();
    assert!(r.try_claim("alice", "127.0.0.1_55001"));
    r.release("alice");
    assert!(r.try_claim("alice", "127.0.0.1_55002"));
    assert!(r.is_claimed("alice"));
}

#[test]
fn uniqueness_witness_runs() {
    let mut r = NameRegistry::new();
    assert!(r.try_claim("alice", "127.0.0.1_55001"));
    assert!(!r.try_claim("alice", "127.0.0.1_55002"));
    r.name_uniqueness();
    assert_eq!(r.len(), 1);
}
