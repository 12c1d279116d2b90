use generativity::create_scope;
use generativity::mint_handles;
use generativity::try_create_scope;
use generativity::with_scope;
use generativity::Allocator;
use generativity::Id;

#[test]
fn dont_error_in_general() {
    let mut alloc = Allocator::new();
    let a = create_scope(&mut alloc);
    let b = create_scope(&mut alloc);
    assert_eq!(a, a);
    assert_eq!(b, b);
}

#[test]
fn two_scopes_never_confused() {
    let mut alloc = Allocator::new();
    let a = create_scope(&mut alloc);
    let a1 = a.handle();
    let a2 = a.handle();
    assert_eq!(a1, a2);
    let b = create_scope(&mut alloc);
    let b1 = b.handle();
    assert_ne!(a1, b1);
    assert_ne!(a2, b1);
}

#[test]
fn handles_outlive_scope() {
    let mut alloc = Allocator::new();
    let (a1, a2) = {
        let a = create_scope(&mut alloc);
        (a.handle(), a.handle())
    };
    // Scope A has ended; its handles remain usable and equal.
    assert_eq!(a1, a2);
    let b = create_scope(&mut alloc);
    assert_ne!(a1, b.handle());
}

#[test]
fn n_scopes_pairwise_distinct() {
    let mut alloc = Allocator::new();
    let mut handles: Vec<Id> = Vec::new();
    for _ in 0..32 {
        let g = create_scope(&mut alloc);
        handles.push(g.handle());
    }
    for i in 0..handles.len() {
        for j in 0..handles.len() {
            if i == j {
                assert_eq!(handles[i], handles[j]);
            } else {
                assert_ne!(handles[i], handles[j]);
            }
        }
    }
}

#[test]
fn equality_is_an_equivalence() {
    let mut alloc = Allocator::new();
    let g = create_scope(&mut alloc);
    let a = g.handle();
    let b = g.handle();
    let c = g.handle();
    // Reflexive.
    assert_eq!(a, a);
    // Symmetric.
    assert_eq!(a, b);
    assert_eq!(b, a);
    // Transitive.
    assert_eq!(a, b);
    assert_eq!(b, c);
    assert_eq!(a, c);
    // And it distinguishes: a different event's handle is not equal.
    let other = create_scope(&mut alloc).handle();
    assert_ne!(a, other);
    assert_ne!(other, a);
}

#[test]
fn many_handles_one_guard_in_any_order() {
    let mut alloc = Allocator::new();
    let g = create_scope(&mut alloc);
    let mut handles: Vec<Id> = Vec::new();
    for _ in 0..8 {
        handles.push(g.handle());
    }
    handles.reverse();
    handles.push(g.handle());
    let first = handles[0];
    for h in &handles {
        assert_eq!(*h, first);
    }
    // The consuming conversion agrees with every derived handle.
    let converted: Id = g.into();
    assert_eq!(converted, first);
}

#[test]
fn mint_returns_consecutive_fresh_identifiers() {
    let mut alloc = Allocator::new();
    assert_eq!(alloc.mint(), 0);
    assert_eq!(alloc.mint(), 1);
    assert_eq!(alloc.mint(), 2);
    assert_eq!(alloc.remaining(), u64::MAX - 3);
    assert!(!alloc.is_exhausted());
}

#[test]
fn try_mint_refuses_when_exhausted() {
    let mut alloc = Allocator::with_capacity(2);
    assert_eq!(alloc.try_mint(), Some(0));
    assert_eq!(alloc.try_mint(), Some(1));
    assert!(alloc.is_exhausted());
    assert_eq!(alloc.remaining(), 0);
    assert_eq!(alloc.try_mint(), None);
    assert_eq!(alloc.try_mint(), None);
}

#[test]
fn narrow_counter_exhausts_without_reuse() {
    // An 8-bit-wide identifier space: 256 minting events, then refusal.
    let mut alloc = Allocator::with_capacity(256);
    let mut handles: Vec<Id> = Vec::new();
    for _ in 0..256 {
        let g = try_create_scope(&mut alloc).expect("space not yet exhausted");
        handles.push(g.handle());
    }
    // Exhaustion is a refusal, never a reused identifier.
    assert!(alloc.is_exhausted());
    assert!(try_create_scope(&mut alloc).is_none());
    let unique: std::collections::HashSet<Id> = handles.iter().copied().collect();
    assert_eq!(unique.len(), 256);
}

#[test]
fn mint_handles_yields_distinct_handles() {
    let mut alloc = Allocator::new();
    let first = mint_handles(&mut alloc, 10);
    let second = mint_handles(&mut alloc, 10);
    assert_eq!(first.len(), 10);
    assert_eq!(second.len(), 10);
    let mut all: Vec<Id> = first.clone();
    all.extend(second.iter().copied());
    for i in 0..all.len() {
        for j in 0..all.len() {
            if i != j {
                assert_ne!(all[i], all[j]);
            }
        }
    }
}

#[test]
fn ordering_and_hashing_follow_identity() {
    let mut alloc = Allocator::new();
    let a = create_scope(&mut alloc).handle();
    let b = create_scope(&mut alloc).handle();
    // Ordering is total and consistent with equality.
    assert!(a < b || b < a);
    assert_eq!(a.cmp(&a), std::cmp::Ordering::Equal);
    // Equal handles hash alike: a set keyed by handles deduplicates them.
    let mut set = std::collections::HashSet::new();
    set.insert(a);
    set.insert(a);
    set.insert(b);
    assert_eq!(set.len(), 2);
}

#[test]
fn with_scope_hands_each_callback_a_fresh_event() {
    let mut alloc = Allocator::new();
    let h1 = with_scope(&mut alloc, |g| g.handle());
    let h2 = with_scope(&mut alloc, |g| g.handle());
    assert_ne!(h1, h2);
    assert_eq!(h1, h1);
    // Handles escape the callback freely; the guard's scope was the callback.
    let h3 = with_scope(&mut alloc, |g| {
        let a = g.handle();
        let b = g.handle();
        assert_eq!(a, b);
        a
    });
    assert_ne!(h3, h1);
    assert_ne!(h3, h2);
}

#[test]
fn try_create_scope_succeeds_while_capacity_remains() {
    let mut alloc = Allocator::with_capacity(1);
    let g = try_create_scope(&mut alloc).expect("one event fits");
    let h = g.handle();
    assert_eq!(h, h);
    assert!(try_create_scope(&mut alloc).is_none());
    // The refused call left the allocator unchanged.
    assert_eq!(alloc.remaining(), 0);
}
