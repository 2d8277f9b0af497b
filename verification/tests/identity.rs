use std::collections::HashSet;

use tensor_identity::IdentityAllocator;
use tensor_identity::TensorId;

#[test]
fn sequential_allocations_are_pairwise_distinct() {
    let mut allocator = IdentityAllocator::new();
    let mut seen: HashSet<TensorId> = HashSet::new();
    let total: usize = 1_000_000;
    let mut k: usize = 0;
    while k < total {
        let id = TensorId::new(&mut allocator);
        assert!(seen.insert(id), "duplicate identifier after {} allocations", k);
        k += 1;
    }
    assert_eq!(seen.len(), total);
}

#[test]
fn copy_is_equal_and_fresh_allocation_is_not() {
    let mut allocator = IdentityAllocator::new();
    let a = TensorId::new(&mut allocator);
    let b = a;
    let c = TensorId::new(&mut allocator);
    assert_eq!(a, b);
    assert_ne!(a, c);
    assert_ne!(b, c);
}

#[test]
fn identifiers_are_not_reused_after_carriers_are_dropped() {
    let mut allocator = IdentityAllocator::new();
    let mut seen: HashSet<TensorId> = HashSet::new();
    {
        let mut first_batch: Vec<TensorId> = Vec::new();
        let mut k: usize = 0;
        while k < 1000 {
            first_batch.push(TensorId::new(&mut allocator));
            k += 1;
        }
        for id in &first_batch {
            assert!(seen.insert(*id));
        }
    }
    let mut k: usize = 0;
    while k < 1000 {
        let id = TensorId::new(&mut allocator);
        assert!(seen.insert(id), "identifier from the dropped batch was returned again");
        k += 1;
    }
    assert_eq!(seen.len(), 2000);
}

#[test]
fn scrambled_interleaving_of_callers_yields_no_duplicate() {
    // Eight logical callers take turns in a scrambled order driven by a
    // fixed linear congruential sequence; whatever the order, every
    // identifier handed out is fresh.
    let mut allocator = IdentityAllocator::new();
    let callers: usize = 8;
    let rounds: usize = 4000;
    let mut per_caller: Vec<Vec<TensorId>> = vec![Vec::new(); callers];
    let mut state: u64 = 0x2545_F491_4F6C_DD1D;
    let mut k: usize = 0;
    while k < rounds {
        state = state.wrapping_mul(6364136223846793005).wrapping_add(1442695040888963407);
        let caller = (state >> 33) as usize % callers;
        per_caller[caller].push(TensorId::new(&mut allocator));
        k += 1;
    }
    let mut seen: HashSet<TensorId> = HashSet::new();
    for ids in &per_caller {
        for id in ids {
            assert!(seen.insert(*id), "an interleaving produced a duplicate identifier");
        }
    }
    assert_eq!(seen.len(), rounds);
}

#[test]
fn fresh_allocator_has_capacity() {
    let mut allocator = IdentityAllocator::new();
    assert!(allocator.has_capacity());
    let _ = TensorId::new(&mut allocator);
    assert!(allocator.has_capacity());
}

#[test]
fn allocate_and_new_draw_from_the_same_counter() {
    let mut allocator = IdentityAllocator::new();
    let a = allocator.allocate();
    let b = TensorId::new(&mut allocator);
    let c = allocator.allocate();
    assert_ne!(a, b);
    assert_ne!(b, c);
    assert_ne!(a, c);
}
