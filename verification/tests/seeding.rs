use justrng::seed::{acquire, from_local, from_system, seed_of_clock, settle, SeedCache};
use justrng::vector::UVec2;
use justrng::{next, next_in_range, rng, Permutation, WyRand};

#[test]
fn a_new_cache_is_empty() {
    let cache = SeedCache::new();
    assert!(!cache.is_seeded());
    assert!(SeedCache::with_seed(0).is_seeded());
}

#[test]
fn a_seeded_cache_draws_the_stream_of_its_seed() {
    let mut cache = SeedCache::with_seed(7);
    assert_eq!(from_local(&mut cache), 0xe21b87e1e24a18c1);
    assert_eq!(from_local(&mut cache), 0xdaf7cca9fc31c738);
    assert_eq!(from_local(&mut cache), 0x62c3f9e67112e858);
    let mut other = SeedCache::with_seed(7);
    let mut plain = WyRand::with_seed(7);
    for _ in 0..20 {
        assert_eq!(from_local(&mut other), plain.next::<u64>());
    }
}

#[test]
fn an_empty_cache_is_seeded_by_its_first_draw() {
    let mut cache = SeedCache::new();
    let first = from_local(&mut cache);
    assert!(cache.is_seeded());
    let second = from_local(&mut cache);
    assert_ne!(first, second);
}

#[test]
fn the_system_always_gives_a_seed() {
    let _: u64 = from_system();
    let (seed, failure) = acquire();
    if failure.is_none() {
        let (again, _) = acquire();
        assert_ne!(seed, again);
    }
}

#[test]
fn the_clock_seed_folds_the_nanoseconds() {
    assert_eq!(seed_of_clock(None), 0);
    assert_eq!(seed_of_clock(Some(0)), 0);
    assert_eq!(seed_of_clock(Some(1730000000123456789)), 0x180231d58cc8cd15);
    assert_eq!(seed_of_clock(Some((5u128 << 64) | 9)), 0xc);
    assert_eq!(seed_of_clock(Some(u128::MAX)), 0);
}

#[test]
fn entropy_is_the_seed_where_there_is_any() {
    assert_eq!(settle(Ok(5), None), (5, None));
    assert_eq!(settle(Ok(u64::MAX), Some(123)), (u64::MAX, None));
    assert_eq!(settle(Ok(0), Some(u128::MAX)), (0, None));
}

#[test]
fn the_clock_stands_in_where_entropy_fails() {
    let failure = getrandom::Error::UNSUPPORTED;
    assert_eq!(settle(Err(failure), Some((5u128 << 64) | 9)), (0xc, Some(failure)));
    assert_eq!(
        settle(Err(failure), Some(1730000000123456789)),
        (0x180231d58cc8cd15, Some(failure))
    );
    assert_eq!(settle(Err(failure), None), (0, Some(failure)));
    let other = getrandom::Error::UNEXPECTED;
    assert_eq!(settle(Err(other), Some(7)), (7, Some(other)));
    assert_ne!(settle(Err(other), Some(7)).1, Some(failure));
}

#[test]
fn free_functions_draw_from_the_cache() {
    let mut cache = SeedCache::with_seed(7);
    assert_eq!(next::<u8>(&mut cache), 193);
    let mut cache = SeedCache::with_seed(7);
    assert_eq!(next::<u32>(&mut cache), 3793455073);
    let mut cache = SeedCache::with_seed(7);
    assert_eq!(next_in_range::<u64>(&mut cache, 0..10), 5);
    assert_eq!(next::<u64>(&mut cache), 0xdaf7cca9fc31c738);
    let mut cache = SeedCache::with_seed(7);
    let v: UVec2 = next(&mut cache);
    assert_eq!(v, UVec2 { x: 0xe24a18c1, y: 0xe21b87e1 });
}

#[test]
fn generators_are_seeded_from_the_cache() {
    let mut cache = SeedCache::with_seed(7);
    let mut first = rng(&mut cache);
    assert_eq!(first.next::<u64>(), 0x7d818abe4ba572ef);
    let mut second = WyRand::with_local_seed(&mut cache);
    assert_eq!(second.next::<u64>(), WyRand::with_seed(0xdaf7cca9fc31c738).next::<u64>());
    let mut third = WyRand::new(&mut cache);
    assert_eq!(third.next::<u64>(), WyRand::with_seed(0x62c3f9e67112e858).next::<u64>());
    let mut empty = SeedCache::new();
    let _ = WyRand::new(&mut empty);
    assert!(empty.is_seeded());
}

#[test]
fn tables_are_seeded_from_the_cache() {
    let mut cache = SeedCache::with_seed(7);
    let perm = Permutation::with_local_seed(&mut cache);
    assert_eq!(&perm.as_bytes()[..4], &[239, 34, 137, 83]);
    assert_eq!(perm.as_bytes(), Permutation::with_seed(0xe21b87e1e24a18c1).as_bytes());
    let next = Permutation::new(&mut cache);
    assert_eq!(next.as_bytes(), Permutation::with_seed(0xdaf7cca9fc31c738).as_bytes());
}

#[test]
fn system_seeded_values_are_valid() {
    let perm = Permutation::with_system_seed();
    let mut seen = [false; 256];
    for &byte in perm.as_bytes() {
        assert!(!seen[byte as usize]);
        seen[byte as usize] = true;
    }
    let padded = perm.as_bytes_padded();
    for i in 0..256 {
        assert_eq!(padded[i], padded[i + 256]);
    }
    let mut a = WyRand::with_system_seed();
    let x: u8 = a.next_in_range(3..9);
    assert!((3..9).contains(&x));
}
