use rhachis::rand::gradient_noise;
use rhachis::rand::Bound;
use rhachis::rand::Noise;
use rhachis::rand::NoiseError;
use std::collections::HashSet;
use std::time::SystemTime;
use std::time::UNIX_EPOCH;

#[test]
fn seed_42_index_0_is_pinned() {
    let noise = Noise::from_seed(42);
    assert_eq!(noise.get(0), 933_211_791);
    assert_eq!(noise.get(0), 0x379f_ae8f);
}

#[test]
fn seed_42_first_indices_are_pinned() {
    let noise = Noise::from_seed(42);
    assert_eq!(noise.get(1), 3_735_386_339);
    assert_eq!(noise.get(2), 1_765_031_574);
    assert_eq!(noise.get(3), 2_471_885_347);
    assert_eq!(noise.get(4), 3_897_902_398);
}

#[test]
fn values_match_the_published_hash() {
    assert_eq!(Noise::from_seed(0).get(0), 0x2362_f9de);
    assert_eq!(Noise::from_seed(0).get(0xffff_ffff), 0x7629_3b50);
    assert_eq!(Noise::from_seed(0).get(0x8765_4321), 0xf55b_516b);
    assert_eq!(Noise::from_seed(0x5082_edee).get(0x8765_4321), 0x2362_f9de);
}

#[test]
fn from_seed_keeps_the_seed_and_starts_at_zero() {
    let noise = Noise::from_seed(400_000);
    assert_eq!(noise.seed, 400_000);
    assert_eq!(noise.index, 0);
    let last = Noise::from_seed(u32::MAX);
    assert_eq!(last.seed, u32::MAX);
    assert_eq!(last.index, 0);
}

#[test]
fn same_seed_gives_same_values() {
    for seed in [0u32, 1, 42, 400_000, u32::MAX] {
        let first = Noise::from_seed(seed);
        let mut second = Noise::from_seed(seed);
        second.next();
        second.next();
        for x in (0u32..2_000).chain(u32::MAX - 2_000..=u32::MAX) {
            assert_eq!(first.get(x), second.get(x));
            assert_eq!(first.get(x), first.get(x));
        }
    }
}

#[test]
fn different_seeds_give_different_values() {
    for x in 0u32..2_000 {
        assert_ne!(Noise::from_seed(42).get(x), Noise::from_seed(43).get(x));
    }
}

#[test]
fn neighbouring_indices_rarely_repeat() {
    for seed in [42u32, 43, 400_000] {
        let noise = Noise::from_seed(seed);
        let mut repeats = 0;
        for x in 0u32..10_000 {
            if noise.get(x) == noise.get(x + 1) {
                repeats += 1;
            }
        }
        assert!(repeats < 100);
        assert_eq!(repeats, 0);
    }
}

#[test]
fn values_use_the_high_and_the_low_bits() {
    let noise = Noise::from_seed(42);
    let mut seen_or = 0u32;
    let mut seen_and = u32::MAX;
    for x in 0u32..1_000 {
        seen_or |= noise.get(x);
        seen_and &= noise.get(x);
    }
    assert_eq!(seen_or, u32::MAX);
    assert_eq!(seen_and, 0);
}

#[test]
fn next_counts_up_and_reads_the_counter() {
    let mut noise = Noise::from_seed(42);
    let reference = Noise::from_seed(42);
    assert_eq!(noise.next(), reference.get(1));
    assert_eq!(noise.index, 1);
    assert_eq!(noise.next(), reference.get(2));
    assert_eq!(noise.index, 2);
    assert_eq!(noise.seed, 42);
}

#[test]
fn next_wraps_around_at_the_last_index() {
    let mut noise = Noise { seed: 7, index: u32::MAX };
    let reference = Noise::from_seed(7);
    assert_eq!(noise.next(), reference.get(0));
    assert_eq!(noise.index, 0);
    assert_eq!(noise.next(), reference.get(1));
    assert_eq!(noise.index, 1);
}

#[test]
fn first_65536_draws_are_all_different() {
    let mut noise = Noise::from_seed(42);
    let mut seen = HashSet::new();
    for _ in 0..65_536 {
        assert!(seen.insert(noise.next()));
    }
    assert_eq!(seen.len(), 65_536);
    assert_eq!(noise.index, 65_536);
}

#[test]
fn empty_range_is_an_error() {
    let noise = Noise::from_seed(42);
    assert_eq!(
        noise.get_range(0, Bound::Included(5), Bound::Excluded(5)),
        Err(NoiseError::InvalidRange)
    );
}

#[test]
fn ranges_without_a_value_are_errors() {
    let noise = Noise::from_seed(42);
    let invalid = Err(NoiseError::InvalidRange);
    assert_eq!(noise.get_range(3, Bound::Included(6), Bound::Excluded(5)), invalid);
    assert_eq!(noise.get_range(3, Bound::Included(6), Bound::Included(5)), invalid);
    assert_eq!(noise.get_range(3, Bound::Excluded(5), Bound::Excluded(6)), invalid);
    assert_eq!(noise.get_range(3, Bound::Excluded(5), Bound::Included(5)), invalid);
    assert_eq!(noise.get_range(3, Bound::Unbounded, Bound::Excluded(0)), invalid);
    assert_eq!(noise.get_range(3, Bound::Excluded(u32::MAX), Bound::Unbounded), invalid);
    assert_eq!(noise.get_range(3, Bound::Included(u32::MAX), Bound::Unbounded), invalid);
    assert_eq!(noise.get_range(3, Bound::Excluded(u32::MAX), Bound::Included(u32::MAX)), invalid);
}

#[test]
fn range_of_one_value_gives_that_value() {
    let noise = Noise::from_seed(42);
    for x in 0u32..100 {
        assert_eq!(noise.get_range(x, Bound::Included(5), Bound::Excluded(6)), Ok(5));
        assert_eq!(noise.get_range(x, Bound::Included(5), Bound::Included(5)), Ok(5));
        assert_eq!(noise.get_range(x, Bound::Excluded(4), Bound::Excluded(6)), Ok(5));
        assert_eq!(
            noise.get_range(x, Bound::Included(u32::MAX), Bound::Included(u32::MAX)),
            Ok(u32::MAX)
        );
        assert_eq!(noise.get_range(x, Bound::Unbounded, Bound::Included(0)), Ok(0));
    }
}

#[test]
fn range_value_is_offset_plus_remainder() {
    let noise = Noise::from_seed(42);
    assert_eq!(noise.get(0) % 4 + 4, 7);
    assert_eq!(noise.get_range(0, Bound::Included(4), Bound::Excluded(8)), Ok(7));
    assert_eq!(noise.get_range(0, Bound::Included(4), Bound::Included(7)), Ok(7));
    assert_eq!(noise.get_range(0, Bound::Excluded(3), Bound::Excluded(8)), Ok(7));
    assert_eq!(noise.get_range(0, Bound::Included(0), Bound::Excluded(1000)), Ok(791));
    assert_eq!(noise.get_range(0, Bound::Unbounded, Bound::Excluded(1000)), Ok(791));
    assert_eq!(
        noise.get_range(0, Bound::Included(1_000_000), Bound::Excluded(2_000_000)),
        Ok(1_211_791)
    );
}

#[test]
fn range_without_upper_end_stops_short_of_the_maximum() {
    let noise = Noise::from_seed(42);
    assert_eq!(noise.get_range(0, Bound::Unbounded, Bound::Unbounded), Ok(933_211_791));
    assert_eq!(
        noise.get_range(0, Bound::Included(u32::MAX - 1), Bound::Unbounded),
        Ok(u32::MAX - 1)
    );
    assert_eq!(
        noise.get_range(0, Bound::Included(4_000_000_000), Bound::Unbounded),
        Ok(4_048_309_906)
    );
}

#[test]
fn whole_range_gives_the_value_itself() {
    for seed in [0u32, 42, u32::MAX] {
        let noise = Noise::from_seed(seed);
        for x in 0u32..200 {
            assert_eq!(
                noise.get_range(x, Bound::Included(0), Bound::Included(u32::MAX)),
                Ok(noise.get(x))
            );
            assert_eq!(
                noise.get_range(x, Bound::Unbounded, Bound::Included(u32::MAX)),
                Ok(noise.get(x))
            );
        }
    }
}

#[test]
fn range_values_stay_inside() {
    let noise = Noise::from_seed(400_000);
    let ranges = [(0u32, 1u32), (4, 8), (5, 6), (0, 1000), (1_000_000, 1_000_003), (u32::MAX - 5, u32::MAX)];
    for (low, high) in ranges {
        for x in (0u32..3_000).chain(u32::MAX - 100..=u32::MAX) {
            let exclusive = noise.get_range(x, Bound::Included(low), Bound::Excluded(high)).unwrap();
            assert!(low <= exclusive && exclusive < high);
            let inclusive = noise.get_range(x, Bound::Included(low), Bound::Included(high)).unwrap();
            assert!(low <= inclusive && inclusive <= high);
            let open = noise.get_range(x, Bound::Excluded(low), Bound::Included(high)).unwrap();
            assert!(low < open && open <= high);
        }
    }
}

#[test]
fn small_range_reaches_every_value() {
    let noise = Noise::from_seed(42);
    let mut seen = HashSet::new();
    for x in 0u32..200 {
        seen.insert(noise.get_range(x, Bound::Included(4), Bound::Excluded(8)).unwrap());
    }
    assert_eq!(seen.len(), 4);
}

#[test]
fn next_range_counts_up_and_reads_the_counter() {
    let mut noise = Noise::from_seed(42);
    let reference = Noise::from_seed(42);
    for step in 1u32..=50 {
        let drawn = noise.next_range(Bound::Included(4), Bound::Excluded(8));
        assert_eq!(drawn, reference.get_range(step, Bound::Included(4), Bound::Excluded(8)));
        assert_eq!(noise.index, step);
        let value = drawn.unwrap();
        assert!(4 <= value && value < 8);
    }
}

#[test]
fn next_range_moves_on_when_the_range_is_empty() {
    let mut noise = Noise::from_seed(42);
    assert_eq!(
        noise.next_range(Bound::Included(5), Bound::Excluded(5)),
        Err(NoiseError::InvalidRange)
    );
    assert_eq!(noise.index, 1);
    assert_eq!(noise.seed, 42);
    assert_eq!(noise.next(), Noise::from_seed(42).get(2));
}

#[test]
fn clock_seconds_are_taken_modulo_the_largest_u32() {
    assert_eq!(Noise::from_clock(Some(0)).seed, 0);
    assert_eq!(Noise::from_clock(Some(1_666_990_800)).seed, 1_666_990_800);
    assert_eq!(Noise::from_clock(Some(4_294_967_294)).seed, 4_294_967_294);
    assert_eq!(Noise::from_clock(Some(4_294_967_295)).seed, 0);
    assert_eq!(Noise::from_clock(Some(4_294_967_296)).seed, 1);
    assert_eq!(Noise::from_clock(Some(10_000_000_000)).seed, 1_410_065_410);
    assert_eq!(Noise::from_clock(Some(u64::MAX)).seed, 0);
    assert_eq!(Noise::from_clock(Some(12_345)).index, 0);
}

#[test]
fn clock_before_the_epoch_counts_as_the_epoch() {
    let noise = Noise::from_clock(None);
    assert_eq!(noise.seed, 0);
    assert_eq!(noise.index, 0);
    assert_eq!(noise.get(0), Noise::from_clock(Some(0)).get(0));
}

#[test]
fn new_reads_the_clock() {
    let before = SystemTime::now().duration_since(UNIX_EPOCH).unwrap().as_secs();
    let noise = Noise::new();
    let after = SystemTime::now().duration_since(UNIX_EPOCH).unwrap().as_secs();
    assert_eq!(noise.index, 0);
    assert!(noise.seed < u32::MAX);
    assert!((before..=after).any(|secs| Noise::from_clock(Some(secs)).seed == noise.seed));
}

#[test]
fn default_is_a_fresh_generator() {
    let before = SystemTime::now().duration_since(UNIX_EPOCH).unwrap().as_secs();
    let noise = Noise::default();
    let after = SystemTime::now().duration_since(UNIX_EPOCH).unwrap().as_secs();
    assert_eq!(noise.index, 0);
    assert!((before..=after).any(|secs| Noise::from_clock(Some(secs)).seed == noise.seed));
}

#[test]
fn gradient_reads_even_and_odd_indices() {
    let noise = Noise::from_seed(42);
    assert_eq!(gradient_noise(&noise, 0, 0), (noise.get(0), noise.get(1)));
    assert_eq!(gradient_noise(&noise, 3, 5), (noise.get(6), noise.get(11)));
    assert_eq!(gradient_noise(&noise, 1, 0), (1_765_031_574, 3_735_386_339));
    assert_eq!(gradient_noise(&noise, 5, 3).0, gradient_noise(&noise, 5, 9).0);
    assert_eq!(gradient_noise(&noise, 5, 3).1, gradient_noise(&noise, 8, 3).1);
}

#[test]
fn gradient_wraps_around_for_far_cells() {
    let noise = Noise::from_seed(42);
    assert_eq!(
        gradient_noise(&noise, 0x8000_0001, 0x8000_0001),
        (noise.get(2), noise.get(3))
    );
    assert_eq!(
        gradient_noise(&noise, u32::MAX, u32::MAX),
        (noise.get(u32::MAX - 1), noise.get(u32::MAX))
    );
}
