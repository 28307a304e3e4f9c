use rsc8_core::rng::{EntropySource, LinearCongruentialGenerator, DEFAULT_SEED, LCG_A, LCG_C};

#[test]
fn default_seed_is_888() {
    assert_eq!(DEFAULT_SEED, 888);
    assert_eq!(LinearCongruentialGenerator::default().seed, 888);
    assert_eq!((LCG_A, LCG_C), (75, 74));
}

#[test]
fn first_values_from_the_default_seed() {
    let mut rng = LinearCongruentialGenerator::default();
    // (75 * 888 + 74) mod 65536
    assert_eq!(rng.next(), Some(1138));
    // (75 * 1138 + 74) mod 65536
    assert_eq!(rng.next(), Some(19888));
    // (75 * 19888 + 74) mod 65536
    assert_eq!(rng.next(), Some(49882));
    assert_eq!(rng.seed, 49882);
}

#[test]
fn each_draw_returns_the_new_seed() {
    let mut rng = LinearCongruentialGenerator { seed: 0 };
    assert_eq!(rng.next(), Some(74));
    assert_eq!(rng.seed, 74);
    let mut rng = LinearCongruentialGenerator { seed: 0xFFFF };
    // (75 * 65535 + 74) mod 65536 = 65535
    assert_eq!(rng.next(), Some(0xFFFF));
    assert_eq!(rng.seed, 0xFFFF);
}

#[test]
fn recurrence_holds_for_every_seed() {
    for seed in 0..=u16::MAX {
        let mut rng = LinearCongruentialGenerator { seed };
        let expected = ((75u32 * seed as u32 + 74) % 65536) as u16;
        assert_eq!(rng.next(), Some(expected));
        assert_eq!(rng.seed, expected);
    }
}

#[test]
fn same_seed_gives_the_same_sequence() {
    let mut first = LinearCongruentialGenerator { seed: 12345 };
    let mut second = LinearCongruentialGenerator { seed: 12345 };
    for _ in 0..10_000 {
        assert_eq!(first.next(), second.next());
    }
    assert_eq!(first, second);
}

#[test]
fn the_sequence_never_ends() {
    let mut rng = LinearCongruentialGenerator::default();
    for _ in 0..200_000 {
        assert!(rng.next().is_some());
    }
}
