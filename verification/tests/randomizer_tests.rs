use tetrs::block::Id;
use tetrs::randomizer::{self, RandomizerKind, Randomizer, Rng};
use tetrs::Error;

fn counts(pieces: &[Id]) -> [usize; 8] {
    let mut c = [0usize; 8];
    for p in pieces {
        c[p.to_index()] += 1;
    }
    c
}

#[test]
fn test_sequence() {
    let mut randomizer = randomizer::new("bag", 7).unwrap();

    for _ in 0..3 {
        let mut seen = Vec::new();
        for _ in 0..7 {
            let piece = randomizer.next();
            assert!(!seen.contains(&piece));
            seen.push(piece);
        }
    }
}

#[test]
fn test_cycle() {
    // Ensure values are seen as expected.
    let mut _bag = randomizer::new("bag", 7).unwrap();

    for _ in 0..7 {}
}

#[test]
fn test_bag_sequence() {
    // A seeded bag is deterministic; fourteen pulls are two full bags.
    let mut bag = Randomizer::with_rng(RandomizerKind::Bag, 7, Rng::from_seed(7));
    let mut pulls = Vec::new();
    for _ in 0..14 {
        pulls.push(bag.next());
    }
    let first = counts(&pulls[0..7]);
    let second = counts(&pulls[7..14]);
    for i in 0..7 {
        assert_eq!(first[i], 1);
        assert_eq!(second[i], 1);
    }
    assert_eq!(first[7], 0);
    // No window of three consecutive pulls holds the same piece twice.
    for i in 0..12 {
        let w = [pulls[i], pulls[i + 1], pulls[i + 2]];
        assert!(w[0] != w[1] && w[0] != w[2] && w[1] != w[2], "window {} repeats", i);
    }
}

#[test]
fn test_preview() {
    let mut bag = Randomizer::with_rng(RandomizerKind::Bag, 7, Rng::from_seed(3));
    let preview = bag.preview(4).unwrap();
    assert_eq!(preview.len(), 4);
    for i in 0..4 {
        assert_eq!(bag.next(), preview[i]);
    }
    let mut bag2 = Randomizer::with_rng(RandomizerKind::Bag, 3, Rng::from_seed(3));
    assert_eq!(bag2.preview(4), Err(Error::PreviewTooLarge));
}

#[test]
fn test_randomizer_factory_names() {
    assert!(randomizer::new("bag", 7).is_ok());
    assert!(randomizer::new("memoryless", 7).is_ok());
    assert!(randomizer::new("gameboy", 7).is_ok());
    assert!(randomizer::new("tgm1", 7).is_ok());
    assert!(randomizer::new("tgm2", 7).is_ok());
    assert!(randomizer::new("seven", 7).is_err());
}

#[test]
fn test_variants_never_empty() {
    let mut rz = Randomizer::with_rng(RandomizerKind::Memoryless, 7, Rng::from_seed(11));
    for _ in 0..50 {
        assert!(rz.next() != Id::Empty);
    }
    let mut gb = Randomizer::with_rng(RandomizerKind::Gameboy, 7, Rng::from_seed(11));
    for _ in 0..50 {
        assert!(gb.next() != Id::Empty);
    }
}

#[test]
fn test_tgm1_avoids_history() {
    // With the seeded generator, rerolls keep immediate repeats rare;
    // at the very least the first piece is never S, Z or O.
    let mut rz = Randomizer::with_rng(RandomizerKind::Tgm1, 7, Rng::from_seed(5));
    let first = rz.next();
    assert!(first != Id::S && first != Id::Z && first != Id::O);
    let mut rz2 = Randomizer::with_rng(RandomizerKind::Tgm2, 7, Rng::from_seed(9));
    let first2 = rz2.next();
    assert!(first2 != Id::S && first2 != Id::Z && first2 != Id::O);
}

#[test]
fn test_thread_rng_bag_is_fair() {
    // The entropy-backed draw feeds the shuffle; a full bag still holds
    // each piece exactly once.
    let mut bag = randomizer::new("bag", 7).unwrap();
    let mut pulls = Vec::new();
    for _ in 0..7 {
        pulls.push(bag.next());
    }
    let c = counts(&pulls);
    for i in 0..7 {
        assert_eq!(c[i], 1);
    }
}
