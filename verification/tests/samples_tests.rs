use rng_fitness::error::PlotError;
use rng_fitness::samples::{sequence_samples, Source};
use rng_fitness::strategy::Strategy;

const ALL: [Strategy; 4] = [
    Strategy::Sequence,
    Strategy::Standard,
    Strategy::XorShift,
    Strategy::Xoshiro256PlusPlus,
];

#[test]
fn sequence_samples_count_up_and_wrap() {
    assert_eq!(sequence_samples(3, 7), Ok(vec![0, 1, 2, 0, 1, 2, 0]));
    assert_eq!(sequence_samples(1, 4), Ok(vec![0, 0, 0, 0]));
}

#[test]
fn sequence_sample_at_each_index_is_the_index_modulo_the_range() {
    let range: u64 = 17;
    let samples = sequence_samples(range, 200).unwrap();
    assert_eq!(samples.len(), 200);
    for (i, sample) in samples.iter().enumerate() {
        assert_eq!(*sample, i as u64 % range);
    }
}

#[test]
fn sequence_samples_stop_at_the_count() {
    assert_eq!(sequence_samples(10, 4), Ok(vec![0, 1, 2, 3]));
    assert_eq!(sequence_samples(4, 4), Ok(vec![0, 1, 2, 3]));
    assert_eq!(sequence_samples(u64::MAX, 3), Ok(vec![0, 1, 2]));
    assert_eq!(sequence_samples(5, 0), Ok(Vec::new()));
}

#[test]
fn sequence_samples_of_an_empty_range_are_an_error() {
    assert_eq!(sequence_samples(0, 5), Err(PlotError::EmptyRange));
    assert_eq!(sequence_samples(0, 0), Err(PlotError::EmptyRange));
}

#[test]
fn every_strategy_stays_in_the_range() {
    for strategy in ALL {
        for range in [1u64, 2, 7, 10000, u64::MAX] {
            let samples = strategy.samples(range, 500).unwrap();
            assert_eq!(samples.len(), 500);
            assert!(samples.iter().all(|sample| *sample < range));
        }
    }
}

#[test]
fn every_strategy_rejects_an_empty_range() {
    for strategy in ALL {
        assert_eq!(strategy.samples(0, 10), Err(PlotError::EmptyRange));
        assert_eq!(strategy.samples(0, 0), Err(PlotError::EmptyRange));
    }
}

#[test]
fn every_strategy_yields_nothing_for_a_count_of_zero() {
    for strategy in ALL {
        assert_eq!(strategy.samples(5, 0), Ok(Vec::new()));
    }
}

#[test]
fn the_sequence_strategy_is_the_cyclic_enumeration() {
    assert_eq!(Strategy::Sequence.samples(4, 6), Ok(vec![0, 1, 2, 3, 0, 1]));
}

#[test]
fn a_range_of_one_leaves_only_zero() {
    for strategy in ALL {
        assert_eq!(strategy.samples(1, 20), Ok(vec![0; 20]));
    }
}

#[test]
fn the_random_strategies_do_not_repeat_one_value() {
    for strategy in [Strategy::Standard, Strategy::XorShift, Strategy::Xoshiro256PlusPlus] {
        let samples = strategy.samples(u64::MAX, 64).unwrap();
        assert!(samples.iter().any(|sample| *sample != samples[0]));
    }
}

#[test]
fn each_source_draws_inside_the_range() {
    let mut sources = [Source::standard(), Source::xorshift(), Source::xoshiro256plusplus()];
    for source in sources.iter_mut() {
        for range in [1u64, 3, 1000] {
            for _ in 0..100 {
                assert!(source.draw(range) < range);
            }
            let samples = source.draw_many(range, 50);
            assert_eq!(samples.len(), 50);
            assert!(samples.iter().all(|sample| *sample < range));
        }
    }
}

#[test]
fn strategy_names_are_those_of_the_files() {
    assert_eq!(Strategy::Sequence.name(), "sequence");
    assert_eq!(Strategy::Standard.name(), "standard");
    assert_eq!(Strategy::XorShift.name(), "xorshift");
    assert_eq!(Strategy::Xoshiro256PlusPlus.name(), "xoshiro256plusplus");
}

#[test]
fn drawing_leaves_the_kind_of_a_source() {
    let mut standard = Source::standard();
    let mut xorshift = Source::xorshift();
    let mut xoshiro = Source::xoshiro256plusplus();
    for _ in 0..10 {
        assert!(standard.draw(6) < 6);
        assert!(xorshift.draw(6) < 6);
        assert!(xoshiro.draw(6) < 6);
        assert!(matches!(standard, Source::Standard(_)));
        assert!(matches!(xorshift, Source::XorShift(_)));
        assert!(matches!(xoshiro, Source::Xoshiro256PlusPlus(_)));
    }
}
