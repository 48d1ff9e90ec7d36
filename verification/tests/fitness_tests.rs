use rng_fitness::error::PlotError;
use rng_fitness::fitness::{fitness, max_sample};

#[test]
fn fitness_of_the_worked_example() {
    let samples: Vec<u64> = vec![5, 5, 2, 8];
    assert_eq!(max_sample(&samples), Some(8));
    assert_eq!(fitness(&samples), Ok(vec![4, 4, 3, 4]));
}

#[test]
fn fitness_of_no_samples_is_an_error() {
    let samples: Vec<u64> = Vec::new();
    assert_eq!(fitness(&samples), Err(PlotError::EmptyInput));
}

#[test]
fn fitness_of_one_sample_is_half_of_it() {
    assert_eq!(fitness(&vec![9]), Ok(vec![4]));
    assert_eq!(fitness(&vec![0]), Ok(vec![0]));
    assert_eq!(fitness(&vec![1]), Ok(vec![0]));
}

#[test]
fn fitness_has_one_score_per_sample() {
    let mut samples: Vec<u64> = Vec::new();
    for n in 0..50u64 {
        samples.push((n * 37) % 11);
        let scores = fitness(&samples).unwrap();
        assert_eq!(scores.len(), samples.len());
    }
}

#[test]
fn fitness_is_the_same_on_every_call() {
    let samples: Vec<u64> = vec![3, 1, 4, 1, 5, 9, 2, 6, 5, 3, 5];
    let first = fitness(&samples);
    let second = fitness(&samples);
    assert_eq!(first, second);
    assert_eq!(first, Ok(vec![4, 3, 4, 3, 4, 5, 4, 5, 4, 3, 4]));
}

#[test]
fn fitness_follows_the_samples() {
    let samples: Vec<u64> = vec![7, 7, 9, 9, 2, 3, 3, 0, 12, 12];
    let scores = fitness(&samples).unwrap();
    assert_eq!(scores[0], 6);
    for i in 1..samples.len() {
        let step: i128 = scores[i] - scores[i - 1];
        if samples[i] == samples[i - 1] {
            assert_eq!(step, 0);
        } else if samples[i] > samples[i - 1] {
            assert_eq!(step, 1);
        } else {
            assert_eq!(step, -1);
        }
    }
    assert_eq!(scores, vec![6, 6, 7, 7, 6, 7, 7, 6, 7, 7]);
}

#[test]
fn fitness_of_constant_samples_never_moves() {
    let samples: Vec<u64> = vec![6; 20];
    assert_eq!(fitness(&samples), Ok(vec![3; 20]));
}

#[test]
fn fitness_may_fall_below_zero() {
    let samples: Vec<u64> = vec![3, 2, 1, 0];
    assert_eq!(fitness(&samples), Ok(vec![1, 0, -1, -2]));
}

#[test]
fn fitness_of_the_largest_samples_does_not_wrap() {
    let samples: Vec<u64> = vec![0, u64::MAX - 1, u64::MAX];
    let half: i128 = (u64::MAX / 2) as i128;
    assert_eq!(half, 9223372036854775807);
    assert_eq!(fitness(&samples), Ok(vec![half, half + 1, half + 2]));
}

#[test]
fn max_sample_is_the_largest() {
    assert_eq!(max_sample(&Vec::new()), None);
    assert_eq!(max_sample(&vec![0]), Some(0));
    assert_eq!(max_sample(&vec![4, 9, 2, 9, 1]), Some(9));
    assert_eq!(max_sample(&vec![u64::MAX, 3]), Some(u64::MAX));
}
