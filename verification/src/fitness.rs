//! The running fitness score of a sample sequence.
//!
//! The score starts at half the largest sample and then follows the samples:
//! it rises by one where a sample is greater than the one before it, falls by
//! one where it is smaller, and stays where the two are equal. The first sample
//! is compared with itself, so the first score is the starting value.

use vstd::prelude::*;
use crate::error::PlotError;

verus! {

/// The largest element of `s`, and 0 where `s` is empty.
pub open spec fn largest(s: Seq<u64>) -> u64
    decreases s.len(),
{
    if s.len() == 0 {
        0
    } else {
        let before = largest(s.drop_last());
        if s.last() > before {
            s.last()
        } else {
            before
        }
    }
}

/// How the score moves between two consecutive samples.
pub open spec fn trend(previous: u64, current: u64) -> int {
    if current > previous {
        1
    } else if current < previous {
        -1
    } else {
        0
    }
}

/// The score after sample `i` of `s` (counting from 0).
pub open spec fn fitness_at(s: Seq<u64>, i: int) -> int
    decreases i,
{
    if i <= 0 {
        largest(s) as int / 2
    } else {
        fitness_at(s, i - 1) + trend(s[i - 1], s[i])
    }
}

/// `out` is the fitness sequence of `s`: one score per sample.
pub open spec fn is_fitness_of(out: Seq<i128>, s: Seq<u64>) -> bool {
    &&& out.len() == s.len()
    &&& forall|i: int| 0 <= i < s.len() ==> out[i] as int == fitness_at(s, i)
}

/// `largest(s)` bounds every element of `s` and, unless `s` is empty, is one
/// of them.
pub proof fn lemma_largest_is_maximum(s: Seq<u64>)
    ensures
        forall|i: int| 0 <= i < s.len() ==> s[i] <= largest(s),
        s.len() > 0 ==> s.contains(largest(s)),
    decreases s.len(),
{
    if s.len() > 0 {
        let front = s.drop_last();
        lemma_largest_is_maximum(front);
        assert forall|i: int| 0 <= i < s.len() implies s[i] <= largest(s) by {
            if i < s.len() - 1 {
                assert(front[i] == s[i]);
            }
        }
        if s.last() > largest(front) {
            assert(s[s.len() - 1] == largest(s));
        } else if front.len() == 0 {
            assert(s[0] == largest(s));
        } else {
            let k = choose|k: int| 0 <= k < front.len() && front[k] == largest(front);
            assert(s[k] == largest(s));
        }
    }
}

/// The score never strays from its starting value by more than the number of
/// samples seen.
pub proof fn lemma_fitness_bounds(s: Seq<u64>, i: int)
    requires
        0 <= i,
    ensures
        largest(s) as int / 2 - i <= fitness_at(s, i) <= largest(s) as int / 2 + i,
    decreases i,
{
    if i > 0 {
        lemma_fitness_bounds(s, i - 1);
    }
}

/// The first score is the starting value: half the largest sample.
pub proof fn lemma_fitness_starts_at_half_maximum(s: Seq<u64>, out: Seq<i128>)
    requires
        is_fitness_of(out, s),
        s.len() > 0,
    ensures
        out[0] as int == largest(s) as int / 2,
{
}

/// From one sample to the next the score stays where the two are equal, and
/// moves by exactly one where they differ: up where the sample rose, down where
/// it fell.
pub proof fn lemma_fitness_follows_samples(s: Seq<u64>, out: Seq<i128>, i: int)
    requires
        is_fitness_of(out, s),
        0 < i < s.len(),
    ensures
        s[i] == s[i - 1] ==> out[i] == out[i - 1],
        s[i] > s[i - 1] ==> out[i] == out[i - 1] + 1,
        s[i] < s[i - 1] ==> out[i] == out[i - 1] - 1,
{
    assert(out[i] as int == fitness_at(s, i));
    assert(out[i - 1] as int == fitness_at(s, i - 1));
}

/// A sample sequence has one fitness sequence: two results for the same
/// samples are equal.
pub proof fn lemma_fitness_deterministic(s: Seq<u64>, first: Seq<i128>, second: Seq<i128>)
    requires
        is_fitness_of(first, s),
        is_fitness_of(second, s),
    ensures
        first == second,
{
    assert forall|i: int| 0 <= i < first.len() implies first[i] == second[i] by {
        assert(first[i] as int == fitness_at(s, i));
        assert(second[i] as int == fitness_at(s, i));
    }
    assert(first =~= second);
}

/// The largest sample, or `None` where there is no sample.
pub fn max_sample(points: &Vec<u64>) -> (max: Option<u64>)
    ensures
        points@.len() == 0 <==> max is None,
        max matches Some(m) ==> m == largest(points@),
{
    if points.len() == 0 {
        return None;
    }
    let mut best: u64 = 0;
    let mut i: usize = 0;
    while i < points.len()
        invariant
            i <= points.len(),
            best == largest(points@.take(i as int)),
        decreases points.len() - i,
    {
        assert(points@.take(i + 1).drop_last() == points@.take(i as int));
        if points[i] > best {
            best = points[i];
        }
        i += 1;
    }
    assert(points@.take(i as int) == points@);
    Some(best)
}

/// The fitness sequence of `points`.
///
/// Fails with [`PlotError::EmptyInput`] exactly where there is no sample.
pub fn fitness(points: &Vec<u64>) -> (r: Result<Vec<i128>, PlotError>)
    ensures
        points@.len() == 0 <==> r is Err,
        r matches Err(e) ==> e == PlotError::EmptyInput,
        r matches Ok(out) ==> out@.len() == points@.len() && is_fitness_of(out@, points@),
{
    let max: u64 = match max_sample(points) {
        None => {
            return Err(PlotError::EmptyInput);
        },
        Some(m) => m,
    };
    let mut current: i128 = (max / 2) as i128;
    let mut previous: u64 = points[0];
    let mut out: Vec<i128> = Vec::new();
    let mut i: usize = 0;
    while i < points.len()
        invariant
            0 < points.len(),
            i <= points.len(),
            out.len() == i,
            previous == (if i == 0 { points[0] } else { points[i - 1] }),
            current as int == (if i == 0 { largest(points@) as int / 2 } else { fitness_at(points@, i - 1) }),
            forall|j: int| 0 <= j < i ==> out[j] as int == fitness_at(points@, j),
        decreases points.len() - i,
    {
        proof {
            lemma_fitness_bounds(points@, i as int);
            if i > 0 {
                lemma_fitness_bounds(points@, i - 1);
            }
        }
        let value: u64 = points[i];
        if value > previous {
            current = current + 1;
        } else if value < previous {
            current = current - 1;
        }
        previous = value;
        out.push(current);
        i += 1;
    }
    Ok(out)
}

} // verus!
