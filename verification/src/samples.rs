//! The four ways of producing a sample sequence.
//!
//! Each strategy yields `count` samples in `[0, range)`. The cyclic strategy
//! counts up and wraps around; the other three draw from a random number
//! generator of the `rand` family.

use vstd::prelude::*;
use rand::Rng;
use rand::SeedableRng;
use crate::error::PlotError;
use crate::fitness::largest;

verus! {

/// The generator that `rand` keeps for the current thread.
#[verifier::external_type_specification]
#[verifier::external_body]
pub struct ExThreadRng(rand::rngs::ThreadRng);

/// The Xorshift generator.
#[verifier::external_type_specification]
#[verifier::external_body]
pub struct ExXorShiftRng(rand_xorshift::XorShiftRng);

/// The xoshiro256++ generator.
#[verifier::external_type_specification]
#[verifier::external_body]
pub struct ExXoshiro256PlusPlus(rand_xoshiro::Xoshiro256PlusPlus);

/// `rand::thread_rng` hands out the calling thread's generator, which the
/// operating system has seeded. Nothing is claimed of its state.
pub assume_specification[ rand::thread_rng ]() -> (rng: rand::rngs::ThreadRng);

/// `XorShiftRng::from_entropy` builds a generator from a seed that the
/// operating system supplies. Nothing is claimed of its state.
#[verifier::external_body]
fn xorshift_from_entropy() -> (rng: rand_xorshift::XorShiftRng) {
    rand_xorshift::XorShiftRng::from_entropy()
}

/// `Xoshiro256PlusPlus::from_entropy` builds a generator from a seed that the
/// operating system supplies. Nothing is claimed of its state.
#[verifier::external_body]
fn xoshiro256plusplus_from_entropy() -> (rng: rand_xoshiro::Xoshiro256PlusPlus) {
    rand_xoshiro::Xoshiro256PlusPlus::from_entropy()
}

/// `Rng::gen_range` on the thread's generator, with the range `0..range`. It
/// panics on an empty range, hence the precondition; the value it returns lies
/// in the range, and that is all that is claimed of it.
#[verifier::external_body]
fn draw_standard(rng: &mut rand::rngs::ThreadRng, range: u64) -> (sample: u64)
    requires
        range > 0,
    ensures
        sample < range,
{
    rng.gen_range(0..range)
}

/// `Rng::gen_range` on a Xorshift generator, with the range `0..range`. It
/// panics on an empty range, hence the precondition; the value it returns lies
/// in the range, and that is all that is claimed of it.
#[verifier::external_body]
fn draw_xorshift(rng: &mut rand_xorshift::XorShiftRng, range: u64) -> (sample: u64)
    requires
        range > 0,
    ensures
        sample < range,
{
    rng.gen_range(0..range)
}

/// `Rng::gen_range` on a xoshiro256++ generator, with the range `0..range`. It
/// panics on an empty range, hence the precondition; the value it returns lies
/// in the range, and that is all that is claimed of it.
#[verifier::external_body]
fn draw_xoshiro256plusplus(rng: &mut rand_xoshiro::Xoshiro256PlusPlus, range: u64) -> (sample: u64)
    requires
        range > 0,
    ensures
        sample < range,
{
    rng.gen_range(0..range)
}

/// Every element of `s` lies in `[0, range)`.
pub open spec fn in_range(s: Seq<u64>, range: u64) -> bool {
    forall|i: int| 0 <= i < s.len() ==> s[i] < range
}

/// The cyclic enumeration `0, 1, .., range - 1, 0, 1, ..`, cut off after
/// `count` elements.
pub open spec fn cyclic(range: u64, count: nat) -> Seq<u64> {
    Seq::new(count, |i: int| (i % range as int) as u64)
}

/// The cyclic enumeration stays inside its range.
pub proof fn lemma_cyclic_in_range(range: u64, count: nat)
    requires
        range > 0,
    ensures
        cyclic(range, count).len() == count,
        in_range(cyclic(range, count), range),
        forall|i: int| 0 <= i < count ==> cyclic(range, count)[i] as int == i % range as int,
{
}

/// The largest value of the cyclic enumeration: the last value reached before
/// the sequence ends or wraps around for the first time.
pub proof fn lemma_largest_of_cyclic(range: u64, count: nat)
    requires
        range > 0,
    ensures
        largest(cyclic(range, count)) as int == (if count == 0 {
            0
        } else if count <= range {
            count - 1
        } else {
            range - 1
        }),
    decreases count,
{
    if count > 0 {
        let s = cyclic(range, count);
        let before = (count - 1) as nat;
        lemma_largest_of_cyclic(range, before);
        assert(s.drop_last() =~= cyclic(range, before));
        vstd::arithmetic::div_mod::lemma_mod_bound(before as int, range as int);
        if count <= range {
            vstd::arithmetic::div_mod::lemma_small_mod(before, range as nat);
        }
    }
}

/// `count` samples that enumerate `[0, range)` over and over.
///
/// Fails with [`PlotError::EmptyRange`] exactly where `range` is 0.
pub fn sequence_samples(range: u64, count: u64) -> (r: Result<Vec<u64>, PlotError>)
    requires
        count <= usize::MAX,
    ensures
        range == 0 <==> r is Err,
        r matches Err(e) ==> e == PlotError::EmptyRange,
        r matches Ok(samples) ==> samples@ == cyclic(range, count as nat),
{
    if range == 0 {
        return Err(PlotError::EmptyRange);
    }
    let mut samples: Vec<u64> = Vec::new();
    let mut next: u64 = 0;
    let mut i: u64 = 0;
    while i < count
        invariant
            range > 0,
            count <= usize::MAX,
            i <= count,
            samples.len() == i,
            next as int == i as int % range as int,
            forall|j: int| 0 <= j < i ==> samples[j] as int == j % range as int,
        decreases count - i,
    {
        samples.push(next);
        proof {
            lemma_next_in_cycle(i as int, range as int);
        }
        next = if next == range - 1 {
            0
        } else {
            next + 1
        };
        i += 1;
    }
    assert(samples@ =~= cyclic(range, count as nat));
    Ok(samples)
}

/// Stepping the position in the cycle: one up, and back to 0 at the end.
proof fn lemma_next_in_cycle(i: int, range: int)
    requires
        0 <= i,
        0 < range,
    ensures
        0 <= i % range < range,
        (i + 1) % range == (if i % range == range - 1 { 0 } else { i % range + 1 }),
{
    vstd::arithmetic::div_mod::lemma_fundamental_div_mod(i, range);
    vstd::arithmetic::div_mod::lemma_fundamental_div_mod(i + 1, range);
    vstd::arithmetic::div_mod::lemma_mod_bound(i, range);
    vstd::arithmetic::div_mod::lemma_mod_bound(i + 1, range);
    let q = i / range;
    let r = i % range;
    if r == range - 1 {
        assert(i + 1 == range * (q + 1) + 0) by (nonlinear_arith)
            requires i == range * q + r, r == range - 1;
        vstd::arithmetic::div_mod::lemma_fundamental_div_mod_converse(i + 1, range, q + 1, 0);
    } else {
        assert(i + 1 == q * range + (r + 1)) by (nonlinear_arith)
            requires i == range * q + r;
        vstd::arithmetic::div_mod::lemma_fundamental_div_mod_converse(i + 1, range, q, r + 1);
    }
}

/// A seeded random number generator of one of the three kinds.
pub enum Source {
    /// The generator that `rand` keeps for the current thread.
    Standard(rand::rngs::ThreadRng),
    /// A Xorshift generator.
    XorShift(rand_xorshift::XorShiftRng),
    /// A xoshiro256++ generator.
    Xoshiro256PlusPlus(rand_xoshiro::Xoshiro256PlusPlus),
}

impl Source {
    /// The calling thread's generator.
    pub fn standard() -> (source: Source)
        ensures
            source is Standard,
    {
        Source::Standard(rand::thread_rng())
    }

    /// A Xorshift generator, seeded by the operating system.
    pub fn xorshift() -> (source: Source)
        ensures
            source is XorShift,
    {
        Source::XorShift(xorshift_from_entropy())
    }

    /// A xoshiro256++ generator, seeded by the operating system.
    pub fn xoshiro256plusplus() -> (source: Source)
        ensures
            source is Xoshiro256PlusPlus,
    {
        Source::Xoshiro256PlusPlus(xoshiro256plusplus_from_entropy())
    }

    /// The next sample: a value in `[0, range)`.
    pub fn draw(&mut self, range: u64) -> (sample: u64)
        requires
            range > 0,
        ensures
            sample < range,
            final(self).same_kind(*old(self)),
    {
        match self {
            Source::Standard(rng) => draw_standard(rng, range),
            Source::XorShift(rng) => draw_xorshift(rng, range),
            Source::Xoshiro256PlusPlus(rng) => draw_xoshiro256plusplus(rng, range),
        }
    }

    /// The next `count` samples, each in `[0, range)`.
    pub fn draw_many(&mut self, range: u64, count: u64) -> (samples: Vec<u64>)
        requires
            range > 0,
            count <= usize::MAX,
        ensures
            samples@.len() == count,
            in_range(samples@, range),
    {
        let mut samples: Vec<u64> = Vec::new();
        let mut i: u64 = 0;
        while i < count
            invariant
                range > 0,
                count <= usize::MAX,
                i <= count,
                samples.len() == i,
                in_range(samples@, range),
            decreases count - i,
        {
            let sample: u64 = self.draw(range);
            samples.push(sample);
            i += 1;
        }
        samples
    }

    /// Both are generators of the same kind. Drawing moves a generator on and
    /// leaves its kind as it is.
    pub open spec fn same_kind(self, other: Source) -> bool {
        &&& self is Standard <==> other is Standard
        &&& self is XorShift <==> other is XorShift
        &&& self is Xoshiro256PlusPlus <==> other is Xoshiro256PlusPlus
    }
}

} // verus!
