//! The loss simulator: a weighted coin that decides whether one transmission
//! is suppressed.
//!
//! Probabilities are fixed-point fractions with 24 bits after the binary
//! point: the level `n` stands for `n / 2^24`, and [`FRACTION_ONE`] for one.
//! A draw is 32 random bits, of which the top 24 are read as a fraction in
//! `[0, 1)`. A transmission is dropped when the draw's fraction is at most the
//! target loss, so the boundary counts as a drop.

use vstd::prelude::*;
use vstd::set_lib::{lemma_int_range, set_int_range};
use rand::rngs::StdRng;

verus! {

/// The level that stands for probability one: `2^24`.
pub const FRACTION_ONE: u32 = 0x100_0000;

/// The random generator that feeds the simulator: `rand::rngs::StdRng`,
/// carried through as an opaque value.
#[verifier::external_type_specification]
#[verifier::external_body]
pub struct ExStdRng(rand::rngs::StdRng);

/// The fraction in `[0, 1)` that a draw stands for, in units of `2^-24`: its
/// top 24 bits.
pub open spec fn fraction_of(raw: u32) -> int {
    raw as int / 256
}

/// Whether a draw leads to a drop at the given level of loss.
pub open spec fn drops_at(level: int, raw: u32) -> bool {
    fraction_of(raw) <= level
}

/// The draws, out of all `2^32`, that lead to a drop at the given level.
pub open spec fn dropping_draws(level: int) -> Set<int> {
    Set::new(|raw: int| 0 <= raw <= u32::MAX && drops_at(level, raw as u32))
}

/// A target loss probability between zero and one, both included.
#[derive(Clone, Copy, Debug, PartialEq, Eq)]
pub struct LossRate {
    level: u32,
}

impl View for LossRate {
    type V = int;

    closed spec fn view(&self) -> int {
        self.level as int
    }
}

impl LossRate {
    #[verifier::type_invariant]
    spec fn in_range(self) -> bool {
        self.level <= FRACTION_ONE
    }

    /// The loss rate `level / 2^24`, if that is at most one.
    pub fn new(level: u32) -> (r: Option<LossRate>)
        ensures
            level <= FRACTION_ONE ==> r is Some && r->Some_0@ == level,
            level > FRACTION_ONE ==> r is None,
    {
        if level <= FRACTION_ONE {
            Some(LossRate { level })
        } else {
            None
        }
    }

    /// The rate in units of `2^-24`.
    pub fn level(&self) -> (level: u32)
        ensures
            level == self@,
            level <= FRACTION_ONE,
    {
        proof {
            use_type_invariant(self);
        }
        self.level
    }

    /// Decides on one draw: drop when the draw's fraction is at most the rate.
    pub fn drops(&self, raw: u32) -> (dropped: bool)
        ensures
            dropped == drops_at(self@, raw),
    {
        assert(raw >> 8 == raw / 256) by (bit_vector);
        (raw >> 8) <= self.level
    }
}

/// Takes the next 32 random bits from the generator.
///
/// Calls `rand::Rng::gen::<u32>` on a `StdRng`. Nothing is claimed of the
/// value: every `u32` can come back.
#[verifier::external_body]
pub(crate) fn next_draw(rng: &mut StdRng) -> u32 {
    rand::Rng::gen(rng)
}

/// Makes one draw from `rng` and decides whether this transmission is
/// dropped.
///
/// Whatever is drawn, the answer is the one that [`LossRate::drops`] gives
/// for some draw; at the rate one it is always a drop.
pub fn should_drop(target_loss: LossRate, rng: &mut StdRng) -> (dropped: bool)
    ensures
        exists|raw: u32| dropped == drops_at(target_loss@, raw),
        target_loss@ == FRACTION_ONE ==> dropped,
{
    let raw = next_draw(rng);
    target_loss.drops(raw)
}

/// The fraction of every draw lies in `[0, 1)`.
pub proof fn lemma_fraction_below_one(raw: u32)
    ensures
        0 <= fraction_of(raw) < FRACTION_ONE,
{
}

/// At the rate one every draw leads to a drop.
pub proof fn lemma_certain_loss(raw: u32)
    ensures
        drops_at(FRACTION_ONE as int, raw),
{
}

/// At the rate zero no draw leads to a drop, except those whose fraction is
/// zero itself: the boundary counts as a drop.
pub proof fn lemma_zero_loss(raw: u32)
    requires
        fraction_of(raw) != 0,
    ensures
        !drops_at(0, raw),
{
}

/// Calibration: at the level `n` below one, exactly `256 * (n + 1)` of the
/// `2^32` draws lead to a drop, which is the share `(n + 1) / 2^24`; at the
/// level one all of them do.
pub proof fn lemma_drop_share(level: int)
    requires
        0 <= level <= FRACTION_ONE,
    ensures
        dropping_draws(level).finite(),
        level < FRACTION_ONE ==> dropping_draws(level).len() == 256 * (level + 1),
        level == FRACTION_ONE ==> dropping_draws(level).len() == 0x1_0000_0000,
{
    let bound: int = if level < FRACTION_ONE {
        256 * (level + 1)
    } else {
        0x1_0000_0000
    };
    lemma_int_range(0, bound);
    assert(dropping_draws(level) =~= set_int_range(0, bound));
}

} // verus!
