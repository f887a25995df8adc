//! Injected source of randomness.
//!
//! The simulation never reaches for a hidden global generator: every
//! routine that needs chance takes a [`GameRng`] by `&mut` reference,
//! and each draw is a pure function of the generator's state.  A driver
//! seeds one generator from machine entropy; a test seeds one from a
//! constant, which makes whole runs reproducible.

use vstd::prelude::*;

verus! {

/// Multiplier of the linear-congruential step (Knuth's MMIX parameters).
pub const LCG_MUL: u64 = 6364136223846793005;

/// Increment of the linear-congruential step.
pub const LCG_INC: u64 = 1442695040888963407;

/// Widest span `next_in_range` accepts between its bounds.
pub const DRAW_SPAN_LIMIT: i64 = 1_000_000_000;

/// The generator state reached from `s` after one step.
pub open spec fn next_state(s: u64) -> u64 {
    s.wrapping_mul(LCG_MUL).wrapping_add(LCG_INC)
}

/// The boolean drawn when the generator is stepped from state `s`.
pub open spec fn draw_bool_value(s: u64) -> bool {
    next_state(s) >> 63 == 1
}

/// The value in `lo..hi` drawn when the generator is stepped from
/// state `s`.
pub open spec fn draw_in_range_value(s: u64, lo: int, hi: int) -> int {
    lo + ((next_state(s) >> 16) % ((hi - lo) as u64))
}

/// Relies on rand::random to draw one value from the machine's entropy;
/// nothing is promised of which value comes back.
#[verifier::external_body]
fn entropy_u64() -> u64 {
    rand::random::<u64>()
}

/// A small deterministic pseudo-random generator: a 64-bit linear
/// congruential sequence.  Equal states yield equal draw sequences.
pub struct GameRng {
    pub state: u64,
}

impl GameRng {
    /// A generator that will replay the draw sequence of `seed`.
    pub fn new(seed: u64) -> (r: GameRng)
        ensures
            r.state == seed,
    {
        GameRng { state: seed }
    }

    /// A generator seeded from machine entropy, for interactive play.
    pub fn from_entropy() -> GameRng {
        GameRng { state: entropy_u64() }
    }

    /// Step the generator once and hand out the new state as the raw
    /// draw.
    pub fn next_u64(&mut self) -> (r: u64)
        ensures
            final(self).state == next_state(old(self).state),
            r == final(self).state,
    {
        self.state = self.state.wrapping_mul(LCG_MUL).wrapping_add(LCG_INC);
        self.state
    }

    /// Draw one boolean.
    pub fn next_bool(&mut self) -> (r: bool)
        ensures
            final(self).state == next_state(old(self).state),
            r == draw_bool_value(old(self).state),
    {
        let v = self.next_u64();
        (v >> 63) == 1
    }

    /// Draw one value in `lo..hi`.
    pub fn next_in_range(&mut self, lo: i64, hi: i64) -> (r: i64)
        requires
            lo < hi,
            hi - lo <= DRAW_SPAN_LIMIT,
        ensures
            final(self).state == next_state(old(self).state),
            r == draw_in_range_value(old(self).state, lo as int, hi as int),
            lo <= r < hi,
    {
        let v = self.next_u64();
        let span: u64 = (hi - lo) as u64;
        let off: u64 = (v >> 16) % span;
        lo + (off as i64)
    }
}

} // verus!
