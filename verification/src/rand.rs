//! The random block sequencer: a small generator with an explicit state,
//! seeded at match reset, and the queue of upcoming piece kinds that it
//! fills.

use vstd::prelude::*;
use vstd::arithmetic::div_mod::{
    lemma_add_mod_noop, lemma_mod_sub_multiples_vanish, lemma_small_mod,
};
use vstd::wrapping::u64_specs;
use std::time::{Duration, UNIX_EPOCH};
use crate::piece::KINDS;

verus! {

/// Number of entries of the block queue.
pub const BLKQUEUE: usize = 1024;

/// Multiplier of the generator's step.
pub const STEP_MUL: u64 = 6364136223846793005;

/// Increment of the generator's step.
pub const STEP_ADD: u64 = 1442695040888963407;

/// The state that follows `s`: one step of a linear congruential generator
/// modulo 2^64.
pub open spec fn next_state(s: u64) -> u64 {
    ((s * STEP_MUL + STEP_ADD) % 0x1_0000_0000_0000_0000) as u64
}

/// The number drawn in state `s`: its upper 31 bits.
pub open spec fn drawn(s: u64) -> u32 {
    (s >> 33) as u32
}

/// The state after `n` steps from `s`.
pub open spec fn state_after(s: u64, n: nat) -> u64
    decreases n,
{
    if n == 0 {
        s
    } else {
        next_state(state_after(s, (n - 1) as nat))
    }
}

/// The state that a seed and a nonce give: their bitwise exclusive or.
pub open spec fn seeded(seed: u64, nonce: u64) -> u64 {
    seed ^ nonce
}

/// The piece kind that a queue entry stands for: the entry modulo the number
/// of kinds, so that every entry names a kind.
pub open spec fn kind_of(entry: i8) -> u8 {
    ((entry as int) % (KINDS as int)) as u8
}

/// The kind at position `i` of a block queue.
pub open spec fn kind_at(queue: Seq<i8>, i: int) -> u8 {
    kind_of(queue[i])
}

/// Entry `i` of a queue filled from state `s`: the draw after `i + 1`
/// steps, modulo the number of kinds.
pub open spec fn filled_entry(s: u64, i: int) -> i8 {
    (drawn(state_after(s, (i + 1) as nat)) % (KINDS as u32)) as i8
}

/// One step more is one more application of the step.
pub proof fn lemma_state_after_step(s: u64, n: nat)
    ensures
        state_after(s, n + 1) == next_state(state_after(s, n)),
{
}

/// A multiplication and an addition that both wrap around give the step
/// modulo 2^64.
proof fn lemma_step_wraps(s: u64)
    ensures
        u64_specs::wrapping_add(u64_specs::wrapping_mul(s, STEP_MUL), STEP_ADD) == next_state(s),
{
    let range: int = 0x1_0000_0000_0000_0000;
    let product: int = s as int * STEP_MUL as int;
    let low: int = product % range;
    let sum: int = low + STEP_ADD as int;
    assert(0 <= low < range);
    lemma_add_mod_noop(product, STEP_ADD as int, range);
    lemma_small_mod(STEP_ADD as nat, range as nat);
    assert((product + STEP_ADD as int) % range == sum % range);
    if sum >= range {
        lemma_mod_sub_multiples_vanish(sum, range);
        lemma_small_mod((sum - range) as nat, range as nat);
        assert(sum % range == sum - range);
    } else {
        lemma_small_mod(sum as nat, range as nat);
    }
}

/// The upper 31 bits of a state fit in 32 bits.
proof fn lemma_drawn_fits(s: u64)
    by (bit_vector)
    ensures
        s >> 33 <= 0x7fff_ffff,
{
}

/// `std::time::SystemTime::elapsed`, asked of the Unix epoch: the time that
/// has passed since the epoch, or nothing where the clock stands before it.
/// Nothing is claimed of the value.
#[verifier::external_body]
fn since_epoch() -> (passed: Option<Duration>) {
    match UNIX_EPOCH.elapsed() {
        Ok(d) => Some(d),
        Err(_) => None,
    }
}

/// `std::time::Duration::as_millis`: a span of time in whole milliseconds.
/// Nothing is claimed of the number.
pub assume_specification[ Duration::as_millis ](d: &Duration) -> (ms: u128);

/// Reads the wall clock: the low 64 bits of the milliseconds since the Unix
/// epoch, or 0 where the clock stands before the epoch. The value differs
/// from call to call, so nothing is said of it.
pub(crate) fn clock_millis() -> (ms: u64) {
    match since_epoch() {
        Some(d) => (d.as_millis() % 0x1_0000_0000_0000_0000) as u64,
        None => 0,
    }
}

/// The generator.
#[derive(Clone, Copy, Debug)]
pub struct Rand {
    pub state: u64,
}

impl Rand {
    /// A generator in state 0.
    pub fn new() -> (r: Rand)
        ensures
            r.state == 0,
    {
        Rand { state: 0 }
    }

    /// Puts the generator in the state `seed`.
    pub fn srand(&mut self, seed: u64)
        ensures
            final(self).state == seed,
    {
        self.state = seed;
    }

    /// Seeds the generator from a seed combined with a nonce.
    pub fn reseed(&mut self, seed: u64, nonce: u64)
        ensures
            final(self).state == seeded(seed, nonce),
    {
        self.state = seed ^ nonce;
    }

    /// Advances the generator by one step and returns the number drawn in
    /// the new state.
    pub fn rand(&mut self) -> (n: u32)
        ensures
            final(self).state == next_state(old(self).state),
            n == drawn(final(self).state),
    {
        proof {
            lemma_step_wraps(self.state);
        }
        self.state = self.state.wrapping_mul(STEP_MUL).wrapping_add(STEP_ADD);
        proof {
            lemma_drawn_fits(self.state);
        }
        (self.state >> 33) as u32
    }

    /// Fills every entry of a block queue with a draw modulo the number of
    /// kinds. The generator advances by one step per entry.
    pub fn fill(&mut self, queue: &mut [i8; BLKQUEUE])
        ensures
            final(self).state == state_after(old(self).state, BLKQUEUE as nat),
            forall|i: int|
                0 <= i < BLKQUEUE ==> #[trigger] final(queue)[i] == filled_entry(old(self).state, i),
            forall|i: int| 0 <= i < BLKQUEUE ==> 0 <= #[trigger] final(queue)[i] < KINDS,
    {
        let mut i: usize = 0;
        while i < BLKQUEUE
            invariant
                i <= BLKQUEUE,
                self.state == state_after(old(self).state, i as nat),
                forall|j: int| 0 <= j < i ==> #[trigger] queue[j] == filled_entry(old(self).state, j),
                forall|j: int| 0 <= j < i ==> 0 <= #[trigger] queue[j] < KINDS,
            decreases BLKQUEUE - i,
        {
            let n = self.rand();
            queue[i] = (n % (KINDS as u32)) as i8;
            i += 1;
        }
    }
}

/// Reads the kind that a queue entry stands for.
pub fn entry_kind(entry: i8) -> (kind: u8)
    ensures
        kind == kind_of(entry),
        kind < KINDS,
{
    ((entry as i16 + 133) as u16 % (KINDS as u16)) as u8
}

} // verus!
