//! The deterministic generator: a 128-bit-state add/rotate design with a
//! constant-time shortcut for jumping the short-seed sequence forward.
//!
//! Every shift, rotation and mask below is a fixed external contract: the
//! sequence must match the reference process bit for bit, so the spec
//! functions state the exact arithmetic and the executable code is proved
//! equal to them.
use vstd::prelude::*;

verus! {

/// Second word of the initial state whenever the generator is (re)seeded
/// from a single 64-bit seed.
pub const MAGIC_SEED: u64 = 0x82a2b175229d6a5b;

/// Retry ceiling for rejection sampling in `next_int_max`. The reference
/// process retries without bound; a bound is needed here so that the loop
/// provably terminates. No practically reachable state rejects this often
/// (each retry is rejected with probability below one half).
pub const REJECT_LIMIT: u64 = 0x1_0000_0000;

/// Left rotation of a 64-bit word.
pub open spec fn spec_rotl(x: u64, k: u64) -> u64 {
    (x << k) | (x >> ((64 - k) as u64))
}

/// The value one advance returns: the wrapping sum of the state words.
pub open spec fn out(s: (u64, u64)) -> u64 {
    vstd::wrapping::u64_specs::wrapping_add(s.0, s.1)
}

/// The state transition of one advance.
pub open spec fn step(s: (u64, u64)) -> (u64, u64) {
    let x = s.1 ^ s.0;
    (spec_rotl(s.0, 24) ^ x ^ (x << 16), spec_rotl(x, 37))
}

/// The state after `n` advances.
pub open spec fn nth_state(s: (u64, u64), n: nat) -> (u64, u64)
    decreases n,
{
    if n == 0 {
        s
    } else {
        step(nth_state(s, (n - 1) as nat))
    }
}

/// The low 32 bits of the next output, under a mask.
pub open spec fn masked_out(s: (u64, u64), mask: u32) -> u32 {
    (out(s) as u32) & mask
}

/// The all-ones mask the bounded draw uses: `max - 1` with every bit below
/// its highest set bit also set.
pub open spec fn mask_spec(max: u32) -> u32 {
    let m0 = (max - 1) as u32;
    let m1 = m0 | (m0 >> 1);
    let m2 = m1 | (m1 >> 2);
    let m3 = m2 | (m2 >> 4);
    let m4 = m3 | (m3 >> 8);
    m4 | (m4 >> 16)
}

/// Rejection sampling: draw a masked 32-bit value, retry while it is not
/// below `max`. `fuel` bounds the retries; when it runs out the draw gives
/// 0, matching the executable fallback (a case no practical state reaches).
pub open spec fn spec_bounded(s: (u64, u64), max: u32, fuel: nat) -> ((u64, u64), u32)
    decreases fuel,
{
    let r = masked_out(s, mask_spec(max));
    if r < max {
        (step(s), r)
    } else if fuel == 0 {
        (step(s), 0u32)
    } else {
        spec_bounded(step(s), max, (fuel - 1) as nat)
    }
}

/// The value a bounded draw returns.
pub open spec fn bounded_result(s: (u64, u64), max: u32) -> u32 {
    spec_bounded(s, max, REJECT_LIMIT as nat).1
}

/// The state a bounded draw leaves behind.
pub open spec fn bounded_state(s: (u64, u64), max: u32) -> (u64, u64) {
    spec_bounded(s, max, REJECT_LIMIT as nat).0
}

/// The seed `n` positions ahead in the short-seed sequence.
pub open spec fn spec_seed_at_offset(seed: u64, n: u64) -> u64 {
    vstd::wrapping::u64_specs::wrapping_add(
        seed,
        vstd::wrapping::u64_specs::wrapping_mul(MAGIC_SEED, n),
    )
}

/// The seed reached from `seed` by adding `MAGIC_SEED` once per position,
/// wrapping: the sequence the offset shortcut must reproduce.
pub open spec fn seed_after_resets(seed: u64, n: nat) -> u64
    decreases n,
{
    if n == 0 {
        seed
    } else {
        vstd::wrapping::u64_specs::wrapping_add(seed_after_resets(seed, (n - 1) as nat), MAGIC_SEED)
    }
}

/// Keeps track of the generator state: two 64-bit words.
#[derive(PartialEq, Eq, Debug)]
pub struct Rng(u64, u64);

impl View for Rng {
    type V = (u64, u64);

    closed spec fn view(&self) -> (u64, u64) {
        (self.0, self.1)
    }
}

/// Left rotation.
#[inline]
fn rotl(x: u64, k: u64) -> (r: u64)
    requires
        0 < k < 64,
    ensures
        r == spec_rotl(x, k),
{
    (x << k) | (x >> (64 - k))
}

impl Rng {
    /// Creates a new generator from a 64-bit short seed.
    pub fn new(seed: u64) -> (r: Self)
        ensures
            r@ == (seed, MAGIC_SEED),
    {
        Rng(seed, MAGIC_SEED)
    }

    /// Creates a new generator from a full captured state.
    pub fn from_state(s0: u64, s1: u64) -> (r: Self)
        ensures
            r@ == (s0, s1),
    {
        Rng(s0, s1)
    }

    /// Resets the generator with a new short seed.
    pub fn reset(&mut self, seed: u64)
        ensures
            final(self)@ == (seed, MAGIC_SEED),
    {
        self.0 = seed;
        self.1 = MAGIC_SEED;
    }

    /// Resets the generator with a new full state.
    pub fn reset_state(&mut self, s0: u64, s1: u64)
        ensures
            final(self)@ == (s0, s1),
    {
        self.0 = s0;
        self.1 = s1;
    }

    /// Advances the generator once and returns the raw 64-bit output.
    pub fn next(&mut self) -> (r: u64)
        ensures
            r == out(old(self)@),
            final(self)@ == step(old(self)@),
    {
        let s0 = self.0;
        let s1 = self.1;
        let result = s0.wrapping_add(s1);

        let x = s1 ^ s0;
        self.0 = rotl(s0, 24) ^ x ^ (x << 16);
        self.1 = rotl(x, 37);

        result
    }

    /// Advances once and returns the low 32 bits of the output, masked.
    #[inline]
    pub fn next_int(&mut self, mask: u32) -> (r: u32)
        ensures
            r == masked_out(old(self)@, mask),
            final(self)@ == step(old(self)@),
    {
        (self.next() as u32) & mask
    }

    /// The mask `next_int_max` draws under: the smallest value of the form
    /// `2^k - 1` that is at least `max - 1`.
    pub fn mask_for(max: u32) -> (m: u32)
        requires
            1 <= max,
        ensures
            m == mask_spec(max),
    {
        let mut m = max - 1;
        m = m | (m >> 1);
        m = m | (m >> 2);
        m = m | (m >> 4);
        m = m | (m >> 8);
        m = m | (m >> 16);
        m
    }

    /// Draws a 32-bit value strictly below `max` by rejection sampling with
    /// a minimal all-ones mask (never by modulo, which would bias the draw).
    pub fn next_int_max(&mut self, max: u32) -> (r: u32)
        requires
            1 <= max,
        ensures
            r == bounded_result(old(self)@, max),
            final(self)@ == bounded_state(old(self)@, max),
            r < max,
    {
        let mask = Self::mask_for(max);
        let mut fuel: u64 = REJECT_LIMIT;
        loop
            invariant
                1 <= max,
                mask == mask_spec(max),
                spec_bounded(old(self)@, max, REJECT_LIMIT as nat) == spec_bounded(self@, max, fuel as nat),
            decreases fuel,
        {
            let ghost pre = self@;
            let result = self.next_int(mask);
            if result < max {
                assert(spec_bounded(pre, max, fuel as nat) == (step(pre), result));
                return result;
            }
            if fuel == 0 {
                assert(spec_bounded(pre, max, 0nat) == (step(pre), 0u32));
                return 0;
            }
            assert(spec_bounded(pre, max, fuel as nat) == spec_bounded(step(pre), max, (fuel - 1) as nat));
            fuel = fuel - 1;
        }
    }

    /// Returns the seed `index` positions ahead of the given short seed in
    /// constant time: `seed + MAGIC_SEED * index`, wrapping.
    pub fn get_seed_at_offset(seed: u64, index: usize) -> (r: u64)
        ensures
            r == spec_seed_at_offset(seed, index as u64),
    {
        seed.wrapping_add(MAGIC_SEED.wrapping_mul(index as u64))
    }

    /// Returns the current state of the generator.
    pub fn get_state(&self) -> (r: (u64, u64))
        ensures
            r == self@,
    {
        (self.0, self.1)
    }
}

/// Wrapping 64-bit addition is addition modulo 2^64.
proof fn lemma_wrapping_add_is_mod(x: u64, y: u64)
    ensures
        vstd::wrapping::u64_specs::wrapping_add(x, y) == (x + y) % 0x1_0000_0000_0000_0000,
{
    if x + y > u64::MAX {
        vstd::arithmetic::div_mod::lemma_mod_sub_multiples_vanish(
            x + y,
            0x1_0000_0000_0000_0000,
        );
        vstd::arithmetic::div_mod::lemma_small_mod(
            (x + y - 0x1_0000_0000_0000_0000) as nat,
            0x1_0000_0000_0000_0000,
        );
    } else {
        vstd::arithmetic::div_mod::lemma_small_mod((x + y) as nat, 0x1_0000_0000_0000_0000);
    }
}

/// The offset shortcut is exact: jumping the short-seed sequence forward by
/// `n` gives the same seed as reseeding one position at a time, `n` times.
/// With `n == 0` this is the identity law; with `n == 1` it says one jump
/// adds `MAGIC_SEED` once, wrapping.
pub proof fn lemma_seed_at_offset_counts_resets(seed: u64, n: u64)
    ensures
        spec_seed_at_offset(seed, n) == seed_after_resets(seed, n as nat),
    decreases n,
{
    let w: int = 0x1_0000_0000_0000_0000;
    let m: int = MAGIC_SEED as int;
    vstd::arithmetic::div_mod::lemma_small_mod(MAGIC_SEED as nat, w as nat);
    if n == 0 {
        assert(m * 0 == 0) by (nonlinear_arith);
        vstd::arithmetic::div_mod::lemma_small_mod(0nat, w as nat);
        vstd::arithmetic::div_mod::lemma_small_mod(seed as nat, w as nat);
        lemma_wrapping_add_is_mod(seed, vstd::wrapping::u64_specs::wrapping_mul(MAGIC_SEED, 0));
    } else {
        lemma_seed_at_offset_counts_resets(seed, (n - 1) as u64);
        let prev = spec_seed_at_offset(seed, (n - 1) as u64);
        let wmul_prev = vstd::wrapping::u64_specs::wrapping_mul(MAGIC_SEED, (n - 1) as u64);
        let wmul_n = vstd::wrapping::u64_specs::wrapping_mul(MAGIC_SEED, n);
        // Both sides equal (seed + MAGIC_SEED * n) modulo 2^64.
        lemma_wrapping_add_is_mod(seed, wmul_prev);
        lemma_wrapping_add_is_mod(seed, wmul_n);
        lemma_wrapping_add_is_mod(prev, MAGIC_SEED);
        vstd::arithmetic::div_mod::lemma_add_mod_noop_right(seed as int, m * (n - 1), w);
        vstd::arithmetic::div_mod::lemma_add_mod_noop_right(seed as int, m * (n as int), w);
        vstd::arithmetic::div_mod::lemma_add_mod_noop(seed + m * (n - 1), m, w);
        assert(seed + m * (n - 1) + m == seed + m * (n as int)) by (nonlinear_arith);
    }
}

/// Jumping the sequence forward by zero positions is the identity.
pub proof fn lemma_seed_at_offset_zero(seed: u64)
    ensures
        spec_seed_at_offset(seed, 0) == seed,
{
    lemma_seed_at_offset_counts_resets(seed, 0);
}

/// Jumping the sequence forward by one position adds `MAGIC_SEED` once,
/// wrapping.
pub proof fn lemma_seed_at_offset_one(seed: u64)
    ensures
        spec_seed_at_offset(seed, 1) == vstd::wrapping::u64_specs::wrapping_add(seed, MAGIC_SEED),
{
    lemma_seed_at_offset_counts_resets(seed, 1);
}

/// The smear in `mask_for` computes exactly the mask the bounded draw is
/// specified with: the smallest all-ones value that is at least `max - 1`.
pub proof fn lemma_mask_shape(max: u32)
    by (bit_vector)
    requires
        1 <= max,
    ensures
        mask_spec(max) >= max - 1,
        (mask_spec(max) as u64) & (((mask_spec(max) as u64) + 1) as u64) == 0,
        mask_spec(max) == 0 || (mask_spec(max) >> 1) < max - 1,
{
}

/// Every bounded draw is strictly below its exclusive maximum, whatever the
/// state and however much fuel the sampling is given.
pub proof fn lemma_bounded_result_in_range(s: (u64, u64), max: u32, fuel: nat)
    requires
        1 <= max,
    ensures
        spec_bounded(s, max, fuel).1 < max,
    decreases fuel,
{
    let r = masked_out(s, mask_spec(max));
    if r < max {
    } else if fuel == 0 {
    } else {
        lemma_bounded_result_in_range(step(s), max, (fuel - 1) as nat);
    }
}

} // verus!
