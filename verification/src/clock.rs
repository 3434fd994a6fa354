//! Bresenham-style fractional clock divider.

use vstd::prelude::*;

verus! {

/// One Bresenham step: add the numerator to the phase, and fire, taking the
/// denominator back off, when the phase reaches the denominator.
pub open spec fn bresenham_step(phase: int, num: int, den: int) -> (int, bool) {
    if phase + num >= den {
        (phase + num - den, true)
    } else {
        (phase + num, false)
    }
}

/// The phase and the number of fires after `k` steps from `phase`.
pub open spec fn bresenham_run(phase: int, num: int, den: int, k: nat) -> (int, int)
    decreases k,
{
    if k == 0 {
        (phase, 0)
    } else {
        let (p, f) = bresenham_run(phase, num, den, (k - 1) as nat);
        let (q, fired) = bresenham_step(p, num, den);
        (q, f + if fired { 1int } else { 0 })
    }
}

/// After `k` steps from a phase `p0` below the denominator, the phase and
/// the fires account for every numerator added:
/// `phase + fires * den == p0 + k * num`, and the phase stays below the
/// denominator.
pub proof fn lemma_bresenham_invariant_from(p0: int, num: int, den: int, k: nat)
    requires
        0 <= num <= den,
        0 <= p0 < den,
    ensures
        bresenham_run(p0, num, den, k).0 + bresenham_run(p0, num, den, k).1 * den == p0 + k
            * num,
        0 <= bresenham_run(p0, num, den, k).0 < den,
        0 <= bresenham_run(p0, num, den, k).1,
    decreases k,
{
    if k > 0 {
        lemma_bresenham_invariant_from(p0, num, den, (k - 1) as nat);
        let (p, f) = bresenham_run(p0, num, den, (k - 1) as nat);
        assert((f + 1) * den == f * den + den) by (nonlinear_arith);
        assert(k * num == (k - 1) * num + num) by (nonlinear_arith);
    } else {
        assert(k * num == 0 && 0 * den == 0) by (nonlinear_arith)
            requires
                k == 0,
        ;
    }
}

/// After `k` steps from zero, the phase and the fires account for every
/// numerator added: `phase + fires * den == k * num`, and the phase stays
/// below the denominator.
pub proof fn lemma_bresenham_invariant(num: int, den: int, k: nat)
    requires
        0 <= num <= den,
        den > 0,
    ensures
        bresenham_run(0, num, den, k).0 + bresenham_run(0, num, den, k).1 * den == k * num,
        0 <= bresenham_run(0, num, den, k).0 < den,
        0 <= bresenham_run(0, num, den, k).1,
{
    lemma_bresenham_invariant_from(0, num, den, k);
}

/// Over `k` primary ticks from any phase `p0` below the denominator, a
/// divider of ratio `num / den` (with `num <= den`) fires exactly
/// `(p0 + k * num) / den` times and ends at phase `(p0 + k * num) % den`.
pub proof fn law_bresenham_count_from_any_phase(p0: int, num: int, den: int, k: nat)
    requires
        0 <= num <= den,
        0 <= p0 < den,
    ensures
        bresenham_run(p0, num, den, k) == ((p0 + k * num) % den, (p0 + k * num) / den),
{
    lemma_bresenham_invariant_from(p0, num, den, k);
    let (p, f) = bresenham_run(p0, num, den, k);
    vstd::arithmetic::div_mod::lemma_fundamental_div_mod_converse(p0 + k * num, den, f, p);
}

/// Over `den` primary ticks from a zero phase, a divider of ratio
/// `num / den` (with `num <= den`) fires exactly `num` times and comes back
/// to a zero phase.
pub proof fn law_bresenham_exact_over_one_period(num: int, den: int)
    requires
        0 <= num <= den,
        den > 0,
    ensures
        bresenham_run(0, num, den, den as nat) == (0int, num),
{
    lemma_bresenham_invariant(num, den, den as nat);
    let (p, f) = bresenham_run(0, num, den, den as nat);
    assert(p + f * den == den * num);
    assert(p == 0 && f == num) by (nonlinear_arith)
        requires
            p + f * den == den * num,
            0 <= p < den,
            0 <= f,
            den > 0,
    {
        assert(p == den * (num - f));
        if num - f >= 1 {
            assert(den * (num - f) >= den);
        } else if num - f <= -1 {
            assert(den * (num - f) <= -den);
        }
    }
}

/// Bresenham-style fractional clock divider.
///
/// The secondary clock fires `numerator` times per `denominator` primary
/// ticks.
pub struct ClockDivider {
    pub phase_accum: u32,
    pub numerator: u32,
    pub denominator: u32,
}

impl ClockDivider {
    /// Create a new clock divider with the given ratio.
    pub fn new(numerator: u32, denominator: u32) -> (r: Self)
        ensures
            r.phase_accum == 0,
            r.numerator == numerator,
            r.denominator == denominator,
    {
        ClockDivider { phase_accum: 0, numerator, denominator }
    }

    /// Advance one primary clock tick. Returns `true` if the secondary clock
    /// should tick this cycle.
    pub fn tick(&mut self) -> (fired: bool)
        requires
            old(self).phase_accum + old(self).numerator <= u32::MAX,
        ensures
            (final(self).phase_accum as int, fired) == bresenham_step(
                old(self).phase_accum as int,
                old(self).numerator as int,
                old(self).denominator as int,
            ),
            final(self).numerator == old(self).numerator,
            final(self).denominator == old(self).denominator,
    {
        self.phase_accum = self.phase_accum + self.numerator;
        if self.phase_accum >= self.denominator {
            self.phase_accum = self.phase_accum - self.denominator;
            true
        } else {
            false
        }
    }

    /// The current phase accumulator value.
    pub fn phase(&self) -> (r: u32)
        ensures
            r == self.phase_accum,
    {
        self.phase_accum
    }

    /// Set the phase accumulator.
    pub fn set_phase(&mut self, phase: u32)
        ensures
            final(self).phase_accum == phase,
            final(self).numerator == old(self).numerator,
            final(self).denominator == old(self).denominator,
    {
        self.phase_accum = phase;
    }

    /// Reset the phase accumulator to zero.
    pub fn reset(&mut self)
        ensures
            final(self).phase_accum == 0,
            final(self).numerator == old(self).numerator,
            final(self).denominator == old(self).denominator,
    {
        self.phase_accum = 0;
    }
}

} // verus!
