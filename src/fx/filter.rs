use vstd::prelude::*;

use crate::util::units::{mHz, trunc_div, wrap16, wrap_i16};

verus! {

/// Fixed-point scale of the filter coefficients: 1.0 is `NORM`.
pub const NORM: u32 = 4096;

/// The largest resonance; anything above it is treated as it.
pub const Q_MAX: u32 = NORM;

/// The frequency coefficient for a cutoff and a sample rate, both in mHz:
/// `NORM * mfreq / msample_rate`, rounded down.
pub open spec fn ft_of(mfreq: int, msample_rate: int) -> int {
    (NORM * mfreq) / msample_rate
}

/// The inverse resonance coefficient: `NORM - q`, or zero above `Q_MAX`.
pub open spec fn q_inv_of(q: int) -> int {
    if q > NORM {
        0
    } else {
        NORM - q
    }
}

/// `c * x / NORM`, the product widened, rounded toward zero and truncated
/// to 16 bits.
pub open spec fn scaled(c: int, x: int) -> int {
    wrap16(trunc_div(c * x, NORM as int))
}

/// Low-pass output after one step.
pub open spec fn next_lp(lp: int, bp: int, ft: int) -> int {
    wrap16(lp + scaled(ft, bp))
}

/// High-pass output after one step, from the new low-pass output.
pub open spec fn next_hp(input: int, new_lp: int, bp: int, q_inv: int) -> int {
    wrap16(input - new_lp - scaled(q_inv, bp))
}

/// Band-pass output after one step, from the new high-pass output.
pub open spec fn next_bp(bp: int, new_hp: int, ft: int) -> int {
    wrap16(bp + scaled(ft, new_hp))
}

/// Notch output after one step, from the new high-pass and low-pass outputs.
pub open spec fn next_no(new_hp: int, new_lp: int) -> int {
    wrap16(new_hp + new_lp)
}

/// Simple and efficient state variable filter (Chamberlin version), after
/// Hal Chamberlin, "Musical Applications of Microprocessors", 2nd Ed,
/// Hayden Book Company 1985, pp 490-492.
///
/// The outputs are 16-bit and wrap around on overflow, which extreme
/// inputs and resonance can cause; they are not saturated.
pub struct StateVariableFilter {
    lp: i16,
    bp: i16,
    hp: i16,
    no: i16,
    ft: u64,
    q_inv: u32,
    mfreq: mHz,
    msample_rate: mHz,
}

impl StateVariableFilter {
    pub closed spec fn lp(&self) -> i16 {
        self.lp
    }

    pub closed spec fn bp(&self) -> i16 {
        self.bp
    }

    pub closed spec fn hp(&self) -> i16 {
        self.hp
    }

    pub closed spec fn no(&self) -> i16 {
        self.no
    }

    /// The frequency coefficient.
    pub closed spec fn ft(&self) -> u64 {
        self.ft
    }

    /// The inverse resonance coefficient.
    pub closed spec fn q_inv(&self) -> u32 {
        self.q_inv
    }

    pub closed spec fn mfreq(&self) -> u32 {
        self.mfreq.0
    }

    pub closed spec fn msample_rate(&self) -> u32 {
        self.msample_rate.0
    }

    /// The sample rate is not zero, and the frequency coefficient matches
    /// the cutoff and the sample rate.
    pub open spec fn wf(&self) -> bool {
        &&& self.msample_rate() > 0
        &&& self.ft() == ft_of(self.mfreq() as int, self.msample_rate() as int)
        &&& self.q_inv() <= NORM
    }

    /// A filter at rest with cutoff 0, no resonance and a sample rate of
    /// 44100 Hz.
    pub fn new() -> (r: Self)
        ensures
            r.wf(),
            r.lp() == 0,
            r.bp() == 0,
            r.hp() == 0,
            r.no() == 0,
            r.mfreq() == 0,
            r.ft() == 0,
            r.q_inv() == NORM,
            r.msample_rate() == 44_100_000,
    {
        Self {
            lp: 0,
            bp: 0,
            hp: 0,
            no: 0,
            ft: 0,
            q_inv: NORM - 0,
            mfreq: mHz(0),
            msample_rate: mHz(44_100_000),
        }
    }

    /// Feeds one input sample. The update order matters: low-pass from the
    /// old band-pass, high-pass from the new low-pass, band-pass from the
    /// new high-pass, notch from both.
    pub fn feed(&mut self, signal: i16)
        requires
            old(self).wf(),
        ensures
            final(self).wf(),
            final(self).lp() == next_lp(old(self).lp() as int, old(self).bp() as int, old(self).ft() as int),
            final(self).hp() == next_hp(
                signal as int,
                final(self).lp() as int,
                old(self).bp() as int,
                old(self).q_inv() as int,
            ),
            final(self).bp() == next_bp(old(self).bp() as int, final(self).hp() as int, old(self).ft() as int),
            final(self).no() == next_no(final(self).hp() as int, final(self).lp() as int),
            final(self).ft() == old(self).ft(),
            final(self).q_inv() == old(self).q_inv(),
            final(self).mfreq() == old(self).mfreq(),
            final(self).msample_rate() == old(self).msample_rate(),
    {
        self.lp = wrap_i16(self.lp as i64 + scale(self.ft, self.bp) as i64);
        self.hp = wrap_i16(signal as i64 - self.lp as i64 - scale(self.q_inv as u64, self.bp) as i64);
        self.bp = wrap_i16(self.bp as i64 + scale(self.ft, self.hp) as i64);
        self.no = wrap_i16(self.hp as i64 + self.lp as i64);
    }

    pub fn get_lp(&self) -> (r: i16)
        ensures
            r == self.lp(),
    {
        self.lp
    }

    pub fn get_bp(&self) -> (r: i16)
        ensures
            r == self.bp(),
    {
        self.bp
    }

    pub fn get_hp(&self) -> (r: i16)
        ensures
            r == self.hp(),
    {
        self.hp
    }

    pub fn get_no(&self) -> (r: i16)
        ensures
            r == self.no(),
    {
        self.no
    }

    /// Sets the cutoff frequency; the frequency coefficient follows. The
    /// coefficient is a first order approximation, which deviates close to
    /// the Nyquist frequency.
    pub fn set_mfreq(&mut self, mfreq: mHz)
        requires
            old(self).wf(),
        ensures
            final(self).wf(),
            final(self).mfreq() == mfreq.0,
            final(self).ft() == ft_of(mfreq.0 as int, old(self).msample_rate() as int),
            final(self).q_inv() == old(self).q_inv(),
            final(self).msample_rate() == old(self).msample_rate(),
            final(self).lp() == old(self).lp(),
            final(self).bp() == old(self).bp(),
            final(self).hp() == old(self).hp(),
            final(self).no() == old(self).no(),
    {
        self.mfreq = mfreq;
        self.update_ft();
    }

    /// Sets the resonance; above `Q_MAX` it is clamped to `Q_MAX`, the edge
    /// of self-oscillation.
    pub fn set_q(&mut self, q: u32)
        requires
            old(self).wf(),
        ensures
            final(self).wf(),
            final(self).q_inv() == q_inv_of(q as int),
            final(self).ft() == old(self).ft(),
            final(self).mfreq() == old(self).mfreq(),
            final(self).msample_rate() == old(self).msample_rate(),
            final(self).lp() == old(self).lp(),
            final(self).bp() == old(self).bp(),
            final(self).hp() == old(self).hp(),
            final(self).no() == old(self).no(),
    {
        if q > NORM {
            self.q_inv = 0;
        } else {
            self.q_inv = NORM - q;
        }
    }

    /// Sets the sample rate; the frequency coefficient follows. A rate of
    /// zero is rejected and changes nothing.
    pub fn set_msample_rate(&mut self, msample_rate: mHz)
        requires
            old(self).wf(),
        ensures
            final(self).wf(),
            msample_rate.0 == 0 ==> *final(self) == *old(self),
            msample_rate.0 != 0 ==> final(self).msample_rate() == msample_rate.0,
            msample_rate.0 != 0 ==> final(self).ft() == ft_of(old(self).mfreq() as int, msample_rate.0 as int),
            final(self).mfreq() == old(self).mfreq(),
            final(self).q_inv() == old(self).q_inv(),
            final(self).lp() == old(self).lp(),
            final(self).bp() == old(self).bp(),
            final(self).hp() == old(self).hp(),
            final(self).no() == old(self).no(),
    {
        if msample_rate.0 == 0 {
            return;
        }
        self.msample_rate = msample_rate;
        self.update_ft();
    }

    fn update_ft(&mut self)
        requires
            old(self).msample_rate.0 > 0,
            old(self).q_inv <= NORM,
        ensures
            final(self).wf(),
            (*final(self)) == (StateVariableFilter { ft: final(self).ft, ..*old(self) }),
    {
        let m = self.mfreq.0 as u64;
        proof {
            assert(NORM * m <= NORM * 0xffff_ffff) by (nonlinear_arith)
                requires
                    m <= 0xffff_ffff,
            ;
        }
        self.ft = (NORM as u64 * m) / self.msample_rate.0 as u64;
    }
}

/// `c * x / NORM` for a coefficient of the filter and a sample.
fn scale(c: u64, x: i16) -> (r: i16)
    requires
        c <= NORM * 0xffff_ffff,
    ensures
        r == scaled(c as int, x as int),
{
    proof {
        assert(-0x8000 * (NORM * 0xffff_ffff) <= c * x <= 0x8000 * (NORM * 0xffff_ffff)) by (nonlinear_arith)
            requires
                0 <= c <= NORM * 0xffff_ffff,
                -0x8000 <= x < 0x8000,
        ;
    }
    let p: i64 = c as i64 * x as i64;
    wrap_i16(p / NORM as i64)
}

/// Silence is at rest: with all outputs at zero, a zero input leaves every
/// output at zero, whatever the coefficients.
pub proof fn lemma_silence_is_at_rest(ft: int, q_inv: int)
    ensures
        next_lp(0, 0, ft) == 0,
        next_hp(0, 0, 0, q_inv) == 0,
        next_bp(0, 0, ft) == 0,
        next_no(0, 0) == 0,
{
    assert(ft * 0 == 0);
    assert(q_inv * 0 == 0);
}

/// The frequency coefficient scales with the cutoff and inversely with the
/// sample rate: doubling the sample rate halves it (rounding down), and
/// doubling the cutoff doubles it, up to one unit of rounding.
pub proof fn lemma_ft_scaling(mfreq: int, msample_rate: int)
    requires
        mfreq >= 0,
        msample_rate > 0,
    ensures
        ft_of(mfreq, 2 * msample_rate) == ft_of(mfreq, msample_rate) / 2,
        2 * ft_of(mfreq, msample_rate) <= ft_of(2 * mfreq, msample_rate) <= 2 * ft_of(mfreq, msample_rate) + 1,
{
    let a = NORM * mfreq;
    vstd::arithmetic::div_mod::lemma_div_denominator(a, msample_rate, 2);
    assert(msample_rate * 2 == 2 * msample_rate);
    let q = a / msample_rate;
    let r = a % msample_rate;
    vstd::arithmetic::div_mod::lemma_fundamental_div_mod(a, msample_rate);
    assert(NORM * (2 * mfreq) == 2 * a) by (nonlinear_arith)
        requires
            a == NORM * mfreq,
    ;
    assert(2 * a == msample_rate * (2 * q) + 2 * r) by (nonlinear_arith)
        requires
            a == msample_rate * q + r,
    ;
    if 2 * r < msample_rate {
        vstd::arithmetic::div_mod::lemma_div_multiples_vanish_fancy(2 * q, 2 * r, msample_rate);
    } else {
        assert(2 * a == msample_rate * (2 * q + 1) + (2 * r - msample_rate)) by (nonlinear_arith)
            requires
                2 * a == msample_rate * (2 * q) + 2 * r,
        ;
        vstd::arithmetic::div_mod::lemma_div_multiples_vanish_fancy(
            2 * q + 1,
            2 * r - msample_rate,
            msample_rate,
        );
    }
}

} // verus!
