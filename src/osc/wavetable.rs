use vstd::prelude::*;

use crate::osc::luts::{EXP_I16, EXP_I16_TAU, LUT_LEN, SINE_I16};
use crate::util::units::{mHz, ms, Frequency, Hz};

verus! {

/// Value of the phase accumulator that stands for one full cycle.
pub const PHI_MAX: u32 = 0x10_0000;

/// Power-of-two scale of the rate constant `alpha`, so that the per-sample
/// division by it is a shift.
pub const NORM: u64 = 0x400_0000;

/// The rate constant for a sample rate in mHz: `PHI_MAX * NORM / rate`.
pub open spec fn alpha_of(msample_rate: int) -> int {
    (PHI_MAX * NORM) / msample_rate
}

/// The phase increment per sample for a frequency in mHz and a rate
/// constant: `mfreq * alpha / NORM`. Above the sample rate it exceeds one
/// full cycle.
pub open spec fn delta_phi_of(mfreq: int, alpha: int) -> int {
    (mfreq * alpha) / (NORM as int)
}

/// Index into a table of `len` entries for a phase.
pub open spec fn table_index(len: int, phase: int) -> int {
    (len * phase) / (PHI_MAX as int)
}

/// The phase after one tick. Reaching a full cycle wraps modulo the cycle;
/// a one-shot oscillator is reset to phase zero instead.
pub open spec fn tick_phase(phase: int, delta: int, repeat: bool) -> int {
    if phase + delta >= PHI_MAX {
        if repeat {
            (phase + delta) % (PHI_MAX as int)
        } else {
            0
        }
    } else {
        phase + delta
    }
}

/// Whether the oscillator runs after one tick: a one-shot oscillator stops
/// when its phase wraps.
pub open spec fn tick_running(phase: int, delta: int, running: bool, repeat: bool) -> bool {
    running && (repeat || phase + delta < PHI_MAX)
}

/// The phase after `n` ticks.
pub open spec fn phase_after(phase: int, delta: int, repeat: bool, n: nat) -> int
    decreases n,
{
    if n == 0 {
        phase
    } else {
        tick_phase(phase_after(phase, delta, repeat, (n - 1) as nat), delta, repeat)
    }
}

/// Whether the oscillator runs after `n` ticks.
pub open spec fn running_after(phase: int, delta: int, running: bool, repeat: bool, n: nat) -> bool
    decreases n,
{
    if n == 0 {
        running
    } else {
        tick_running(
            phase_after(phase, delta, repeat, (n - 1) as nat),
            delta,
            running_after(phase, delta, running, repeat, (n - 1) as nat),
            repeat,
        )
    }
}

/// What a tick emits: the table entry at the phase while running, nothing
/// when stopped or when the table is empty.
pub open spec fn tick_output<T>(table: Seq<T>, running: bool, phase: int) -> Option<T> {
    if running && table.len() > 0 {
        Some(table[table_index(table.len() as int, phase)])
    } else {
        None
    }
}

/// A stopped generator stays stopped however many ticks pass: it emits
/// nothing until it is started again.
pub proof fn lemma_stopped_stays_stopped(phase: int, delta: int, repeat: bool, n: nat)
    ensures
        !running_after(phase, delta, false, repeat, n),
    decreases n,
{
    if n > 0 {
        lemma_stopped_stays_stopped(phase, delta, repeat, (n - 1) as nat);
    }
}

/// A one-shot generator started at phase zero with a non-zero increment
/// runs for exactly `(PHI_MAX - 1) / delta` ticks, the phase never reaching
/// a full cycle; the tick after that stops it and returns it to phase zero.
pub proof fn lemma_one_shot_cycle(delta: int, n: nat)
    requires
        0 < delta,
    ensures
        n <= (PHI_MAX - 1) / delta ==> {
            &&& running_after(0, delta, true, false, n)
            &&& phase_after(0, delta, false, n) == n * delta
            &&& n * delta < PHI_MAX
        },
        n == (PHI_MAX - 1) / delta + 1 ==> {
            &&& !running_after(0, delta, true, false, n)
            &&& phase_after(0, delta, false, n) == 0
        },
    decreases n,
{
    let last = (PHI_MAX - 1) / delta;
    vstd::arithmetic::div_mod::lemma_fundamental_div_mod((PHI_MAX - 1) as int, delta);
    assert(last * delta <= PHI_MAX - 1 < (last + 1) * delta) by (nonlinear_arith)
        requires
            PHI_MAX - 1 == delta * last + (PHI_MAX - 1) % delta,
            0 <= (PHI_MAX - 1) % delta < delta,
    ;
    if n == 0 {
        assert(n * delta == 0) by (nonlinear_arith)
            requires
                n == 0,
        ;
    } else {
        let m = (n - 1) as nat;
        lemma_one_shot_cycle(delta, m);
        assert(m * delta + delta == n * delta) by (nonlinear_arith)
            requires
                m == n - 1,
        ;
        if n <= last {
            assert(n * delta <= last * delta) by (nonlinear_arith)
                requires
                    delta > 0,
                    n <= last,
            ;
            assert(phase_after(0, delta, false, m) == m * delta);
            assert(running_after(0, delta, true, false, m));
            assert(phase_after(0, delta, false, n) == tick_phase(m * delta, delta, false));
        } else if n == last + 1 {
            assert(m == last);
            assert(phase_after(0, delta, false, m) == m * delta);
            assert(m * delta + delta >= PHI_MAX);
            assert(phase_after(0, delta, false, n) == tick_phase(m * delta, delta, false));
        }
    }
}

/// While looping, ticking never changes whether the generator runs, and
/// after `n` ticks the phase is the start phase advanced by `n` increments,
/// modulo one cycle.
pub proof fn lemma_looping_phase(phase: int, delta: int, running: bool, n: nat)
    requires
        0 <= phase < PHI_MAX,
        0 <= delta,
    ensures
        running_after(phase, delta, running, true, n) == running,
        phase_after(phase, delta, true, n) == (phase + n * delta) % (PHI_MAX as int),
    decreases n,
{
    if n == 0 {
        assert(n * delta == 0) by (nonlinear_arith)
            requires
                n == 0,
        ;
        vstd::arithmetic::div_mod::lemma_small_mod(phase as nat, PHI_MAX as nat);
    } else {
        lemma_looping_phase(phase, delta, running, (n - 1) as nat);
        let q = phase_after(phase, delta, true, (n - 1) as nat);
        assert(phase + n * delta == delta + (phase + (n - 1) * delta)) by (nonlinear_arith);
        vstd::arithmetic::div_mod::lemma_add_mod_noop_right(
            delta,
            phase + (n - 1) * delta,
            PHI_MAX as int,
        );
        assert((phase + n * delta) % (PHI_MAX as int) == (delta + q) % (PHI_MAX as int));
        if q + delta < PHI_MAX {
            vstd::arithmetic::div_mod::lemma_small_mod((q + delta) as nat, PHI_MAX as nat);
            assert((delta + q) % (PHI_MAX as int) == q + delta);
        }
        assert(phase_after(phase, delta, true, n) == tick_phase(q, delta, true));
    }
}

/// While looping, the phase sequence, and with it the sample sequence,
/// repeats with period `p` whenever `p` increments make a whole number of
/// cycles.
pub proof fn lemma_looping_period<T>(table: Seq<T>, phase: int, delta: int, running: bool, n: nat, p: nat)
    requires
        0 <= phase < PHI_MAX,
        0 <= delta,
        (p * delta) % (PHI_MAX as int) == 0,
    ensures
        phase_after(phase, delta, true, n + p) == phase_after(phase, delta, true, n),
        running_after(phase, delta, running, true, n + p) == running_after(phase, delta, running, true, n),
        tick_output(
            table,
            running_after(phase, delta, running, true, n + p),
            phase_after(phase, delta, true, n + p),
        ) == tick_output(
            table,
            running_after(phase, delta, running, true, n),
            phase_after(phase, delta, true, n),
        ),
{
    lemma_looping_phase(phase, delta, running, n);
    lemma_looping_phase(phase, delta, running, n + p);
    lemma_looping_phase(phase, delta, false, n);
    lemma_looping_phase(phase, delta, false, n + p);
    assert(phase + (n + p) * delta == (phase + n * delta) + p * delta) by (nonlinear_arith);
    vstd::arithmetic::div_mod::lemma_add_mod_noop(phase + n * delta, p * delta, PHI_MAX as int);
    vstd::arithmetic::div_mod::lemma_mod_twice(phase + n * delta, PHI_MAX as int);
}

/// The increment for a 32-bit frequency and a rate constant of a non-zero
/// sample rate is at most 2^52.
proof fn lemma_delta_phi_bound(mfreq: int, alpha: int)
    requires
        0 <= mfreq <= u32::MAX,
        0 <= alpha <= PHI_MAX * NORM,
    ensures
        mfreq * alpha <= 0xffff_ffff_int * 0x4000_0000_0000,
        delta_phi_of(mfreq, alpha) <= 0x10_0000_0000_0000,
{
    assert(mfreq * alpha <= 0xffff_ffff_int * 0x4000_0000_0000) by (nonlinear_arith)
        requires
            0 <= mfreq <= 0xffff_ffff,
            0 <= alpha <= 0x4000_0000_0000,
    ;
    vstd::arithmetic::div_mod::lemma_div_is_ordered(
        mfreq * alpha,
        0xffff_ffff_int * 0x4000_0000_0000,
        NORM as int,
    );
    assert(0xffff_ffff_int * 0x4000_0000_0000 == 0x400_0000 * (0xffff_ffff_int * 0x10_0000))
        by (nonlinear_arith);
    vstd::arithmetic::div_mod::lemma_div_multiples_vanish(0xffff_ffff_int * 0x10_0000, 0x400_0000);
}

/// Stateful wavetable signal generator.
pub struct Engine<T: 'static> {
    // If false, the oscillator stops after one period
    repeat: bool,
    // Whether the oscillator is running
    running: bool,
    // Signal frequency
    mfreq: mHz,
    // Sample rate
    msample_rate: mHz,
    // The table of one period; its length should be a power of two
    wavetable: &'static [T],
    // Phase accumulator
    phi: u32,
    // Frequency dependent phase increment
    delta_phi: u64,
    // Rate constant: the phase increment per mHz, scaled by NORM
    alpha: u64,
    // Current wavetable index
    idx: usize,
    // Length of the wavetable
    idx_max: usize,
}

impl<T: 'static> Engine<T> {
    pub closed spec fn repeats(&self) -> bool {
        self.repeat
    }

    pub closed spec fn running(&self) -> bool {
        self.running
    }

    pub closed spec fn mfreq(&self) -> u32 {
        self.mfreq.0
    }

    pub closed spec fn msample_rate(&self) -> u32 {
        self.msample_rate.0
    }

    pub closed spec fn table(&self) -> Seq<T> {
        self.wavetable@
    }

    pub closed spec fn phase(&self) -> u32 {
        self.phi
    }

    pub closed spec fn delta_phi(&self) -> u64 {
        self.delta_phi
    }

    pub closed spec fn alpha(&self) -> u64 {
        self.alpha
    }

    /// The table length the generator indexes with.
    pub closed spec fn table_len(&self) -> usize {
        self.idx_max
    }

    /// The sample rate is not zero, the derived constants match the
    /// frequency and the sample rate, and the phase is within one cycle.
    pub open spec fn wf(&self) -> bool {
        &&& self.msample_rate() > 0
        &&& self.alpha() == alpha_of(self.msample_rate() as int)
        &&& self.delta_phi() == delta_phi_of(self.mfreq() as int, self.alpha() as int)
        &&& self.phase() < PHI_MAX
        &&& self.table_len() == self.table().len()
    }

    /// Everything but the phase and the running state is the same in both.
    pub open spec fn same_settings(&self, other: &Self) -> bool {
        &&& self.repeats() == other.repeats()
        &&& self.mfreq() == other.mfreq()
        &&& self.msample_rate() == other.msample_rate()
        &&& self.table() == other.table()
        &&& self.delta_phi() == other.delta_phi()
        &&& self.alpha() == other.alpha()
    }

    fn update_idx(&mut self)
        requires
            old(self).phi < PHI_MAX,
            old(self).idx_max == old(self).wavetable@.len(),
        ensures
            final(self).idx == table_index(old(self).idx_max as int, old(self).phi as int),
            old(self).idx_max > 0 ==> final(self).idx < old(self).idx_max,
            (*final(self)) == (Engine { idx: final(self).idx, ..*old(self) }),
    {
        let len = self.idx_max as u128;
        let phi = self.phi as u128;
        proof {
            assert(len * phi <= len * (PHI_MAX as int)) by (nonlinear_arith)
                requires
                    phi < PHI_MAX,
                    len >= 0,
            ;
            assert(len * (PHI_MAX as int) < 0x1_0000_0000_0000_0000_0000_0000) by (nonlinear_arith)
                requires
                    len <= usize::MAX,
            ;
            if len > 0 {
                assert((len * phi) / (PHI_MAX as int) < len) by (nonlinear_arith)
                    requires
                        phi < PHI_MAX,
                        len > 0,
                ;
            }
        }
        self.idx = ((len * phi) / PHI_MAX as u128) as usize;
    }

    fn update_alpha(&mut self)
        requires
            old(self).msample_rate.0 > 0,
        ensures
            final(self).alpha == alpha_of(old(self).msample_rate.0 as int),
            (*final(self)) == (Engine { alpha: final(self).alpha, ..*old(self) }),
    {
        self.alpha = (PHI_MAX as u64 * NORM) / (self.msample_rate.0 as u64);
    }

    fn update_delta_phi(&mut self)
        requires
            old(self).alpha <= PHI_MAX * NORM,
        ensures
            final(self).delta_phi == delta_phi_of(old(self).mfreq.0 as int, old(self).alpha as int),
            (*final(self)) == (Engine { delta_phi: final(self).delta_phi, ..*old(self) }),
    {
        // The exact increment is `mfreq * PHI_MAX / msample_rate`. Since
        // the sample rate is an arbitrary integer, `alpha` absorbs the
        // division once per change of the sample rate, and the remaining
        // divisor NORM is a power of two.
        proof {
            lemma_delta_phi_bound(self.mfreq.0 as int, self.alpha as int);
        }
        let d: u128 = (self.mfreq.0 as u128 * self.alpha as u128) / NORM as u128;
        self.delta_phi = d as u64;
    }

    /// Advances the phase accumulator and returns the next sample, or
    /// `None` while the generator is stopped.
    ///
    /// The phase advances by one increment and wraps modulo a full cycle; a
    /// one-shot generator stops and returns to phase zero there. While
    /// running, the sample is the table entry at `len * phase / PHI_MAX`.
    #[inline]
    pub fn _next(&mut self) -> (r: Option<T>)
        where
            T: Copy,
        requires
            old(self).wf(),
        ensures
            final(self).wf(),
            final(self).same_settings(old(self)),
            final(self).phase() == tick_phase(
                old(self).phase() as int,
                old(self).delta_phi() as int,
                old(self).repeats(),
            ),
            final(self).running() == tick_running(
                old(self).phase() as int,
                old(self).delta_phi() as int,
                old(self).running(),
                old(self).repeats(),
            ),
            final(self).phase() < PHI_MAX,
            r == tick_output(old(self).table(), final(self).running(), final(self).phase() as int),
    {
        proof {
            lemma_delta_phi_bound(self.mfreq.0 as int, self.alpha as int);
        }
        // The sum fits: the phase is below 2^20 and the increment at most 2^52
        let p: u64 = self.phi as u64 + self.delta_phi;
        if p >= PHI_MAX as u64 {
            // PHI_MAX is a power of two: the wrap is a mask
            let wrapped: u64 = p & (PHI_MAX as u64 - 1);
            proof {
                assert(p & 0xf_ffff == p % 0x10_0000) by (bit_vector);
                assert(p & 0xf_ffff < 0x10_0000) by (bit_vector);
            }
            self.phi = wrapped as u32;
            if !self.repeat {
                self.stop_and_reset();
            }
        } else {
            self.phi = p as u32;
        }
        if self.is_running() && self.idx_max > 0 {
            self.update_idx();
            let out = self.wavetable[self.idx];
            Some(out)
        } else {
            None
        }
    }

    /// Sets the wavetable.
    pub fn set_wavetable(&mut self, wavetable: &'static [T])
        requires
            old(self).wf(),
        ensures
            final(self).wf(),
            final(self).table() == wavetable@,
            final(self).repeats() == old(self).repeats(),
            final(self).running() == old(self).running(),
            final(self).mfreq() == old(self).mfreq(),
            final(self).msample_rate() == old(self).msample_rate(),
            final(self).phase() == old(self).phase(),
            final(self).delta_phi() == old(self).delta_phi(),
            final(self).alpha() == old(self).alpha(),
    {
        self.wavetable = wavetable;
        self.idx_max = self.wavetable.len();
    }

    /// Sets repeat to true or false. If false, the oscillator stops after
    /// one period.
    pub fn set_repeat(&mut self, repeat: bool)
        requires
            old(self).wf(),
        ensures
            final(self).wf(),
            final(self).repeats() == repeat,
            final(self).running() == old(self).running(),
            final(self).phase() == old(self).phase(),
            final(self).mfreq() == old(self).mfreq(),
            final(self).msample_rate() == old(self).msample_rate(),
            final(self).table() == old(self).table(),
            final(self).delta_phi() == old(self).delta_phi(),
            final(self).alpha() == old(self).alpha(),
    {
        self.repeat = repeat;
    }

    /// Sets the generator into "running" mode.
    pub fn start(&mut self)
        requires
            old(self).wf(),
        ensures
            final(self).wf(),
            final(self).same_settings(old(self)),
            final(self).running(),
            final(self).phase() == old(self).phase(),
    {
        self.running = true;
    }

    /// Stops the generator; the phase is kept.
    pub fn stop(&mut self)
        requires
            old(self).wf(),
        ensures
            final(self).wf(),
            final(self).same_settings(old(self)),
            !final(self).running(),
            final(self).phase() == old(self).phase(),
    {
        self.running = false;
    }

    /// Resets the phase accumulator to 0.
    pub fn reset(&mut self)
        requires
            old(self).wf(),
        ensures
            final(self).wf(),
            final(self).same_settings(old(self)),
            final(self).running() == old(self).running(),
            final(self).phase() == 0,
    {
        self.phi = 0;
    }

    /// Resets the phase accumulator to 0 and sets the generator into
    /// "running" mode.
    pub fn reset_and_start(&mut self)
        requires
            old(self).wf(),
        ensures
            final(self).wf(),
            final(self).same_settings(old(self)),
            final(self).running(),
            final(self).phase() == 0,
    {
        self.reset();
        self.running = true;
    }

    /// Stops the generator and resets the phase accumulator to 0.
    pub fn stop_and_reset(&mut self)
        requires
            old(self).wf(),
        ensures
            final(self).wf(),
            final(self).same_settings(old(self)),
            !final(self).running(),
            final(self).phase() == 0,
    {
        self.running = false;
        self.reset();
    }

    /// True if the generator is running.
    pub fn is_running(&self) -> (r: bool)
        ensures
            r == self.running(),
    {
        self.running
    }

    /// Sets the frequency in mHz; the phase increment follows. Above the
    /// sample rate the increment exceeds a full cycle and the output aliases.
    pub fn set_mfreq(&mut self, mfreq: mHz)
        requires
            old(self).wf(),
        ensures
            final(self).wf(),
            final(self).mfreq() == mfreq.0,
            final(self).delta_phi() == delta_phi_of(mfreq.0 as int, old(self).alpha() as int),
            final(self).repeats() == old(self).repeats(),
            final(self).running() == old(self).running(),
            final(self).phase() == old(self).phase(),
            final(self).msample_rate() == old(self).msample_rate(),
            final(self).table() == old(self).table(),
            final(self).alpha() == old(self).alpha(),
    {
        self.mfreq = mfreq;
        proof {
            vstd::arithmetic::div_mod::lemma_div_is_ordered_by_denominator(
                (PHI_MAX * NORM) as int,
                1,
                self.msample_rate.0 as int,
            );
        }
        self.update_delta_phi();
    }

    /// Sets the frequency in Hz; the phase increment follows.
    pub fn set_freq(&mut self, freq: Hz)
        requires
            old(self).wf(),
            freq.0 * 1000 <= u32::MAX,
        ensures
            final(self).wf(),
            final(self).mfreq() == freq.0 * 1000,
            final(self).delta_phi() == delta_phi_of(freq.0 * 1000, old(self).alpha() as int),
            final(self).repeats() == old(self).repeats(),
            final(self).running() == old(self).running(),
            final(self).phase() == old(self).phase(),
            final(self).msample_rate() == old(self).msample_rate(),
            final(self).table() == old(self).table(),
            final(self).alpha() == old(self).alpha(),
    {
        self.set_mfreq(freq.to_mHz());
    }

    /// The sample rate in Hz, rounded down.
    pub fn get_sample_rate(&self) -> (r: Hz)
        ensures
            r.0 == self.msample_rate() / 1000,
    {
        self.msample_rate.to_Hz()
    }

    /// Sets the sample rate in mHz; the rate constant and the phase
    /// increment follow. A rate of zero is rejected and changes nothing.
    pub fn set_msample_rate(&mut self, msample_rate: mHz)
        requires
            old(self).wf(),
        ensures
            final(self).wf(),
            msample_rate.0 == 0 ==> *final(self) == *old(self),
            msample_rate.0 != 0 ==> {
                &&& final(self).msample_rate() == msample_rate.0
                &&& final(self).alpha() == alpha_of(msample_rate.0 as int)
                &&& final(self).delta_phi() == delta_phi_of(
                    old(self).mfreq() as int,
                    alpha_of(msample_rate.0 as int),
                )
            },
            final(self).repeats() == old(self).repeats(),
            final(self).running() == old(self).running(),
            final(self).phase() == old(self).phase(),
            final(self).mfreq() == old(self).mfreq(),
            final(self).table() == old(self).table(),
    {
        if msample_rate.0 == 0 {
            return;
        }
        self.msample_rate = msample_rate;
        self.update_alpha();
        proof {
            vstd::arithmetic::div_mod::lemma_div_is_ordered_by_denominator(
                (PHI_MAX * NORM) as int,
                1,
                msample_rate.0 as int,
            );
        }
        self.update_delta_phi();
    }

    /// Sets the sample rate in Hz; the rate constant and the phase
    /// increment follow. A rate of zero is rejected and changes nothing.
    pub fn set_sample_rate(&mut self, sample_rate: Hz)
        requires
            old(self).wf(),
            sample_rate.0 * 1000 <= u32::MAX,
        ensures
            final(self).wf(),
            sample_rate.0 == 0 ==> *final(self) == *old(self),
            sample_rate.0 != 0 ==> {
                &&& final(self).msample_rate() == sample_rate.0 * 1000
                &&& final(self).alpha() == alpha_of(sample_rate.0 * 1000)
                &&& final(self).delta_phi() == delta_phi_of(
                    old(self).mfreq() as int,
                    alpha_of(sample_rate.0 * 1000),
                )
            },
            final(self).repeats() == old(self).repeats(),
            final(self).running() == old(self).running(),
            final(self).phase() == old(self).phase(),
            final(self).mfreq() == old(self).mfreq(),
            final(self).table() == old(self).table(),
    {
        self.set_msample_rate(sample_rate.to_mHz());
    }

    /// A stopped, looping generator at 440 Hz and a sample rate of
    /// 44100 Hz, with an empty table.
    pub fn new() -> (r: Self)
        ensures
            r.wf(),
            r.repeats(),
            !r.running(),
            r.mfreq() == 440_000,
            r.msample_rate() == 44_100_000,
            r.alpha() == alpha_of(44_100_000),
            r.delta_phi() == delta_phi_of(440_000, alpha_of(44_100_000)),
            r.table().len() == 0,
            r.phase() == 0,
    {
        let mut s = Self {
            repeat: true,
            running: false,
            mfreq: mHz(0),
            msample_rate: mHz(1),
            wavetable: &[],
            phi: 0,
            delta_phi: 0,
            alpha: 0,
            idx: 0,
            idx_max: 0,
        };
        s.update_alpha();
        proof {
            assert(delta_phi_of(0, s.alpha as int) == 0);
        }
        s.set_sample_rate(Hz(44100));
        s.set_freq(Hz(440));
        s
    }
}

} // verus!

verus! {

/// Generator over a table that the caller sets; looping.
pub struct WavetableOscillator {
    engine: Engine<i16>,
}

impl WavetableOscillator {
    pub closed spec fn engine(&self) -> Engine<i16> {
        self.engine
    }

    /// A stopped, looping generator at 440 Hz and a sample rate of
    /// 44100 Hz, with an empty table.
    pub fn new() -> (r: Self)
        ensures
            r.engine().wf(),
            r.engine().repeats(),
            !r.engine().running(),
            r.engine().mfreq() == 440_000,
            r.engine().msample_rate() == 44_100_000,
            r.engine().table().len() == 0,
            r.engine().phase() == 0,
    {
        WavetableOscillator { engine: Engine::new() }
    }
}

impl core::ops::Deref for WavetableOscillator {
    type Target = Engine<i16>;

    fn deref(&self) -> (r: &Engine<i16>)
        ensures
            *r == self.engine(),
    {
        &self.engine
    }
}

impl core::ops::DerefMut for WavetableOscillator {
    fn deref_mut(&mut self) -> (r: &mut Engine<i16>)
        ensures
            *r == old(self).engine(),
            final(self).engine() == *final(r),
    {
        &mut self.engine
    }
}

/// Looping generator over one period of a sine wave.
pub struct SineOscillator {
    engine: Engine<i16>,
}

impl SineOscillator {
    pub closed spec fn engine(&self) -> Engine<i16> {
        self.engine
    }

    /// A stopped, looping sine generator at 440 Hz and a sample rate of
    /// 44100 Hz.
    pub fn new() -> (r: Self)
        ensures
            r.engine().wf(),
            r.engine().repeats(),
            !r.engine().running(),
            r.engine().mfreq() == 440_000,
            r.engine().msample_rate() == 44_100_000,
            r.engine().table() == SINE_I16@,
            r.engine().phase() == 0,
    {
        let mut engine = Engine::new();
        engine.set_wavetable(&SINE_I16);
        SineOscillator { engine }
    }
}

impl core::ops::Deref for SineOscillator {
    type Target = Engine<i16>;

    fn deref(&self) -> (r: &Engine<i16>)
        ensures
            *r == self.engine(),
    {
        &self.engine
    }
}

impl core::ops::DerefMut for SineOscillator {
    fn deref_mut(&mut self) -> (r: &mut Engine<i16>)
        ensures
            *r == old(self).engine(),
            final(self).engine() == *final(r),
    {
        &mut self.engine
    }
}

/// The frequency in mHz of a one-shot decay over [EXP_I16] whose time
/// constant is `decay` milliseconds: the table spans
/// `LUT_LEN / EXP_I16_TAU` time constants.
pub open spec fn decay_mfreq(decay: int) -> int {
    1_000_000int / ((decay * LUT_LEN) / (EXP_I16_TAU as int))
}

/// One-shot exponential decay envelope.
pub struct ExpDecay {
    engine: Engine<i16>,
}

impl ExpDecay {
    pub closed spec fn engine(&self) -> Engine<i16> {
        self.engine
    }

    /// A stopped, one-shot decay with a time constant of one second and a
    /// sample rate of 44100 Hz.
    pub fn new() -> (r: Self)
        ensures
            r.engine().wf(),
            !r.engine().repeats(),
            !r.engine().running(),
            r.engine().mfreq() == decay_mfreq(1000),
            r.engine().msample_rate() == 44_100_000,
            r.engine().table() == EXP_I16@,
            r.engine().phase() == 0,
    {
        let mut engine = Engine::new();
        engine.set_wavetable(&EXP_I16);
        engine.set_repeat(false);
        let mut s = ExpDecay { engine };
        s.set_decay_ms(ms(1000));
        s
    }

    /// Sets the duration of one pass over the table.
    pub fn set_period_ms(&mut self, dur: ms)
        requires
            old(self).engine().wf(),
            dur.0 > 0,
        ensures
            final(self).engine().wf(),
            final(self).engine().mfreq() == 1_000_000int / (dur.0 as int),
            final(self).engine().delta_phi() == delta_phi_of(
                1_000_000int / (dur.0 as int),
                old(self).engine().alpha() as int,
            ),
            final(self).engine().repeats() == old(self).engine().repeats(),
            final(self).engine().running() == old(self).engine().running(),
            final(self).engine().phase() == old(self).engine().phase(),
            final(self).engine().msample_rate() == old(self).engine().msample_rate(),
            final(self).engine().table() == old(self).engine().table(),
            final(self).engine().alpha() == old(self).engine().alpha(),
    {
        self.engine.set_mfreq(dur.to_mHz());
    }

    /// Sets the time constant of the decay in milliseconds.
    pub fn set_decay_ms(&mut self, decay: ms)
        requires
            old(self).engine().wf(),
            decay.0 * LUT_LEN <= u32::MAX,
            (decay.0 * LUT_LEN) / (EXP_I16_TAU as int) > 0,
        ensures
            final(self).engine().wf(),
            final(self).engine().mfreq() == decay_mfreq(decay.0 as int),
            final(self).engine().delta_phi() == delta_phi_of(
                decay_mfreq(decay.0 as int),
                old(self).engine().alpha() as int,
            ),
            final(self).engine().repeats() == old(self).engine().repeats(),
            final(self).engine().running() == old(self).engine().running(),
            final(self).engine().phase() == old(self).engine().phase(),
            final(self).engine().msample_rate() == old(self).engine().msample_rate(),
            final(self).engine().table() == old(self).engine().table(),
            final(self).engine().alpha() == old(self).engine().alpha(),
    {
        let dur = ms((decay.0 * LUT_LEN as u32) / EXP_I16_TAU as u32);
        self.set_period_ms(dur);
    }
}

impl core::ops::Deref for ExpDecay {
    type Target = Engine<i16>;

    fn deref(&self) -> (r: &Engine<i16>)
        ensures
            *r == self.engine(),
    {
        &self.engine
    }
}

impl core::ops::DerefMut for ExpDecay {
    fn deref_mut(&mut self) -> (r: &mut Engine<i16>)
        ensures
            *r == old(self).engine(),
            final(self).engine() == *final(r),
    {
        &mut self.engine
    }
}

} // verus!
