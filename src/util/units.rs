use vstd::prelude::*;

verus! {

/// Frequency in millihertz.
#[allow(non_camel_case_types)]
#[derive(Debug, Clone, Copy, PartialEq, Eq, Structural)]
pub struct mHz(pub u32);

/// Frequency in hertz.
#[derive(Debug, Clone, Copy, PartialEq, Eq, Structural)]
pub struct Hz(pub u32);

/// Frequency in kilohertz.
#[allow(non_camel_case_types)]
#[derive(Debug, Clone, Copy, PartialEq, Eq, Structural)]
pub struct kHz(pub u32);

/// Period in milliseconds.
#[allow(non_camel_case_types)]
#[derive(Debug, Clone, Copy, PartialEq, Eq, Structural)]
pub struct ms(pub u32);

/// Period in microseconds.
#[allow(non_camel_case_types)]
#[derive(Debug, Clone, Copy, PartialEq, Eq, Structural)]
pub struct us(pub u32);

/// Conversion into the frequency units.
///
/// Between frequency units the conversion multiplies or divides by a power
/// of ten; from a period it divides a power of ten by the period. Divisions
/// round down. A conversion is available when the value can be read as a
/// frequency (a period must not be zero) and the result fits in 32 bits.
#[allow(non_snake_case)]
pub trait Frequency: Sized {
    /// The value can be read as a frequency.
    spec fn frequency_defined(&self) -> bool;

    /// The value in millihertz, rounded down.
    spec fn spec_mhz(&self) -> int;

    /// The value in hertz, rounded down.
    spec fn spec_hz(&self) -> int;

    /// The value in kilohertz, rounded down.
    spec fn spec_khz(&self) -> int;

    fn to_mHz(&self) -> (r: mHz)
        requires
            self.frequency_defined(),
            self.spec_mhz() <= u32::MAX,
        ensures
            r.0 == self.spec_mhz(),
    ;

    fn to_Hz(&self) -> (r: Hz)
        requires
            self.frequency_defined(),
            self.spec_hz() <= u32::MAX,
        ensures
            r.0 == self.spec_hz(),
    ;

    fn to_kHz(&self) -> (r: kHz)
        requires
            self.frequency_defined(),
            self.spec_khz() <= u32::MAX,
        ensures
            r.0 == self.spec_khz(),
    ;
}

/// Conversion into the period units.
///
/// Between period units the conversion multiplies or divides by a power of
/// ten; from a frequency it divides a power of ten by the frequency.
/// Divisions round down. A conversion is available when the value can be
/// read as a period (a frequency must not be zero) and the result fits in
/// 32 bits.
pub trait Period: Sized {
    /// The value can be read as a period.
    spec fn period_defined(&self) -> bool;

    /// The value in microseconds, rounded down.
    spec fn spec_us(&self) -> int;

    /// The value in milliseconds, rounded down.
    spec fn spec_ms(&self) -> int;

    fn to_us(&self) -> (r: us)
        requires
            self.period_defined(),
            self.spec_us() <= u32::MAX,
        ensures
            r.0 == self.spec_us(),
    ;

    fn to_ms(&self) -> (r: ms)
        requires
            self.period_defined(),
            self.spec_ms() <= u32::MAX,
        ensures
            r.0 == self.spec_ms(),
    ;
}

#[allow(non_snake_case)]
impl Frequency for mHz {
    open spec fn frequency_defined(&self) -> bool {
        true
    }

    open spec fn spec_mhz(&self) -> int {
        self.0 as int
    }

    open spec fn spec_hz(&self) -> int {
        self.0 as int / 1000
    }

    open spec fn spec_khz(&self) -> int {
        self.0 as int / 1_000_000
    }

    fn to_mHz(&self) -> (r: mHz) {
        mHz(self.0)
    }

    fn to_Hz(&self) -> (r: Hz) {
        Hz(self.0 / 1_000)
    }

    fn to_kHz(&self) -> (r: kHz) {
        kHz(self.0 / 1_000_000)
    }
}

impl Period for mHz {
    open spec fn period_defined(&self) -> bool {
        self.0 != 0
    }

    open spec fn spec_us(&self) -> int {
        1_000_000_000int / (self.0 as int)
    }

    open spec fn spec_ms(&self) -> int {
        1_000_000int / (self.0 as int)
    }

    fn to_us(&self) -> (r: us) {
        us(1_000_000_000 / self.0)
    }

    fn to_ms(&self) -> (r: ms) {
        ms(1_000_000 / self.0)
    }
}

#[allow(non_snake_case)]
impl Frequency for Hz {
    open spec fn frequency_defined(&self) -> bool {
        true
    }

    open spec fn spec_mhz(&self) -> int {
        self.0 * 1000
    }

    open spec fn spec_hz(&self) -> int {
        self.0 as int
    }

    open spec fn spec_khz(&self) -> int {
        self.0 as int / 1000
    }

    fn to_mHz(&self) -> (r: mHz) {
        mHz(self.0 * 1_000)
    }

    fn to_Hz(&self) -> (r: Hz) {
        Hz(self.0)
    }

    fn to_kHz(&self) -> (r: kHz) {
        kHz(self.0 / 1_000)
    }
}

impl Period for Hz {
    open spec fn period_defined(&self) -> bool {
        self.0 != 0
    }

    open spec fn spec_us(&self) -> int {
        1_000_000int / (self.0 as int)
    }

    open spec fn spec_ms(&self) -> int {
        1_000int / (self.0 as int)
    }

    fn to_us(&self) -> (r: us) {
        us(1_000_000 / self.0)
    }

    fn to_ms(&self) -> (r: ms) {
        ms(1_000 / self.0)
    }
}

#[allow(non_snake_case)]
impl Frequency for kHz {
    open spec fn frequency_defined(&self) -> bool {
        true
    }

    open spec fn spec_mhz(&self) -> int {
        self.0 * 1_000_000
    }

    open spec fn spec_hz(&self) -> int {
        self.0 * 1000
    }

    open spec fn spec_khz(&self) -> int {
        self.0 as int
    }

    fn to_mHz(&self) -> (r: mHz) {
        mHz(self.0 * 1_000_000)
    }

    fn to_Hz(&self) -> (r: Hz) {
        Hz(self.0 * 1_000)
    }

    fn to_kHz(&self) -> (r: kHz) {
        kHz(self.0)
    }
}

impl Period for kHz {
    open spec fn period_defined(&self) -> bool {
        self.0 != 0
    }

    open spec fn spec_us(&self) -> int {
        1_000int / (self.0 as int)
    }

    open spec fn spec_ms(&self) -> int {
        1int / (self.0 as int)
    }

    fn to_us(&self) -> (r: us) {
        us(1_000 / self.0)
    }

    fn to_ms(&self) -> (r: ms) {
        ms(1 / self.0)
    }
}

#[allow(non_snake_case)]
impl Frequency for ms {
    open spec fn frequency_defined(&self) -> bool {
        self.0 != 0
    }

    open spec fn spec_mhz(&self) -> int {
        1_000_000int / (self.0 as int)
    }

    open spec fn spec_hz(&self) -> int {
        1_000int / (self.0 as int)
    }

    open spec fn spec_khz(&self) -> int {
        1int / (self.0 as int)
    }

    fn to_mHz(&self) -> (r: mHz) {
        mHz(1_000_000 / self.0)
    }

    fn to_Hz(&self) -> (r: Hz) {
        Hz(1_000 / self.0)
    }

    fn to_kHz(&self) -> (r: kHz) {
        kHz(1 / self.0)
    }
}

impl Period for ms {
    open spec fn period_defined(&self) -> bool {
        true
    }

    open spec fn spec_us(&self) -> int {
        self.0 * 1000
    }

    open spec fn spec_ms(&self) -> int {
        self.0 as int
    }

    fn to_us(&self) -> (r: us) {
        us(1_000 * self.0)
    }

    fn to_ms(&self) -> (r: ms) {
        ms(self.0)
    }
}

#[allow(non_snake_case)]
impl Frequency for us {
    open spec fn frequency_defined(&self) -> bool {
        self.0 != 0
    }

    open spec fn spec_mhz(&self) -> int {
        1_000_000_000int / (self.0 as int)
    }

    open spec fn spec_hz(&self) -> int {
        1_000_000int / (self.0 as int)
    }

    open spec fn spec_khz(&self) -> int {
        1_000int / (self.0 as int)
    }

    fn to_mHz(&self) -> (r: mHz) {
        mHz(1_000_000_000 / self.0)
    }

    fn to_Hz(&self) -> (r: Hz) {
        Hz(1_000_000 / self.0)
    }

    fn to_kHz(&self) -> (r: kHz) {
        kHz(1_000 / self.0)
    }
}

impl Period for us {
    open spec fn period_defined(&self) -> bool {
        true
    }

    open spec fn spec_us(&self) -> int {
        self.0 as int
    }

    open spec fn spec_ms(&self) -> int {
        self.0 as int / 1000
    }

    fn to_us(&self) -> (r: us) {
        us(self.0)
    }

    fn to_ms(&self) -> (r: ms) {
        ms(self.0 / 1_000)
    }
}

/// A whole number of hertz survives the trip through millihertz and back,
/// whenever its millihertz value fits in 32 bits.
pub proof fn lemma_hz_mhz_round_trip(x: u32)
    requires
        x * 1000 <= u32::MAX,
    ensures
        Hz(x).spec_mhz() <= u32::MAX,
        mHz(Hz(x).spec_mhz() as u32).spec_hz() == x,
{
    vstd::arithmetic::div_mod::lemma_div_by_multiple(x as int, 1000);
}

/// Normalization constant of [Sample]: the amplitude 1.0 as a power of two,
/// one above the largest sample value.
pub const SAMPLE_NORM: i32 = 32768;

/// Two's-complement truncation of an integer to 16 bits.
pub open spec fn wrap16(x: int) -> int {
    (x + 32768) % 65536 - 32768
}

/// Integer division rounding toward zero, as Rust's `/` does (for `d > 0`).
pub open spec fn trunc_div(a: int, d: int) -> int {
    if a >= 0 {
        a / d
    } else {
        -((-a) / d)
    }
}

/// Clamps an integer to the range of `i16`.
pub open spec fn clamp16(x: int) -> int {
    if x > i16::MAX {
        i16::MAX as int
    } else if x < i16::MIN {
        i16::MIN as int
    } else {
        x
    }
}

/// Truncates a 64-bit value to 16 bits, keeping the low bits.
pub(crate) fn wrap_i16(x: i64) -> (r: i16)
    ensures
        r == wrap16(x as int),
{
    let m: i128 = (x as i128 + 32768) % 65536;
    let m: i128 = if m < 0 {
        m + 65536
    } else {
        m
    };
    (m - 32768) as i16
}

/// A signed 16-bit audio sample.
#[derive(Debug, Clone, Copy, PartialEq, Eq, Structural)]
pub struct Sample(pub i16);

impl Sample {
    /// Multiplies by `x` read as a fraction of [SAMPLE_NORM]: the product is
    /// widened, divided by 32768 (rounding toward zero) and clamped to the
    /// sample range. Since 32768 is one above the largest sample,
    /// `x == i16::MAX` scales by slightly less than one; the one quotient
    /// that does not fit, from `-32768 * -32768`, saturates to `i16::MAX`.
    pub fn multiply_normed(&self, x: Sample) -> (r: Sample)
        ensures
            r.0 == clamp16(trunc_div(x.0 * self.0, SAMPLE_NORM as int)),
    {
        proof {
            lemma_i16_product(x.0, self.0);
        }
        let p: i32 = x.0 as i32 * self.0 as i32;
        Sample(clamp_i32(p / SAMPLE_NORM))
    }

    /// Addition that clamps to the range of a sample instead of wrapping.
    pub fn saturating_add(&self, x: Sample) -> (r: Sample)
        ensures
            r.0 == clamp16(self.0 + x.0),
    {
        Sample(clamp_i32(self.0 as i32 + x.0 as i32))
    }

    /// Multiplication that clamps to the range of a sample instead of wrapping.
    pub fn saturating_mul(&self, x: Sample) -> (r: Sample)
        ensures
            r.0 == clamp16(self.0 * x.0),
    {
        proof {
            lemma_i16_product(self.0, x.0);
        }
        Sample(clamp_i32(self.0 as i32 * x.0 as i32))
    }

    /// True exactly at the two extremes of the sample range.
    pub fn is_clipping(&self) -> (r: bool)
        ensures
            r == (self.0 == i16::MAX || self.0 == i16::MIN),
    {
        self.0 == i16::MAX || self.0 == i16::MIN
    }
}

/// The product of two 16-bit values lies within 2^30 of zero.
proof fn lemma_i16_product(a: i16, b: i16)
    ensures
        -0x4000_0000 <= a * b <= 0x4000_0000,
{
    assert(-0x4000_0000 <= a * b <= 0x4000_0000) by (nonlinear_arith)
        requires
            -0x8000 <= a <= 0x7fff,
            -0x8000 <= b <= 0x7fff,
    ;
}

fn clamp_i32(x: i32) -> (r: i16)
    ensures
        r == clamp16(x as int),
{
    if x > i16::MAX as i32 {
        i16::MAX
    } else if x < i16::MIN as i32 {
        i16::MIN
    } else {
        x as i16
    }
}

} // verus!
