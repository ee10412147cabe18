use vstd::prelude::*;

use crate::util::units::mHz;

verus! {

/// One step of a 16-bit Galois LFSR: shift right, and if the bit shifted
/// out was set, xor the tap mask into the register.
pub open spec fn galois_step16(x: u16, mask: u16) -> u16 {
    if x & 1 == 1 {
        (x >> 1) ^ mask
    } else {
        x >> 1
    }
}

/// One step of a 32-bit Galois LFSR.
pub open spec fn galois_step32(x: u32, mask: u32) -> u32 {
    if x & 1 == 1 {
        (x >> 1) ^ mask
    } else {
        x >> 1
    }
}

/// Linear feedback shift register in Galois configuration
pub struct LFSR<T> {
    lfsr: T,
    mask: T,
}

impl<T: Copy> LFSR<T> {
    /// The register.
    pub closed spec fn register(&self) -> T {
        self.lfsr
    }

    /// The tap mask.
    pub closed spec fn taps(&self) -> T {
        self.mask
    }
}

/// 32-bit linear feedback shift register
impl LFSR<u32> {
    /// Steps the register and returns its new value. With the top bit set
    /// in the mask, a non-zero register stays non-zero.
    #[inline]
    pub fn next(&mut self) -> (r: u32)
        ensures
            r == galois_step32(old(self).register(), old(self).taps()),
            final(self).register() == r,
            final(self).taps() == old(self).taps(),
            old(self).register() != 0 && old(self).taps() & 0x8000_0000 != 0 ==> r != 0,
    {
        let ghost x = self.lfsr;
        let ghost m = self.mask;
        let lsb: bool = (self.lfsr & 0x01) != 0;
        self.lfsr >>= 1;
        if lsb {
            self.lfsr ^= self.mask;
        }
        proof {
            assert((x & 1 != 0) == (x & 1 == 1)) by (bit_vector);
            assert(x != 0 && m & 0x8000_0000 != 0 ==> galois_step32(x, m) != 0) by (bit_vector);
        }
        self.lfsr
    }

    /// The register seeded with 0xCAFEBABE and tap mask 0xA3000000.
    pub fn new() -> (r: Self)
        ensures
            r.register() == 0xCAFE_BABE,
            r.taps() == 0xA300_0000,
    {
        Self::default()
    }
}

impl Default for LFSR<u32> {
    fn default() -> (r: Self)
        ensures
            r.register() == 0xCAFE_BABE,
            r.taps() == 0xA300_0000,
    {
        Self { lfsr: 0xCAFE_BABE, mask: 0xA300_0000 }
    }
}

/// 16-bit linear feedback shift register
impl LFSR<u16> {
    /// Steps the register and returns its new value. With the top bit set
    /// in the mask, a non-zero register stays non-zero.
    #[inline]
    pub fn next(&mut self) -> (r: u16)
        ensures
            r == galois_step16(old(self).register(), old(self).taps()),
            final(self).register() == r,
            final(self).taps() == old(self).taps(),
            old(self).register() != 0 && old(self).taps() & 0x8000 != 0 ==> r != 0,
    {
        let ghost x = self.lfsr;
        let ghost m = self.mask;
        let lsb: bool = (self.lfsr & 0x01) != 0;
        self.lfsr >>= 1;
        if lsb {
            self.lfsr ^= self.mask;
        }
        proof {
            assert((x & 1 != 0) == (x & 1 == 1)) by (bit_vector);
            assert(x != 0 && m & 0x8000 != 0 ==> galois_step16(x, m) != 0) by (bit_vector);
        }
        self.lfsr
    }

    /// The register seeded with 0xBABE and tap mask 0xB400.
    pub fn new() -> (r: Self)
        ensures
            r.register() == 0xBABE,
            r.taps() == 0xB400,
    {
        Self::default()
    }
}

impl Default for LFSR<u16> {
    fn default() -> (r: Self)
        ensures
            r.register() == 0xBABE,
            r.taps() == 0xB400,
    {
        Self { lfsr: 0xBABE, mask: 0xB400 }
    }
}

/// The noise sample for a register value: the largest sample minus the low
/// 16 bits of the register. The result is biased: it is not symmetric
/// around zero.
pub open spec fn white_sample(x: u32) -> int {
    32767 - (x & 0xffff)
}

/// White noise generator
pub struct WhiteNoise {
    lfsr: LFSR<u32>,
}

impl WhiteNoise {
    /// The register of the underlying 32-bit LFSR.
    pub closed spec fn register(&self) -> u32 {
        self.lfsr.lfsr
    }

    /// The tap mask of the underlying 32-bit LFSR.
    pub closed spec fn taps(&self) -> u32 {
        self.lfsr.mask
    }

    /// A generator over the default 32-bit LFSR.
    pub fn new() -> (r: Self)
        ensures
            r.register() == 0xCAFE_BABE,
            r.taps() == 0xA300_0000,
    {
        let lfsr = LFSR::<u32>::default();
        let s = Self { lfsr };
        s
    }

    /// Sets the register of the LFSR.
    pub fn set_seed(&mut self, seed: u32)
        ensures
            final(self).register() == seed,
            final(self).taps() == old(self).taps(),
    {
        self.lfsr.lfsr = seed;
    }

    /// Steps the LFSR and returns the noise sample for its new value; there
    /// is always a sample.
    pub fn next(&mut self) -> (r: Option<i16>)
        ensures
            final(self).register() == galois_step32(old(self).register(), old(self).taps()),
            final(self).taps() == old(self).taps(),
            r == Some(white_sample(final(self).register()) as i16),
            i16::MIN <= white_sample(final(self).register()) <= i16::MAX,
    {
        let x = self.lfsr.next();
        let low: u32 = x & 0xFFFF;
        proof {
            assert(x & 0xffff <= 0xffff) by (bit_vector);
        }
        Some((i16::MAX as i32 - low as i32) as i16)
    }
}

/// Pink noise generator
#[allow(dead_code)]
pub struct PinkNoise {
    lfsr: LFSR<u32>,
    msample_rate: mHz,
}

/// Bit flip noise generator
#[allow(dead_code)]
pub struct BitFlipNoise {
    lfsr: LFSR<u32>,
}

/// Crackle noise generator
#[allow(dead_code)]
pub struct CrackleNoise {
    lfsr: LFSR<u32>,
    msample_rate: mHz,
}

} // verus!
