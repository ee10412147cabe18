pub mod luts;
pub mod noise;
pub mod wavetable;
