pub mod fx;
pub mod osc;
pub mod synth;
pub mod util;
