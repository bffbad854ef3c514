//! Information the clap-wrapper project reads to present CLAP plugins in other formats.

pub mod auv2;
pub mod vst3;
