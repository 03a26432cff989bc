//! Named multi-beam burst patterns for enemy fire.

pub mod flat_spray;
pub mod line_spray;
