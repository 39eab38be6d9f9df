//! Anti-replay containers: they hand out identifiers for outgoing packets and
//! accept each incoming identifier at most once.

pub mod ordered;
pub mod unordered;
