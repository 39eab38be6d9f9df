//! Post-quantum key exchange behind one interface for many key-encapsulation
//! algorithms, chosen at run time by a numeric identifier, and the anti-replay
//! containers that police packet identifiers once a shared secret is agreed.

pub mod algorithm_dictionary;
pub mod buffer;
pub mod container;
pub mod export;
mod kem;
pub mod prelude;
pub mod replay_attack_container;

pub use container::{PQNode, PostQuantumContainer, PqError};
pub use export::PostQuantumExport;
