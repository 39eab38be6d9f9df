//! The items that a user of the key exchange needs, in one import.

pub use crate::algorithm_dictionary;
pub use crate::container::{PQNode, PostQuantumContainer, PqError};
pub use crate::export::PostQuantumExport;
