//! Instruction data of the three programs, as the clients build it.
pub mod registry;
pub mod signals;
pub mod token;
