pub mod keys;
pub mod codec;
pub mod protocol;
pub mod programs;
pub mod tx;
pub mod interop;
pub mod text;
pub mod events;
pub mod client;
pub mod server;
pub mod cli;
