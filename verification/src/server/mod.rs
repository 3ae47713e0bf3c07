//! The indexer: it follows the programs' transactions and turns them into events.
pub mod checkpoint;
pub mod config;
pub mod error;

pub use checkpoint::{BalanceSnapshot, ServerCheckpointState, SignatureCursor};
pub use config::ServerConfig;
pub use error::{EventPublishError, ServerError, SyncError};
pub mod helpers;
pub mod publish;

pub use publish::PublishedEvent;
pub mod follows;
pub mod names;
pub mod balances;
pub mod tokens;
