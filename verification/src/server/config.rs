//! The indexer's configuration.
use vstd::prelude::*;
use crate::keys::Pubkey;
use super::checkpoint::default_checkpoint_path;

verus! {

#[derive(Clone, Debug, PartialEq, Eq)]
pub struct ServerConfig {
    pub rpc_url: String,
    pub nats_url: String,
    pub stream_name: String,
    pub checkpoint_path: String,
    pub tracked_address: Option<Pubkey>,
    pub token_program: Pubkey,
    pub registry_program: Pubkey,
    pub signals_program: Pubkey,
    pub poll_interval_ms: u64,
    pub signature_batch_limit: usize,
    pub transaction_history_limit: usize,
}

impl ServerConfig {
    /// A configuration with the default checkpoint path, a one-second poll interval and
    /// batches of 100 signatures and 100 transactions.
    pub fn new(rpc_url: String, nats_url: String, stream_name: String, tracked_address: Option<Pubkey>,
        token_program: Pubkey, registry_program: Pubkey, signals_program: Pubkey) -> (c: ServerConfig)
        ensures
            c.rpc_url == rpc_url,
            c.nats_url == nats_url,
            c.stream_name == stream_name,
            c.checkpoint_path@ == ".surf-events-server/checkpoints.json"@,
            c.tracked_address == tracked_address,
            c.token_program == token_program,
            c.registry_program == registry_program,
            c.signals_program == signals_program,
            c.poll_interval_ms == 1000,
            c.signature_batch_limit == 100,
            c.transaction_history_limit == 100,
    {
        ServerConfig {
            rpc_url,
            nats_url,
            stream_name,
            checkpoint_path: default_checkpoint_path(),
            tracked_address,
            token_program,
            registry_program,
            signals_program,
            poll_interval_ms: 1_000,
            signature_batch_limit: 100,
            transaction_history_limit: 100,
        }
    }

    pub fn with_poll_interval_ms(self, poll_interval_ms: u64) -> (c: ServerConfig)
        ensures
            c == (ServerConfig { poll_interval_ms, ..self }),
    {
        ServerConfig { poll_interval_ms, ..self }
    }

    pub fn with_signature_batch_limit(self, signature_batch_limit: usize) -> (c: ServerConfig)
        ensures
            c == (ServerConfig { signature_batch_limit, ..self }),
    {
        ServerConfig { signature_batch_limit, ..self }
    }

    pub fn with_transaction_history_limit(self, transaction_history_limit: usize) -> (c: ServerConfig)
        ensures
            c == (ServerConfig { transaction_history_limit, ..self }),
    {
        ServerConfig { transaction_history_limit, ..self }
    }

    pub fn with_checkpoint_path(self, checkpoint_path: String) -> (c: ServerConfig)
        ensures
            c == (ServerConfig { checkpoint_path, ..self }),
    {
        ServerConfig { checkpoint_path, ..self }
    }
}

} // verus!
