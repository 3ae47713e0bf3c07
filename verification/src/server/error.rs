//! The indexer's errors.
use vstd::prelude::*;
use vstd::string::*;
use crate::client::Error;

verus! {

/// Publishing an event failed.
#[derive(Clone, Debug, PartialEq, Eq)]
pub enum EventPublishError {
    /// The event could not be serialized; holds the serializer's message.
    Serialize(String),
    Publish(String),
}

/// A sync pass failed.
#[derive(Clone, Debug, PartialEq, Eq)]
pub enum SyncError {
    Backend(Error),
    InvalidSignalInstruction,
    Publish(EventPublishError),
}

/// The server failed.
#[derive(Clone, Debug, PartialEq, Eq)]
pub enum ServerError {
    NatsConnect(String),
    JetStream(String),
    Rpc(String),
    Sync(String),
    Checkpoint(String),
}

/// The message each publishing error displays.
pub open spec fn publish_error_text(e: EventPublishError) -> Seq<char> {
    match e {
        EventPublishError::Serialize(m) => "failed to serialize event: "@ + m@,
        EventPublishError::Publish(m) => "failed to publish event: "@ + m@,
    }
}

/// The message each server error displays.
pub open spec fn server_error_text(e: ServerError) -> Seq<char> {
    match e {
        ServerError::NatsConnect(m) => "nats connection failed: "@ + m@,
        ServerError::JetStream(m) => "jetstream setup failed: "@ + m@,
        ServerError::Rpc(m) => "rpc request failed: "@ + m@,
        ServerError::Sync(m) => "sync loop failed: "@ + m@,
        ServerError::Checkpoint(m) => "checkpoint error: "@ + m@,
    }
}

fn prefixed(prefix: &str, rest: &str) -> (s: String)
    ensures
        s@ == prefix@ + rest@,
{
    let mut s = String::from_str(prefix);
    s.append(rest);
    s
}

impl EventPublishError {
    /// The message the error displays.
    pub fn message(&self) -> (s: String)
        ensures
            s@ == publish_error_text(*self),
    {
        match self {
            EventPublishError::Serialize(m) => prefixed("failed to serialize event: ", m.as_str()),
            EventPublishError::Publish(m) => prefixed("failed to publish event: ", m.as_str()),
        }
    }
}

impl SyncError {
    /// The message the error displays.
    pub fn message(&self) -> (s: String)
        ensures
            s@ == match *self {
                SyncError::Backend(e) => "backend request failed: "@ + crate::client::error::error_text(e),
                SyncError::InvalidSignalInstruction => "invalid signal instruction"@,
                SyncError::Publish(e) => "failed to publish event: "@ + publish_error_text(e),
            },
    {
        match self {
            SyncError::Backend(e) => {
                let inner = e.message();
                prefixed("backend request failed: ", inner.as_str())
            },
            SyncError::InvalidSignalInstruction => String::from_str("invalid signal instruction"),
            SyncError::Publish(e) => {
                let inner = e.message();
                prefixed("failed to publish event: ", inner.as_str())
            },
        }
    }
}

impl ServerError {
    /// The message the error displays.
    pub fn message(&self) -> (s: String)
        ensures
            s@ == server_error_text(*self),
    {
        match self {
            ServerError::NatsConnect(m) => prefixed("nats connection failed: ", m.as_str()),
            ServerError::JetStream(m) => prefixed("jetstream setup failed: ", m.as_str()),
            ServerError::Rpc(m) => prefixed("rpc request failed: ", m.as_str()),
            ServerError::Sync(m) => prefixed("sync loop failed: ", m.as_str()),
            ServerError::Checkpoint(m) => prefixed("checkpoint error: ", m.as_str()),
        }
    }
}

} // verus!
