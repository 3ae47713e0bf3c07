//! The events the indexer publishes about the programs' activity, and the compact
//! records it keeps of a user's activity and follows.
pub mod activity;
pub mod event;
pub mod follow;
pub mod subject;

pub use activity::{ActivityKind, ActivityRecord, InvalidActivityKind, InvalidActivityRecord};
pub use event::{
    event_id, ActivityRecorded, BalanceUpdated, EventEnvelope, EventPayload, FollowCreated, FollowRemoved,
    LamportsUpdated, NameRegistered, SchemaVersion, SCHEMA_VERSION_V1,
};
pub use follow::{FollowRecord, InvalidFollowRecord};
pub use subject::{
    global_names_subject, subject_for_event, user_activity_subject, user_balance_subject, user_follows_subject,
    user_lamports_subject,
};
