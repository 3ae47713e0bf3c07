//! The subjects events are published under.
use vstd::prelude::*;
use vstd::string::*;
use crate::keys::{pubkey_text, pubkey_to_string, Pubkey};
use super::event::{EventEnvelope, EventPayload};

verus! {

/// `surf.user.<key>.<leaf>`.
pub open spec fn user_subject_text(key: Seq<u8>, leaf: Seq<char>) -> Seq<char> {
    "surf.user."@ + pubkey_text(key) + leaf
}

fn user_subject(key: &Pubkey, leaf: &str) -> (s: String)
    ensures
        s@ == user_subject_text(key@, leaf@),
{
    let mut s = String::from_str("surf.user.");
    let text = pubkey_to_string(key);
    s.append(text.as_str());
    s.append(leaf);
    s
}

pub fn user_follows_subject(viewer: &Pubkey) -> (s: String)
    ensures
        s@ == user_subject_text(viewer@, ".follows"@),
{
    user_subject(viewer, ".follows")
}

pub fn user_activity_subject(owner: &Pubkey) -> (s: String)
    ensures
        s@ == user_subject_text(owner@, ".activity"@),
{
    user_subject(owner, ".activity")
}

pub fn user_balance_subject(owner: &Pubkey) -> (s: String)
    ensures
        s@ == user_subject_text(owner@, ".balance"@),
{
    user_subject(owner, ".balance")
}

pub fn user_lamports_subject(owner: &Pubkey) -> (s: String)
    ensures
        s@ == user_subject_text(owner@, ".lamports"@),
{
    user_subject(owner, ".lamports")
}

pub fn global_names_subject() -> (s: &'static str)
    ensures
        s@ == "surf.global.names"@,
{
    "surf.global.names"
}

/// The subject of each event: follows go to the follower's follows subject, balances,
/// lamports and activity to the owner's, and names to the global names subject.
pub open spec fn subject_text(payload: EventPayload) -> Seq<char> {
    match payload {
        EventPayload::FollowCreated(p) => user_subject_text(p.follower@, ".follows"@),
        EventPayload::FollowRemoved(p) => user_subject_text(p.follower@, ".follows"@),
        EventPayload::NameRegistered(_) => "surf.global.names"@,
        EventPayload::BalanceUpdated(p) => user_subject_text(p.owner@, ".balance"@),
        EventPayload::LamportsUpdated(p) => user_subject_text(p.owner@, ".lamports"@),
        EventPayload::ActivityRecorded(p) => user_subject_text(p.owner@, ".activity"@),
    }
}

pub fn subject_for_event(event: &EventEnvelope) -> (s: String)
    ensures
        s@ == subject_text(event.payload),
{
    match &event.payload {
        EventPayload::FollowCreated(p) => user_follows_subject(&p.follower),
        EventPayload::FollowRemoved(p) => user_follows_subject(&p.follower),
        EventPayload::NameRegistered(_) => String::from_str(global_names_subject()),
        EventPayload::BalanceUpdated(p) => user_balance_subject(&p.owner),
        EventPayload::LamportsUpdated(p) => user_lamports_subject(&p.owner),
        EventPayload::ActivityRecorded(p) => user_activity_subject(&p.owner),
    }
}

} // verus!

verus! {

/// Every user event goes to a subject of the user it concerns: follow events (created or
/// removed) to the follower's `.follows` subject, balance, lamports and activity events to
/// the owner's `.balance`, `.lamports` and `.activity` subjects, and name registrations
/// to `surf.global.names`. A follow and its unfollow share a subject, and the target of a
/// follow plays no part in it.
pub proof fn events_go_to_their_users_subjects(payload: EventPayload, follower: Pubkey, target: Pubkey, other: Pubkey)
    ensures
        payload matches EventPayload::FollowCreated(p) ==> subject_text(payload) == "surf.user."@ + pubkey_text(p.follower@) + ".follows"@,
        payload matches EventPayload::FollowRemoved(p) ==> subject_text(payload) == "surf.user."@ + pubkey_text(p.follower@) + ".follows"@,
        payload matches EventPayload::BalanceUpdated(p) ==> subject_text(payload) == "surf.user."@ + pubkey_text(p.owner@) + ".balance"@,
        payload matches EventPayload::LamportsUpdated(p) ==> subject_text(payload) == "surf.user."@ + pubkey_text(p.owner@) + ".lamports"@,
        payload matches EventPayload::ActivityRecorded(p) ==> subject_text(payload) == "surf.user."@ + pubkey_text(p.owner@) + ".activity"@,
        payload is NameRegistered ==> subject_text(payload) == "surf.global.names"@,
        subject_text(EventPayload::FollowCreated(super::event::FollowCreated { follower, target }))
            == subject_text(EventPayload::FollowRemoved(super::event::FollowRemoved { follower, target: other })),
{
}

} // verus!
