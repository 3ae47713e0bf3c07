//! Choosing the event subject to read.
use vstd::prelude::*;
use vstd::string::*;
use crate::events::subject::{user_subject_text};
use crate::events::{global_names_subject, user_activity_subject, user_balance_subject, user_follows_subject, user_lamports_subject};
use crate::keys::{pubkey_text, pubkey_to_string, Pubkey};

verus! {

/// An events command failed.
#[derive(Clone, Debug, PartialEq, Eq)]
pub struct EventsError(pub String);

impl EventsError {
    /// The message the error displays.
    pub fn message(&self) -> (s: String)
        ensures
            s@ == self.0@,
    {
        self.0.clone()
    }
}

/// The event types one can ask for.
#[derive(Clone, Copy, Debug, PartialEq, Eq, Structural)]
pub enum EventType {
    FollowCreated,
    FollowRemoved,
    NameRegistered,
    BalanceUpdated,
    LamportsUpdated,
    ActivityRecorded,
}

/// The event type a name stands for, if any.
pub open spec fn event_type_of(s: Seq<char>) -> Option<EventType> {
    if s == "follow.created"@ {
        Some(EventType::FollowCreated)
    } else if s == "follow.removed"@ {
        Some(EventType::FollowRemoved)
    } else if s == "name.registered"@ {
        Some(EventType::NameRegistered)
    } else if s == "balance.updated"@ {
        Some(EventType::BalanceUpdated)
    } else if s == "lamports.updated"@ {
        Some(EventType::LamportsUpdated)
    } else if s == "activity.recorded"@ {
        Some(EventType::ActivityRecorded)
    } else {
        None
    }
}

/// The names of all event types, in order.
pub open spec fn all_event_types() -> Seq<Seq<char>> {
    seq!["follow.created"@, "follow.removed"@, "name.registered"@, "balance.updated"@, "lamports.updated"@,
        "activity.recorded"@]
}

/// Whether two texts are the same.
pub fn str_eq(a: &str, b: &str) -> (r: bool)
    ensures
        r == (a@ == b@),
{
    let n = a.unicode_len();
    if n != b.unicode_len() {
        return false;
    }
    let mut i: usize = 0;
    while i < n
        invariant
            i <= n,
            n == a@.len(),
            n == b@.len(),
            forall|j: int| 0 <= j < i ==> a@[j] == b@[j],
        decreases n - i,
    {
        if a.get_char(i) != b.get_char(i) {
            return false;
        }
        i = i + 1;
    }
    assert(a@ =~= b@);
    true
}

impl EventType {
    pub fn from_str(s: &str) -> (r: Option<EventType>)
        ensures
            r == event_type_of(s@),
    {
        if str_eq(s, "follow.created") {
            Some(EventType::FollowCreated)
        } else if str_eq(s, "follow.removed") {
            Some(EventType::FollowRemoved)
        } else if str_eq(s, "name.registered") {
            Some(EventType::NameRegistered)
        } else if str_eq(s, "balance.updated") {
            Some(EventType::BalanceUpdated)
        } else if str_eq(s, "lamports.updated") {
            Some(EventType::LamportsUpdated)
        } else if str_eq(s, "activity.recorded") {
            Some(EventType::ActivityRecorded)
        } else {
            None
        }
    }

    /// The names of all event types.
    pub fn all() -> (r: Vec<&'static str>)
        ensures
            r@.len() == 6,
            forall|k: int| 0 <= k < 6 ==> (#[trigger] r@[k])@ == all_event_types()[k],
    {
        vec!["follow.created", "follow.removed", "name.registered", "balance.updated", "lamports.updated", "activity.recorded"]
    }
}

/// Every event type's name reads back as that type.
pub proof fn event_type_names_round_trip(k: int)
    requires
        0 <= k < 6,
    ensures
        event_type_of(all_event_types()[k]) is Some,
{
    reveal_strlit("follow.created");
    reveal_strlit("follow.removed");
    reveal_strlit("name.registered");
    reveal_strlit("balance.updated");
    reveal_strlit("lamports.updated");
    reveal_strlit("activity.recorded");
}

/// The names of all event types, separated by ", ".
pub open spec fn joined_event_types() -> Seq<char> {
    "follow.created, follow.removed, name.registered, balance.updated, lamports.updated, activity.recorded"@
}

/// The subject an events command reads: a user's subject for a user event type, the
/// global names subject for names (which take no key), all of a user's subjects for a
/// key without a (known) type, and everything when neither is given (or the type is
/// unknown). A user event type without a key, or names with a key, is an error.
pub open spec fn subject_choice(pubkey: Option<Seq<u8>>, event_type: Option<Seq<char>>) -> Result<Seq<char>, Seq<char>> {
    let parsed = match event_type {
        Some(t) => event_type_of(t),
        None => None,
    };
    match (pubkey, parsed) {
        (Some(k), Some(EventType::FollowCreated)) => Ok(user_subject_text(k, ".follows"@)),
        (Some(k), Some(EventType::FollowRemoved)) => Ok(user_subject_text(k, ".follows"@)),
        (Some(k), Some(EventType::BalanceUpdated)) => Ok(user_subject_text(k, ".balance"@)),
        (Some(k), Some(EventType::LamportsUpdated)) => Ok(user_subject_text(k, ".lamports"@)),
        (Some(k), Some(EventType::ActivityRecorded)) => Ok(user_subject_text(k, ".activity"@)),
        (Some(_), Some(EventType::NameRegistered)) => Err("name.registered events are global; omit --pubkey for global events"@),
        (None, Some(EventType::NameRegistered)) => Ok("surf.global.names"@),
        (Some(k), None) => Ok("surf.user."@ + pubkey_text(k) + ".*"@),
        (None, None) => Ok("surf.>"@),
        (None, Some(_)) => Err("event type '"@ + event_type->Some_0 + "' requires --pubkey; valid types: "@ + joined_event_types()),
    }
}

pub fn build_subject(pubkey: Option<&Pubkey>, event_type: Option<&str>) -> (r: Result<String, EventsError>)
    ensures
        match subject_choice(match pubkey { Some(k) => Some(k@), None => None }, match event_type { Some(t) => Some(t@), None => None }) {
            Ok(s) => r matches Ok(out) && out@ == s,
            Err(m) => r matches Err(e) && e.0@ == m,
        },
{
    let parsed = match event_type {
        Some(t) => EventType::from_str(t),
        None => None,
    };
    match pubkey {
        Some(pk) => match parsed {
            Some(EventType::FollowCreated) => Ok(user_follows_subject(pk)),
            Some(EventType::FollowRemoved) => Ok(user_follows_subject(pk)),
            Some(EventType::BalanceUpdated) => Ok(user_balance_subject(pk)),
            Some(EventType::LamportsUpdated) => Ok(user_lamports_subject(pk)),
            Some(EventType::ActivityRecorded) => Ok(user_activity_subject(pk)),
            Some(EventType::NameRegistered) => Err(EventsError(String::from_str(
                "name.registered events are global; omit --pubkey for global events",
            ))),
            None => {
                let mut s = String::from_str("surf.user.");
                let text = pubkey_to_string(pk);
                s.append(text.as_str());
                s.append(".*");
                Ok(s)
            },
        },
        None => match parsed {
            Some(EventType::NameRegistered) => Ok(String::from_str(global_names_subject())),
            None => Ok(String::from_str("surf.>")),
            Some(_) => {
                let t = match event_type {
                    Some(t) => t,
                    None => "unknown",
                };
                let mut m = String::from_str("event type '");
                m.append(t);
                m.append("' requires --pubkey; valid types: ");
                m.append("follow.created, follow.removed, name.registered, balance.updated, lamports.updated, activity.recorded");
                Err(EventsError(m))
            },
        },
    }
}

} // verus!

verus! {

/// The event type each payload is of.
pub open spec fn type_of_payload(p: crate::events::EventPayload) -> EventType {
    match p {
        crate::events::EventPayload::FollowCreated(_) => EventType::FollowCreated,
        crate::events::EventPayload::FollowRemoved(_) => EventType::FollowRemoved,
        crate::events::EventPayload::NameRegistered(_) => EventType::NameRegistered,
        crate::events::EventPayload::BalanceUpdated(_) => EventType::BalanceUpdated,
        crate::events::EventPayload::LamportsUpdated(_) => EventType::LamportsUpdated,
        crate::events::EventPayload::ActivityRecorded(_) => EventType::ActivityRecorded,
    }
}

/// The user an event concerns: the follower of a follow event, the owner of a balance,
/// lamports or activity event; none for a name registration.
pub open spec fn payload_user(p: crate::events::EventPayload) -> Option<Seq<u8>> {
    match p {
        crate::events::EventPayload::FollowCreated(f) => Some(f.follower@),
        crate::events::EventPayload::FollowRemoved(f) => Some(f.follower@),
        crate::events::EventPayload::NameRegistered(_) => None,
        crate::events::EventPayload::BalanceUpdated(b) => Some(b.owner@),
        crate::events::EventPayload::LamportsUpdated(l) => Some(l.owner@),
        crate::events::EventPayload::ActivityRecorded(a) => Some(a.owner@),
    }
}

/// The six type names are pairwise different.
proof fn lemma_type_names_differ()
    ensures
        "follow.created"@ != "follow.removed"@,
        "follow.created"@ != "name.registered"@,
        "follow.created"@ != "balance.updated"@,
        "follow.created"@ != "lamports.updated"@,
        "follow.created"@ != "activity.recorded"@,
        "follow.removed"@ != "name.registered"@,
        "follow.removed"@ != "balance.updated"@,
        "follow.removed"@ != "lamports.updated"@,
        "follow.removed"@ != "activity.recorded"@,
        "name.registered"@ != "balance.updated"@,
        "name.registered"@ != "lamports.updated"@,
        "name.registered"@ != "activity.recorded"@,
        "balance.updated"@ != "lamports.updated"@,
        "balance.updated"@ != "activity.recorded"@,
        "lamports.updated"@ != "activity.recorded"@,
{
    reveal_strlit("follow.created");
    reveal_strlit("follow.removed");
    reveal_strlit("name.registered");
    reveal_strlit("balance.updated");
    reveal_strlit("lamports.updated");
    reveal_strlit("activity.recorded");
    assert("follow.created"@.len() == 14 && "follow.removed"@.len() == 14);
    assert("name.registered"@.len() == 15 && "balance.updated"@.len() == 15);
    assert("lamports.updated"@.len() == 16 && "activity.recorded"@.len() == 17);
    assert("follow.created"@[7] != "follow.removed"@[7]);
    assert("name.registered"@[0] != "balance.updated"@[0]);
}

/// An event's type name is the command line's name of that very type, so two events of
/// different types never share a name.
pub proof fn event_type_names_name_their_types(p: crate::events::EventPayload, q: crate::events::EventPayload)
    ensures
        event_type_of(crate::events::event::event_type_text(p)) == Some(type_of_payload(p)),
        type_of_payload(p) != type_of_payload(q) ==>
            crate::events::event::event_type_text(p) != crate::events::event::event_type_text(q),
{
    lemma_type_names_differ();
    reveal_strlit("follow.created");
    reveal_strlit("follow.removed");
    reveal_strlit("name.registered");
    reveal_strlit("balance.updated");
    reveal_strlit("lamports.updated");
    reveal_strlit("activity.recorded");
}

/// The events command reads where events are published: asked for the events of a type
/// concerning a user, it chooses the subject an event of that type concerning that user
/// is published under (and, for name registrations, asked without a user, the global
/// names subject). In particular the activity of user `k` is read from
/// `surf.user.<k>.activity`.
pub proof fn chosen_subjects_are_published_subjects(p: crate::events::EventPayload, k: Seq<u8>)
    ensures
        payload_user(p) == Some(k) ==> subject_choice(Some(k), Some(crate::events::event::event_type_text(p)))
            == Ok::<Seq<char>, Seq<char>>(crate::events::subject::subject_text(p)),
        p is NameRegistered ==> subject_choice(None, Some(crate::events::event::event_type_text(p)))
            == Ok::<Seq<char>, Seq<char>>(crate::events::subject::subject_text(p)),
        subject_choice(Some(k), Some("activity.recorded"@)) == Ok::<Seq<char>, Seq<char>>("surf.user."@ + pubkey_text(k) + ".activity"@),
        subject_choice(Some(k), Some("balance.updated"@)) == Ok::<Seq<char>, Seq<char>>("surf.user."@ + pubkey_text(k) + ".balance"@),
        subject_choice(Some(k), Some("lamports.updated"@)) == Ok::<Seq<char>, Seq<char>>("surf.user."@ + pubkey_text(k) + ".lamports"@),
        subject_choice(Some(k), Some("follow.created"@)) == Ok::<Seq<char>, Seq<char>>("surf.user."@ + pubkey_text(k) + ".follows"@),
        subject_choice(Some(k), Some("follow.removed"@)) == Ok::<Seq<char>, Seq<char>>("surf.user."@ + pubkey_text(k) + ".follows"@),
{
    lemma_type_names_differ();
    reveal_strlit("follow.created");
    reveal_strlit("follow.removed");
    reveal_strlit("name.registered");
    reveal_strlit("balance.updated");
    reveal_strlit("lamports.updated");
    reveal_strlit("activity.recorded");
}

} // verus!
