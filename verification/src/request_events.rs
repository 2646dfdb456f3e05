//! The messages sent along with friendship requests.

use vstd::prelude::*;

use crate::entities::FriendshipHistory;
use crate::text::{eq_ignore_ascii_case, eq_ignore_case};

verus! {

/// A friendship request that came with a message.
#[derive(Debug, PartialEq)]
pub struct MessageRequestEvent {
    pub friendship_id: String,
    pub acting_user: String,
    /// When the request was sent, in seconds since the Unix epoch.
    pub timestamp: i64,
    pub message: String,
}

/// The mathematical value of a [`MessageRequestEvent`].
pub struct MessageRequestEventView {
    pub friendship_id: Seq<char>,
    pub acting_user: Seq<char>,
    pub timestamp: i64,
    pub message: Seq<char>,
}

impl View for MessageRequestEvent {
    type V = MessageRequestEventView;

    open spec fn view(&self) -> MessageRequestEventView {
        MessageRequestEventView {
            friendship_id: self.friendship_id@,
            acting_user: self.acting_user@,
            timestamp: self.timestamp,
            message: self.message@,
        }
    }
}

/// The reply listing the messages of friendship requests.
#[derive(Debug)]
pub struct MessageRequestEventResponse {
    pub messages_req_events: Vec<MessageRequestEvent>,
}

/// The views of a list of events.
pub open spec fn views_of(events: Seq<MessageRequestEvent>) -> Seq<MessageRequestEventView> {
    events.map_values(|e: MessageRequestEvent| e@)
}

impl MessageRequestEventResponse {
    /// The reply listing copies of the given events, in order.
    pub fn new(messages_req_events: Vec<MessageRequestEvent>) -> (r: Self)
        ensures
            views_of(r.messages_req_events@) == views_of(messages_req_events@),
    {
        let mut messages: Vec<MessageRequestEvent> = Vec::new();
        let mut i: usize = 0;
        while i < messages_req_events.len()
            invariant
                i <= messages_req_events@.len(),
                views_of(messages@) == views_of(messages_req_events@).take(i as int),
            decreases messages_req_events.len() - i,
        {
            let e = &messages_req_events[i];
            messages.push(
                MessageRequestEvent {
                    friendship_id: e.friendship_id.clone(),
                    acting_user: e.acting_user.clone(),
                    timestamp: e.timestamp,
                    message: e.message.clone(),
                },
            );
            assert(views_of(messages_req_events@).take(i + 1) =~= views_of(
                messages_req_events@,
            ).take(i as int).push(messages_req_events@[i as int]@));
            assert(views_of(messages@) =~= views_of(messages_req_events@).take(i + 1));
            i = i + 1;
        }
        assert(views_of(messages_req_events@).take(i as int) =~= views_of(messages_req_events@));
        Self { messages_req_events: messages }
    }
}

/// The message of a history entry, when it has a non-empty one.
pub open spec fn message_of(h: FriendshipHistory) -> Option<Seq<char>> {
    match h.metadata {
        Some(meta) => match meta.message {
            Some(m) => if m@.len() > 0 {
                Some(m@)
            } else {
                None
            },
            None => None,
        },
        None => None,
    }
}

/// The request messages of a history, in order: one for each entry with a non-empty
/// message.
pub open spec fn request_messages(history: Seq<FriendshipHistory>) -> Seq<MessageRequestEventView>
    decreases history.len(),
{
    if history.len() == 0 {
        Seq::empty()
    } else {
        let h = history.last();
        let rest = request_messages(history.drop_last());
        match message_of(h) {
            Some(m) => rest.push(
                MessageRequestEventView {
                    friendship_id: h.friendship_id@,
                    acting_user: h.acting_user@,
                    timestamp: h.timestamp,
                    message: m,
                },
            ),
            None => rest,
        }
    }
}

/// Keeps the history entries that carry a non-empty message, as request messages.
pub fn get_request_events_with_messages(friendship_history: Vec<FriendshipHistory>) -> (r: Vec<
    MessageRequestEvent,
>)
    ensures
        views_of(r@) == request_messages(friendship_history@),
{
    let mut r: Vec<MessageRequestEvent> = Vec::new();
    let mut i: usize = 0;
    assert(friendship_history@.take(0) =~= Seq::<FriendshipHistory>::empty());
    while i < friendship_history.len()
        invariant
            i <= friendship_history@.len(),
            views_of(r@) == request_messages(friendship_history@.take(i as int)),
        decreases friendship_history.len() - i,
    {
        let h = &friendship_history[i];
        assert(friendship_history@.take(i + 1).drop_last() =~= friendship_history@.take(i as int));
        let message = match &h.metadata {
            Some(meta) => match &meta.message {
                Some(m) => if !m.as_str().is_empty() {
                    Some(m.clone())
                } else {
                    None
                },
                None => None,
            },
            None => None,
        };
        proof {
            broadcast use vstd::string::group_string_axioms;
        }
        match message {
            Some(m) => {
                r.push(
                    MessageRequestEvent {
                        friendship_id: h.friendship_id.clone(),
                        acting_user: h.acting_user.clone(),
                        timestamp: h.timestamp,
                        message: m,
                    },
                );
                assert(views_of(r@) =~= views_of(r@.drop_last()).push(r@.last()@));
            },
            None => {},
        }
        i = i + 1;
    }
    assert(friendship_history@.take(i as int) =~= friendship_history@);
    r
}

/// Whether the logged-in user is one of the users of a friendship (ASCII case ignored).
pub fn has_permission(logged_user_id: &str, users: Vec<String>) -> (r: bool)
    ensures
        r == exists|i: int| 0 <= i < users@.len() && eq_ignore_case(logged_user_id@, #[trigger] users@[i]@),
{
    let mut i: usize = 0;
    while i < users.len()
        invariant
            i <= users@.len(),
            forall|j: int| 0 <= j < i ==> !eq_ignore_case(logged_user_id@, #[trigger] users@[j]@),
        decreases users.len() - i,
    {
        if eq_ignore_ascii_case(logged_user_id, users[i].as_str()) {
            return true;
        }
        i = i + 1;
    }
    false
}

} // verus!
