//! Friendship events and the transitions allowed between them.

use vstd::prelude::*;

verus! {

/// An action one user takes on a friendship with another user.
#[derive(PartialEq, Eq, Structural, Debug, Clone, Copy, Hash)]
pub enum FriendshipEvent {
    /// Send a friendship request.
    REQUEST,
    /// Cancel a friendship request.
    CANCEL,
    /// Accept a friendship request.
    ACCEPT,
    /// Reject a friendship request.
    REJECT,
    /// Delete an existing friendship.
    DELETE,
}

/// The wire name of an event.
pub open spec fn event_name(e: FriendshipEvent) -> Seq<char> {
    match e {
        FriendshipEvent::REQUEST => "request"@,
        FriendshipEvent::CANCEL => "cancel"@,
        FriendshipEvent::ACCEPT => "accept"@,
        FriendshipEvent::REJECT => "reject"@,
        FriendshipEvent::DELETE => "delete"@,
    }
}

/// The last recorded events (`None` meaning no history at all) after which `new_event`
/// may be recorded.
pub open spec fn allowed_after(new_event: FriendshipEvent, last: Option<FriendshipEvent>) -> bool {
    match new_event {
        FriendshipEvent::REQUEST => match last {
            None => true,
            Some(FriendshipEvent::CANCEL) => true,
            Some(FriendshipEvent::REJECT) => true,
            Some(FriendshipEvent::DELETE) => true,
            _ => false,
        },
        FriendshipEvent::CANCEL => last == Some(FriendshipEvent::REQUEST),
        FriendshipEvent::ACCEPT => last == Some(FriendshipEvent::REQUEST),
        FriendshipEvent::REJECT => last == Some(FriendshipEvent::REQUEST),
        FriendshipEvent::DELETE => last == Some(FriendshipEvent::ACCEPT),
    }
}

/// `new_event` differs from the last recorded event and is allowed after it.
pub open spec fn valid_transition(last: Option<FriendshipEvent>, new_event: FriendshipEvent) -> bool {
    &&& (last matches Some(e) ==> e != new_event)
    &&& allowed_after(new_event, last)
}

impl FriendshipEvent {
    /// The wire name of the event.
    pub fn as_str(&self) -> (r: &'static str)
        ensures
            r@ == event_name(*self),
    {
        match *self {
            FriendshipEvent::REQUEST => "request",
            FriendshipEvent::CANCEL => "cancel",
            FriendshipEvent::ACCEPT => "accept",
            FriendshipEvent::REJECT => "reject",
            FriendshipEvent::DELETE => "delete",
        }
    }

    /// Whether `new_event` may follow `current_event`, the last recorded event of a
    /// friendship (`None` when the friendship has no history).
    pub fn validate_new_event_is_valid(
        current_event: &Option<FriendshipEvent>,
        new_event: FriendshipEvent,
    ) -> (r: bool)
        ensures
            r == valid_transition(*current_event, new_event),
    {
        let different = match current_event {
            Some(event) => event.is_different(&new_event),
            None => true,
        };
        if different {
            Self::allowed_after(new_event, current_event)
        } else {
            false
        }
    }

    /// Whether the two events differ.
    pub fn is_different(&self, new_event: &Self) -> (r: bool)
        ensures
            r == (*self != *new_event),
    {
        *self != *new_event
    }

    fn allowed_after(new_event: FriendshipEvent, last: &Option<FriendshipEvent>) -> (r: bool)
        ensures
            r == allowed_after(new_event, *last),
    {
        match new_event {
            FriendshipEvent::REQUEST => match last {
                None => true,
                Some(FriendshipEvent::CANCEL) => true,
                Some(FriendshipEvent::REJECT) => true,
                Some(FriendshipEvent::DELETE) => true,
                Some(_) => false,
            },
            FriendshipEvent::CANCEL => matches!(last, Some(FriendshipEvent::REQUEST)),
            FriendshipEvent::ACCEPT => matches!(last, Some(FriendshipEvent::REQUEST)),
            FriendshipEvent::REJECT => matches!(last, Some(FriendshipEvent::REQUEST)),
            FriendshipEvent::DELETE => matches!(last, Some(FriendshipEvent::ACCEPT)),
        }
    }
}

/// No event may be recorded twice in a row.
pub proof fn lemma_no_repeated_event(e: FriendshipEvent)
    ensures
        !valid_transition(Some(e), e),
{
}

/// A friendship without history can only start with a request.
pub proof fn lemma_history_starts_with_request(e: FriendshipEvent)
    ensures
        valid_transition(None, e) <==> e == FriendshipEvent::REQUEST,
{
}

/// Every event has at least one predecessor after which it is valid, so no event is
/// unreachable.
pub proof fn lemma_every_event_reachable(e: FriendshipEvent)
    ensures
        exists|last: Option<FriendshipEvent>| valid_transition(last, e),
{
    match e {
        FriendshipEvent::REQUEST => assert(valid_transition(None, e)),
        FriendshipEvent::DELETE => assert(valid_transition(Some(FriendshipEvent::ACCEPT), e)),
        _ => assert(valid_transition(Some(FriendshipEvent::REQUEST), e)),
    }
}

} // verus!
