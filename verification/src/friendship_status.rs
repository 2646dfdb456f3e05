//! The status of a friendship, derived from its history.

use vstd::prelude::*;

use crate::entities::FriendshipHistory;
use crate::friendship_event::FriendshipEvent;

verus! {

/// Where a friendship stands between two users.
#[derive(PartialEq, Eq, Clone, Debug)]
pub enum FriendshipStatus {
    Friends,
    /// A request is pending; the field is the user who sent it.
    Requested(String),
    NotFriends,
}

/// The mathematical value of a [`FriendshipStatus`].
pub enum StatusView {
    Friends,
    Requested(Seq<char>),
    NotFriends,
}

impl View for FriendshipStatus {
    type V = StatusView;

    open spec fn view(&self) -> StatusView {
        match self {
            FriendshipStatus::Friends => StatusView::Friends,
            FriendshipStatus::Requested(u) => StatusView::Requested(u@),
            FriendshipStatus::NotFriends => StatusView::NotFriends,
        }
    }
}

/// The status that a recorded event leaves the friendship in, `acting_user` being the
/// user who performed it.
pub open spec fn status_after(acting_user: Seq<char>, event: FriendshipEvent) -> StatusView {
    match event {
        FriendshipEvent::REQUEST => StatusView::Requested(acting_user),
        FriendshipEvent::ACCEPT => StatusView::Friends,
        FriendshipEvent::CANCEL => StatusView::NotFriends,
        FriendshipEvent::REJECT => StatusView::NotFriends,
        FriendshipEvent::DELETE => StatusView::NotFriends,
    }
}

/// The status given by the last recorded history entry (not friends without history).
pub open spec fn status_of_history(last: Option<FriendshipHistory>) -> StatusView {
    match last {
        None => StatusView::NotFriends,
        Some(h) => status_after(h.acting_user@, h.event),
    }
}

impl FriendshipStatus {
    /// The status given by the last recorded history entry of a friendship.
    pub fn from_history_event(history: Option<FriendshipHistory>) -> (r: Self)
        ensures
            r@ == status_of_history(history),
    {
        match history {
            None => FriendshipStatus::NotFriends,
            Some(history) => match history.event {
                FriendshipEvent::REQUEST => FriendshipStatus::Requested(history.acting_user),
                FriendshipEvent::CANCEL => FriendshipStatus::NotFriends,
                FriendshipEvent::ACCEPT => FriendshipStatus::Friends,
                FriendshipEvent::REJECT => FriendshipStatus::NotFriends,
                FriendshipEvent::DELETE => FriendshipStatus::NotFriends,
            },
        }
    }

    /// Whether two statuses are the same.
    pub fn same_as(&self, other: &Self) -> (r: bool)
        ensures
            r == (self@ == other@),
    {
        match self {
            FriendshipStatus::Friends => matches!(other, FriendshipStatus::Friends),
            FriendshipStatus::NotFriends => matches!(other, FriendshipStatus::NotFriends),
            FriendshipStatus::Requested(a) => match other {
                FriendshipStatus::Requested(b) => a.eq(b),
                _ => false,
            },
        }
    }
}

/// The status a friendship takes after `room_event`, performed by `acting_user`; the
/// transition is assumed valid and the user allowed to perform it.
pub fn get_new_friendship_status(acting_user: &str, room_event: FriendshipEvent) -> (r:
    FriendshipStatus)
    ensures
        r@ == status_after(acting_user@, room_event),
{
    match room_event {
        FriendshipEvent::REQUEST => FriendshipStatus::Requested(acting_user.to_string()),
        FriendshipEvent::ACCEPT => FriendshipStatus::Friends,
        FriendshipEvent::CANCEL => FriendshipStatus::NotFriends,
        FriendshipEvent::REJECT => FriendshipStatus::NotFriends,
        FriendshipEvent::DELETE => FriendshipStatus::NotFriends,
    }
}

} // verus!
