//! Friendship events sent to a room: how an event changes the friendship status, and
//! the laws that relate it to the validator and to the recorded history.

use vstd::prelude::*;
use vstd::string::*;

use crate::entities::{last_event, FriendshipHistory};
use crate::error::{CommonError, SynapseError};
use crate::synapse::{RoomMember, RoomMembersResponse};
use crate::friendship_event::{valid_transition, FriendshipEvent};
use crate::friendship_status::{status_after, status_of_history, FriendshipStatus, StatusView};
use crate::text::{eq_ignore_ascii_case, eq_ignore_case};
use crate::validator::{acted_last, validation_error};

verus! {

/// The reply to a friendship event stored in a room.
pub struct RoomEventResponse {
    pub event_id: String,
}

/// The reply to joining a room.
pub struct RoomJoinResponse {
    pub room_id: String,
}

/// The rooms a user joined.
pub struct JoinedRoomsResponse {
    pub joined_rooms: Vec<String>,
}

/// Body of a friendship event sent to a room.
pub struct RoomEventRequestBody {
    /// The friendship event.
    pub event_type: FriendshipEvent,
    /// The message that goes with a request, if any.
    pub message: Option<String>,
}

/// A friendship event as sent to a room.
pub struct RoomInfo<'a> {
    pub room_event: FriendshipEvent,
    pub room_message_body: Option<&'a str>,
    pub room_id: &'a str,
}

impl RoomEventRequestBody {
    /// The body storing `room_event`, with the message that goes with it.
    pub fn new(room_event: FriendshipEvent, room_message_body: Option<&str>) -> (r: Self)
        ensures
            r.event_type == room_event,
            r.message is Some <==> room_message_body is Some,
            r.message matches Some(m) ==> m@ == room_message_body->0@,
    {
        RoomEventRequestBody {
            event_type: room_event,
            message: match room_message_body {
                Some(m) => Some(m.to_string()),
                None => None,
            },
        }
    }
}

/// The address of a room member (empty when it is not known).
pub open spec fn member_address(m: RoomMember) -> Seq<char> {
    match m.social_user_id {
        Some(s) => s@,
        None => Seq::empty(),
    }
}

/// The two addresses of a friendship room: the addresses of its members when it has
/// exactly two, else `FriendshipNotFound`; a failed member lookup passes its error on.
pub open spec fn room_members_result(
    response: Result<RoomMembersResponse, CommonError>,
    r: Result<(String, String), SynapseError>,
) -> bool {
    match response {
        Err(e) => r == Err::<(String, String), SynapseError>(SynapseError::CommonError(e)),
        Ok(resp) => if resp.chunk@.len() != 2 {
            r == Err::<(String, String), SynapseError>(SynapseError::FriendshipNotFound)
        } else {
            r matches Ok(pair) && pair.0@ == member_address(resp.chunk@[0]) && pair.1@
                == member_address(resp.chunk@[1])
        },
    }
}

/// The addresses of the two members of a friendship room (see [`room_members_result`]).
pub fn get_room_members(room_members_response: Result<RoomMembersResponse, CommonError>) -> (r:
    Result<(String, String), SynapseError>)
    ensures
        room_members_result(room_members_response, r),
{
    match room_members_response {
        Ok(response) => {
            if response.chunk.len() != 2 {
                return Err(SynapseError::FriendshipNotFound);
            }
            Ok((member_address_of(&response.chunk[0]), member_address_of(&response.chunk[1])))
        },
        Err(err) => Err(SynapseError::CommonError(err)),
    }
}

fn member_address_of(m: &RoomMember) -> (r: String)
    ensures
        r@ == member_address(*m),
{
    match &m.social_user_id {
        Some(s) => s.clone(),
        None => String::new(),
    }
}

/// The member of a two-user room who is not `acting_user`: the second address when
/// the first one is the acting user's (ASCII case ignored), else the first.
pub open spec fn other_member(
    acting_user: Seq<char>,
    address_0: Seq<char>,
    address_1: Seq<char>,
) -> Seq<char> {
    if eq_ignore_case(address_0, acting_user) {
        address_1
    } else {
        address_0
    }
}

/// The other member of a two-user room (see [`other_member`]).
pub fn second_user_of(acting_user: &str, address_0: String, address_1: String) -> (r: String)
    ensures
        r@ == other_member(acting_user@, address_0@, address_1@),
{
    if eq_ignore_ascii_case(address_0.as_str(), acting_user) {
        address_1
    } else {
        address_0
    }
}

/// The message to post in the room along with `room_event`: only a request carries
/// one, and only when its message is present and not empty.
pub open spec fn message_for(room_event: FriendshipEvent, body: Option<Seq<char>>) -> Option<
    Seq<char>,
> {
    match body {
        Some(b) => if room_event == FriendshipEvent::REQUEST && b.len() > 0 {
            body
        } else {
            None
        },
        None => None,
    }
}

/// How many times posting the message of a request is tried before giving up.
pub const MESSAGE_ATTEMPTS: u8 = 3;

/// The message to post in the room along with `room_event` (see [`message_for`]).
pub fn message_to_send(room_event: FriendshipEvent, room_message_body: Option<&str>) -> (r:
    Option<String>)
    ensures
        match r {
            Some(m) => message_for(
                room_event,
                match room_message_body {
                    Some(b) => Some(b@),
                    None => None,
                },
            ) == Some(m@),
            None => message_for(
                room_event,
                match room_message_body {
                    Some(b) => Some(b@),
                    None => None,
                },
            ) is None,
        },
{
    if room_event != FriendshipEvent::REQUEST {
        return None;
    }
    match room_message_body {
        Some(val) => {
            if !val.is_empty() {
                Some(val.to_string())
            } else {
                None
            }
        },
        None => None,
    }
}

/// The status a friendship takes when `acting_user` sends `room_event` after `last`, or
/// `None` when the event is refused. Refused are the events that are not a valid
/// transition, accepting or rejecting one's own request, and cancelling someone
/// else's request.
pub open spec fn new_status_for(
    acting_user: Seq<char>,
    last: Option<FriendshipHistory>,
    room_event: FriendshipEvent,
) -> Option<StatusView> {
    if !valid_transition(last_event(last), room_event) {
        None
    } else {
        match room_event {
            FriendshipEvent::REQUEST => Some(StatusView::Requested(acting_user)),
            FriendshipEvent::ACCEPT => if acted_last(acting_user, last) {
                None
            } else {
                Some(StatusView::Friends)
            },
            FriendshipEvent::CANCEL => if acted_last(acting_user, last) {
                Some(StatusView::NotFriends)
            } else {
                None
            },
            FriendshipEvent::REJECT => if acted_last(acting_user, last) {
                None
            } else {
                Some(StatusView::NotFriends)
            },
            FriendshipEvent::DELETE => Some(StatusView::NotFriends),
        }
    }
}

/// `r` is the outcome that `expected` describes: the status, or `InvalidEvent`.
pub open spec fn status_result_matches(
    r: Result<FriendshipStatus, SynapseError>,
    expected: Option<StatusView>,
) -> bool {
    match r {
        Ok(s) => expected == Some(s@),
        Err(e) => expected is None && e == SynapseError::InvalidEvent,
    }
}

/// The new status of a friendship after `acting_user` sends `room_event`, given the last
/// recorded history entry; `InvalidEvent` when the event is refused.
pub fn process_friendship_status(
    acting_user: &str,
    last_history: &Option<FriendshipHistory>,
    room_event: FriendshipEvent,
) -> (r: Result<FriendshipStatus, SynapseError>)
    ensures
        status_result_matches(r, new_status_for(acting_user@, *last_history, room_event)),
{
    let last_event = match last_history {
        Some(history) => Some(history.event),
        None => None,
    };
    let is_valid = FriendshipEvent::validate_new_event_is_valid(&last_event, room_event);
    if !is_valid {
        return Err(SynapseError::InvalidEvent);
    }
    match room_event {
        FriendshipEvent::REQUEST => calculate_new_friendship_status(
            acting_user,
            last_history,
            room_event,
        ),
        FriendshipEvent::ACCEPT => calculate_new_friendship_status(
            acting_user,
            last_history,
            room_event,
        ),
        FriendshipEvent::CANCEL => {
            if let Some(last_history) = last_history {
                if eq_ignore_ascii_case(last_history.acting_user.as_str(), acting_user) {
                    return Ok(FriendshipStatus::NotFriends);
                }
            }
            Err(SynapseError::InvalidEvent)
        },
        FriendshipEvent::REJECT => {
            if let Some(last_history) = last_history {
                if !eq_ignore_ascii_case(last_history.acting_user.as_str(), acting_user) {
                    return Ok(FriendshipStatus::NotFriends);
                }
            }
            Err(SynapseError::InvalidEvent)
        },
        FriendshipEvent::DELETE => Ok(FriendshipStatus::NotFriends),
    }
}

/// The status reached by a request or an accept: a request is only possible when there
/// is no history or the friendship was ended or refused, an accept only on a request
/// sent by the other user.
pub open spec fn request_or_accept_status(
    acting_user: Seq<char>,
    last: Option<FriendshipHistory>,
    room_event: FriendshipEvent,
) -> Option<StatusView> {
    match last {
        None => if room_event == FriendshipEvent::REQUEST {
            Some(StatusView::Requested(acting_user))
        } else {
            None
        },
        Some(h) => match h.event {
            FriendshipEvent::REQUEST => if acted_last(acting_user, last) {
                None
            } else if room_event == FriendshipEvent::ACCEPT {
                Some(StatusView::Friends)
            } else {
                None
            },
            FriendshipEvent::ACCEPT => None,
            _ => if room_event == FriendshipEvent::REQUEST {
                Some(StatusView::Requested(acting_user))
            } else {
                None
            },
        },
    }
}

fn calculate_new_friendship_status(
    acting_user: &str,
    last_history: &Option<FriendshipHistory>,
    room_event: FriendshipEvent,
) -> (r: Result<FriendshipStatus, SynapseError>)
    ensures
        status_result_matches(
            r,
            request_or_accept_status(acting_user@, *last_history, room_event),
        ),
{
    match last_history {
        None => match room_event {
            FriendshipEvent::REQUEST => Ok(FriendshipStatus::Requested(acting_user.to_string())),
            _ => Err(SynapseError::InvalidEvent),
        },
        Some(last_history) => match last_history.event {
            FriendshipEvent::REQUEST => {
                if eq_ignore_ascii_case(last_history.acting_user.as_str(), acting_user) {
                    return Err(SynapseError::InvalidEvent);
                }
                match room_event {
                    FriendshipEvent::ACCEPT => Ok(FriendshipStatus::Friends),
                    _ => Err(SynapseError::InvalidEvent),
                }
            },
            FriendshipEvent::ACCEPT => Err(SynapseError::InvalidEvent),
            _ => match room_event {
                FriendshipEvent::REQUEST => Ok(
                    FriendshipStatus::Requested(acting_user.to_string()),
                ),
                _ => Err(SynapseError::InvalidEvent),
            },
        },
    }
}

/// A room event is accepted exactly when the validator accepts the same event from the
/// same user.
pub proof fn lemma_room_event_agrees_with_validator(
    acting_user: Seq<char>,
    last: Option<FriendshipHistory>,
    room_event: FriendshipEvent,
)
    ensures
        new_status_for(acting_user, last, room_event) is Some <==> validation_error(
            acting_user,
            last,
            room_event,
        ) is None,
{
}

/// An accepted event leaves the friendship in the status that the event itself
/// determines.
pub proof fn lemma_accepted_status_is_event_status(
    acting_user: Seq<char>,
    last: Option<FriendshipHistory>,
    room_event: FriendshipEvent,
)
    requires
        new_status_for(acting_user, last, room_event) is Some,
    ensures
        new_status_for(acting_user, last, room_event) == Some(
            status_after(acting_user, room_event),
        ),
{
}

/// Every accepted event changes the status of the friendship.
pub proof fn lemma_accepted_event_changes_status(
    acting_user: Seq<char>,
    last: Option<FriendshipHistory>,
    room_event: FriendshipEvent,
)
    requires
        new_status_for(acting_user, last, room_event) is Some,
    ensures
        new_status_for(acting_user, last, room_event) != Some(status_of_history(last)),
{
}

/// Once an accepted event is recorded, the status read back from the history is the
/// status the event produced.
pub proof fn lemma_recorded_event_gives_new_status(
    acting_user: Seq<char>,
    last: Option<FriendshipHistory>,
    room_event: FriendshipEvent,
    recorded: FriendshipHistory,
)
    requires
        new_status_for(acting_user, last, room_event) is Some,
        recorded.event == room_event,
        recorded.acting_user@ == acting_user,
    ensures
        new_status_for(acting_user, last, room_event) == Some(status_of_history(Some(recorded))),
{
}

} // verus!
