//! Checks that a new friendship event is a valid transition and that the acting user
//! is allowed to perform it.

use vstd::prelude::*;
use vstd::string::*;

use crate::entities::{last_event, FriendshipHistory};
use crate::error::CommonError;
use crate::friendship_event::{valid_transition, FriendshipEvent};
use crate::text::{eq_ignore_ascii_case, eq_ignore_case};

verus! {

/// The last history entry was performed by `acting_user` (ASCII case ignored).
pub open spec fn acted_last(acting_user: Seq<char>, last: Option<FriendshipHistory>) -> bool {
    last matches Some(h) && eq_ignore_case(h.acting_user@, acting_user)
}

/// The message of the error raised when `acting_user` may not perform `new_event` after
/// `last`, or `None` when the user may. A request can only be accepted or rejected by
/// the user who did not send it, and only cancelled by the user who did; without
/// history anyone may act.
pub open spec fn auth_error(
    acting_user: Seq<char>,
    last: Option<FriendshipHistory>,
    new_event: FriendshipEvent,
) -> Option<Seq<char>> {
    if last is None {
        None
    } else if acted_last(acting_user, last) {
        match new_event {
            FriendshipEvent::ACCEPT => Some("Invalid acting user for friendship event update accept"@),
            FriendshipEvent::REJECT => Some("Invalid acting user for friendship event update reject"@),
            _ => None,
        }
    } else {
        match new_event {
            FriendshipEvent::CANCEL => Some("Invalid acting user for friendship event update cancel"@),
            _ => None,
        }
    }
}

/// The message of the error raised when `new_event` may not follow `last` or
/// `acting_user` may not perform it, or `None` when the event is accepted. The
/// transition is checked first.
pub open spec fn validation_error(
    acting_user: Seq<char>,
    last: Option<FriendshipHistory>,
    new_event: FriendshipEvent,
) -> Option<Seq<char>> {
    if !valid_transition(last_event(last), new_event) {
        Some("Invalid friendship event update transition"@)
    } else {
        auth_error(acting_user, last, new_event)
    }
}

/// The outcome that [`validation_error`] describes: `Ok` when there is no error, else a
/// `BadRequest` with that message.
pub open spec fn validation_matches(
    r: Result<(), CommonError>,
    expected: Option<Seq<char>>,
) -> bool {
    match r {
        Ok(()) => expected is None,
        Err(e) => e matches CommonError::BadRequest(m) && expected == Some(m@),
    }
}

/// Validates that `new_event` is a valid transition from the last recorded history and
/// that `acting_user` is allowed to perform it.
pub fn validate_new_event(
    acting_user: &str,
    last_recorded_history: &Option<FriendshipHistory>,
    new_event: FriendshipEvent,
) -> (r: Result<(), CommonError>)
    ensures
        validation_matches(r, validation_error(acting_user@, *last_recorded_history, new_event)),
{
    validate_transition(last_recorded_history, new_event)?;
    validate_auth_new_event(acting_user, last_recorded_history, new_event)?;
    Ok(())
}

/// Validates that `new_event` may follow the last recorded event.
fn validate_transition(
    last_recorded_history: &Option<FriendshipHistory>,
    new_event: FriendshipEvent,
) -> (r: Result<(), CommonError>)
    ensures
        r is Ok <==> valid_transition(last_event(*last_recorded_history), new_event),
        r matches Err(e) ==> e matches CommonError::BadRequest(m) && m@
            == "Invalid friendship event update transition"@,
{
    let last_recorded_event = match last_recorded_history {
        Some(history) => Some(history.event),
        None => None,
    };
    let is_valid = FriendshipEvent::validate_new_event_is_valid(&last_recorded_event, new_event);
    if !is_valid {
        return Err(
            CommonError::BadRequest(String::from_str("Invalid friendship event update transition")),
        );
    }
    Ok(())
}

/// Returns an error when `acting_user` may not perform `new_event`; whether the
/// transition itself is valid is not looked at.
fn validate_auth_new_event(
    acting_user: &str,
    last_recorded_history: &Option<FriendshipHistory>,
    new_event: FriendshipEvent,
) -> (r: Result<(), CommonError>)
    ensures
        validation_matches(r, auth_error(acting_user@, *last_recorded_history, new_event)),
{
    match last_recorded_history {
        Some(last_history) => {
            if eq_ignore_ascii_case(last_history.acting_user.as_str(), acting_user) {
                match new_event {
                    FriendshipEvent::ACCEPT => Err(
                        CommonError::BadRequest(
                            String::from_str(
                                "Invalid acting user for friendship event update accept",
                            ),
                        ),
                    ),
                    FriendshipEvent::REJECT => Err(
                        CommonError::BadRequest(
                            String::from_str(
                                "Invalid acting user for friendship event update reject",
                            ),
                        ),
                    ),
                    _ => Ok(()),
                }
            } else {
                match new_event {
                    FriendshipEvent::CANCEL => Err(
                        CommonError::BadRequest(
                            String::from_str(
                                "Invalid acting user for friendship event update cancel",
                            ),
                        ),
                    ),
                    _ => Ok(()),
                }
            }
        },
        None => Ok(()),
    }
}

} // verus!
