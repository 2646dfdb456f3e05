use chrono::NaiveDate;

use social_service::entities::FriendshipHistory;
use social_service::error::{CommonError, SynapseError};
use social_service::friendship_event::FriendshipEvent;
use social_service::friendship_status::{get_new_friendship_status, FriendshipStatus};
use social_service::room_events::process_friendship_status;
use social_service::validator::validate_new_event;

fn get_last_history(event: FriendshipEvent, acting_user: &str) -> Option<FriendshipHistory> {
    Some(FriendshipHistory {
        event,
        acting_user: acting_user.to_string(),
        friendship_id: "223ab239-a69f-40e5-9932-d92348a43fd0".to_string(),
        metadata: None,
        timestamp: NaiveDate::from_ymd_opt(2023, 1, 2)
            .unwrap()
            .and_hms_nano_opt(10, 1, 1, 0)
            .unwrap()
            .and_utc()
            .timestamp(),
    })
}

#[test]
fn room_events_test_process_friendship_status_not_friends_requested() {
    let acting_user = "user";
    let last_history = None;
    let event = FriendshipEvent::REQUEST;
    let res = process_friendship_status(acting_user, &last_history, event);

    assert_eq!(res, Ok(FriendshipStatus::Requested(acting_user.to_string())));
}

#[test]
fn room_events_test_process_friendship_status_requested_accepted() {
    let acting_user = "user";
    let event = FriendshipEvent::ACCEPT;
    let last_history = get_last_history(FriendshipEvent::REQUEST, "another user");
    let res = process_friendship_status(acting_user, &last_history, event);

    assert_eq!(res, Ok(FriendshipStatus::Friends));
}

#[test]
fn room_events_test_process_friendship_status_requested_rejected() {
    let acting_user = "user";
    let event = FriendshipEvent::REJECT;
    let last_history = get_last_history(FriendshipEvent::REQUEST, "another user");
    let res = process_friendship_status(acting_user, &last_history, event);

    assert_eq!(res, Ok(FriendshipStatus::NotFriends));
}

#[test]
fn room_events_test_process_friendship_status_requested_accepted_same_user_should_err() {
    let acting_user = "user";
    let event = FriendshipEvent::ACCEPT;
    let last_history = get_last_history(FriendshipEvent::REQUEST, acting_user);
    let res = process_friendship_status(acting_user, &last_history, event);

    assert_eq!(res, Err(SynapseError::InvalidEvent));
}

#[test]
fn room_events_test_process_friendship_status_requested_requested_same_user_should_err() {
    let acting_user = "user";
    let event = FriendshipEvent::REQUEST;
    let last_history = get_last_history(event, acting_user);
    let res = process_friendship_status(acting_user, &last_history, event);

    assert_eq!(res, Err(SynapseError::InvalidEvent));
}

#[test]
fn room_events_test_process_friendship_status_requested_rejected_same_user_should_err() {
    let acting_user = "user";
    let event = FriendshipEvent::REJECT;
    let last_history = get_last_history(FriendshipEvent::REQUEST, acting_user);
    let res = process_friendship_status(acting_user, &last_history, event);

    assert_eq!(res, Err(SynapseError::InvalidEvent));
}

#[test]
fn room_events_test_process_friendship_status_friends_remove() {
    let acting_user = "user";
    let event = FriendshipEvent::DELETE;
    let last_history = get_last_history(FriendshipEvent::ACCEPT, "another user");

    let res = process_friendship_status(acting_user, &last_history, event);

    assert_eq!(res, Ok(FriendshipStatus::NotFriends));
}

#[test]
fn room_events_test_process_friendship_status_requested_cancel() {
    let acting_user = "user";
    let event = FriendshipEvent::CANCEL;
    let last_history = get_last_history(FriendshipEvent::REQUEST, acting_user);
    let res = process_friendship_status(acting_user, &last_history, event);

    assert_eq!(res, Ok(FriendshipStatus::NotFriends));
}

#[test]
fn room_events_test_process_friendship_status_requested_cancel_from_another_user_should_err() {
    let acting_user = "user";
    let event = FriendshipEvent::CANCEL;
    let last_history = get_last_history(FriendshipEvent::REQUEST, "another user");
    let res = process_friendship_status(acting_user, &last_history, event);

    assert_eq!(res, Err(SynapseError::InvalidEvent));
}

#[test]
fn room_events_test_process_friendship_status_requested_reject_from_same_user_should_err() {
    let acting_user = "user";
    let event = FriendshipEvent::REJECT;
    let last_history = get_last_history(FriendshipEvent::REQUEST, acting_user);
    let res = process_friendship_status(acting_user, &last_history, event);

    assert_eq!(res, Err(SynapseError::InvalidEvent));
}

#[test]
fn room_events_test_process_friendship_status_requested_requested_should_not_become_friends() {
    let acting_user = "user";
    let event = FriendshipEvent::REQUEST;
    let last_history = get_last_history(FriendshipEvent::REQUEST, "another user");
    let res = process_friendship_status(acting_user, &last_history, event);

    assert_eq!(res, Err(SynapseError::InvalidEvent));
}

#[test]
fn room_events_test_process_friendship_status_friends_accept_should_err_invalid_event() {
    let acting_user = "user";
    let event = FriendshipEvent::REQUEST;
    let last_history = get_last_history(FriendshipEvent::ACCEPT, "another user");
    let res = process_friendship_status(acting_user, &last_history, event);

    assert_eq!(res, Err(SynapseError::InvalidEvent));
}

#[test]
fn acting_user_is_compared_ignoring_case() {
    let last_history = get_last_history(FriendshipEvent::REQUEST, "0xAbC");
    assert_eq!(
        process_friendship_status("0xaBc", &last_history, FriendshipEvent::CANCEL),
        Ok(FriendshipStatus::NotFriends)
    );
    assert_eq!(
        process_friendship_status("0xABC", &last_history, FriendshipEvent::ACCEPT),
        Err(SynapseError::InvalidEvent)
    );
}

#[test]
fn room_event_agrees_with_validator_on_every_case() {
    let events = [
        FriendshipEvent::REQUEST,
        FriendshipEvent::CANCEL,
        FriendshipEvent::ACCEPT,
        FriendshipEvent::REJECT,
        FriendshipEvent::DELETE,
    ];
    for new_event in events {
        let mut histories = vec![None];
        for last in events {
            histories.push(get_last_history(last, "user"));
            histories.push(get_last_history(last, "another user"));
        }
        for last in histories.iter() {
            let processed = process_friendship_status("user", last, new_event);
            let validated = validate_new_event("user", last, new_event);
            assert_eq!(processed.is_ok(), validated.is_ok());
            if let Ok(status) = processed {
                assert_eq!(status, get_new_friendship_status("user", new_event));
                let recorded = get_last_history(new_event, "user");
                assert_eq!(FriendshipStatus::from_history_event(recorded), status);
                let previous = match last {
                    Some(h) => get_last_history(h.event, &h.acting_user),
                    None => None,
                };
                assert_ne!(FriendshipStatus::from_history_event(previous), status);
            }
        }
    }
}

#[test]
fn validator_reports_each_refusal() {
    let requested = get_last_history(FriendshipEvent::REQUEST, "user");
    assert_eq!(
        validate_new_event("user", &None, FriendshipEvent::ACCEPT),
        Err(CommonError::BadRequest("".to_string()))
    );
    match validate_new_event("user", &None, FriendshipEvent::ACCEPT) {
        Err(CommonError::BadRequest(m)) => {
            assert_eq!(m, "Invalid friendship event update transition")
        }
        _ => panic!("expected a bad request"),
    }
    match validate_new_event("USER", &requested, FriendshipEvent::ACCEPT) {
        Err(CommonError::BadRequest(m)) => {
            assert_eq!(m, "Invalid acting user for friendship event update accept")
        }
        _ => panic!("expected a bad request"),
    }
    match validate_new_event("user", &requested, FriendshipEvent::REJECT) {
        Err(CommonError::BadRequest(m)) => {
            assert_eq!(m, "Invalid acting user for friendship event update reject")
        }
        _ => panic!("expected a bad request"),
    }
    match validate_new_event("other", &requested, FriendshipEvent::CANCEL) {
        Err(CommonError::BadRequest(m)) => {
            assert_eq!(m, "Invalid acting user for friendship event update cancel")
        }
        _ => panic!("expected a bad request"),
    }
    assert!(validate_new_event("other", &requested, FriendshipEvent::ACCEPT).is_ok());
    assert!(validate_new_event("user", &None, FriendshipEvent::REQUEST).is_ok());
}

#[test]
fn status_from_history() {
    assert_eq!(FriendshipStatus::from_history_event(None), FriendshipStatus::NotFriends);
    assert_eq!(
        FriendshipStatus::from_history_event(get_last_history(FriendshipEvent::REQUEST, "0xa")),
        FriendshipStatus::Requested("0xa".to_string())
    );
    assert_eq!(
        FriendshipStatus::from_history_event(get_last_history(FriendshipEvent::ACCEPT, "0xa")),
        FriendshipStatus::Friends
    );
    assert_eq!(
        get_new_friendship_status("0xb", FriendshipEvent::REQUEST),
        FriendshipStatus::Requested("0xb".to_string())
    );
    assert!(FriendshipStatus::Friends.same_as(&FriendshipStatus::Friends));
    assert!(!FriendshipStatus::Requested("a".to_string())
        .same_as(&FriendshipStatus::Requested("A".to_string())));
}
