use social_service::entities::{Friendship, FriendshipHistory};
use social_service::error::{CommonError, SynapseError};
use social_service::friendship_event::FriendshipEvent;
use social_service::room_event_flow::{
    FriendshipWrite, RoomEventAction, RoomEventFlow, RoomEventOutcome, RoomEventRequest,
};
use social_service::room_events::{get_room_members, message_to_send, RoomEventResponse};
use social_service::synapse::{RoomMember, RoomMembersResponse};

fn member(address: &str) -> RoomMember {
    RoomMember {
        state_key: format!("@{address}:decentraland.org"),
        social_user_id: Some(address.to_string()),
        user_id: format!("@{address}:decentraland.org"),
        room_id: "!room".to_string(),
        member_type: "m.room.member".to_string(),
    }
}

fn members(addresses: &[&str]) -> RoomMembersResponse {
    RoomMembersResponse { chunk: addresses.iter().map(|a| member(a)).collect() }
}

fn request(event: FriendshipEvent, message: Option<&str>) -> RoomEventRequest {
    RoomEventRequest {
        acting_user: "0xb".to_string(),
        room_id: "!room".to_string(),
        room_event: event,
        room_message_body: message.map(|m| m.to_string()),
    }
}

#[test]
fn members_of_a_friendship_room() {
    assert_eq!(
        get_room_members(Ok(members(&["0xa", "0xb"]))),
        Ok(("0xa".to_string(), "0xb".to_string()))
    );
    assert_eq!(
        get_room_members(Ok(members(&["0xa"]))),
        Err(SynapseError::FriendshipNotFound)
    );
    assert_eq!(
        get_room_members(Err(CommonError::Unauthorized(String::new()))),
        Err(SynapseError::CommonError(CommonError::Unauthorized(String::new())))
    );
}

#[test]
fn only_request_messages_are_sent() {
    assert_eq!(message_to_send(FriendshipEvent::REQUEST, Some("hi")), Some("hi".to_string()));
    assert_eq!(message_to_send(FriendshipEvent::REQUEST, Some("")), None);
    assert_eq!(message_to_send(FriendshipEvent::REQUEST, None), None);
    assert_eq!(message_to_send(FriendshipEvent::ACCEPT, Some("hi")), None);
}

#[test]
fn new_request_creates_the_friendship_and_commits() {
    let (flow, action) = RoomEventFlow::new(request(FriendshipEvent::REQUEST, Some("hello")));
    assert!(matches!(action, RoomEventAction::FetchRoomMembers));

    let (flow, action) = flow.step(RoomEventOutcome::Members(Ok(members(&["0xB", "0xc"]))));
    match &action {
        RoomEventAction::FetchFriendship { address_0, address_1 } => {
            assert_eq!(address_0, "0xb");
            assert_eq!(address_1, "0xc");
        }
        _ => panic!("expected a friendship lookup"),
    }

    let (flow, action) = flow.step(RoomEventOutcome::Friendship(Ok(None)));
    assert!(matches!(action, RoomEventAction::StartTransaction));

    let (flow, action) = flow.step(RoomEventOutcome::TransactionStarted(true));
    match &action {
        RoomEventAction::WriteFriendship(FriendshipWrite::Create {
            address_1,
            address_2,
            is_active,
            synapse_room_id,
        }) => {
            assert_eq!(address_1, "0xb");
            assert_eq!(address_2, "0xc");
            assert!(!is_active);
            assert_eq!(synapse_room_id, "!room");
        }
        _ => panic!("expected the friendship to be created"),
    }

    let (flow, action) = flow.step(RoomEventOutcome::FriendshipWritten(Ok("f-1".to_string())));
    match &action {
        RoomEventAction::WriteHistory(entry) => {
            assert_eq!(entry.friendship_id, "f-1");
            assert_eq!(entry.event, FriendshipEvent::REQUEST);
            assert_eq!(entry.acting_user, "0xb");
            assert_eq!(entry.metadata.message, Some("hello".to_string()));
            assert_eq!(entry.metadata.synapse_room_id, Some("!room".to_string()));
        }
        _ => panic!("expected the history to be written"),
    }

    let (flow, action) = flow.step(RoomEventOutcome::HistoryWritten(true));
    assert!(matches!(action, RoomEventAction::SendMessage { .. }));
    let (flow, action) = flow.step(RoomEventOutcome::MessageSent(Err(CommonError::Unknown(String::new()))));
    assert!(matches!(action, RoomEventAction::SendMessage { .. }));
    let (flow, action) = flow.step(RoomEventOutcome::MessageSent(Ok(())));
    assert!(matches!(action, RoomEventAction::StoreRoomEvent));

    let (flow, action) = flow.step(RoomEventOutcome::RoomEventStored(Ok(RoomEventResponse {
        event_id: "$event".to_string(),
    })));
    assert!(matches!(action, RoomEventAction::Commit));
    let (_, action) = flow.step(RoomEventOutcome::Committed(true));
    match action {
        RoomEventAction::Finish(Ok(resp)) => assert_eq!(resp.event_id, "$event"),
        _ => panic!("expected success"),
    }
}

#[test]
fn message_is_tried_three_times() {
    let (flow, _) = RoomEventFlow::new(request(FriendshipEvent::REQUEST, Some("hello")));
    let (flow, _) = flow.step(RoomEventOutcome::Members(Ok(members(&["0xb", "0xc"]))));
    let (flow, _) = flow.step(RoomEventOutcome::Friendship(Ok(None)));
    let (flow, _) = flow.step(RoomEventOutcome::TransactionStarted(true));
    let (flow, _) = flow.step(RoomEventOutcome::FriendshipWritten(Ok("f-1".to_string())));
    let (mut flow, mut action) = flow.step(RoomEventOutcome::HistoryWritten(true));
    let mut sent = 0;
    while let RoomEventAction::SendMessage { .. } = action {
        sent += 1;
        let next = flow.step(RoomEventOutcome::MessageSent(Err(CommonError::TooManyRequests(String::new()))));
        flow = next.0;
        action = next.1;
    }
    assert_eq!(sent, 3);
    assert!(matches!(
        action,
        RoomEventAction::Finish(Err(SynapseError::CommonError(CommonError::TooManyRequests(_))))
    ));
}

#[test]
fn accept_updates_the_existing_friendship() {
    let (flow, _) = RoomEventFlow::new(request(FriendshipEvent::ACCEPT, None));
    let (flow, _) = flow.step(RoomEventOutcome::Members(Ok(members(&["0xb", "0xc"]))));
    let friendship = Friendship {
        id: "f-9".to_string(),
        address_1: "0xb".to_string(),
        address_2: "0xc".to_string(),
        is_active: false,
        synapse_room_id: "!room".to_string(),
    };
    let (flow, action) = flow.step(RoomEventOutcome::Friendship(Ok(Some(friendship))));
    match &action {
        RoomEventAction::FetchLastHistory { friendship_id } => assert_eq!(friendship_id, "f-9"),
        _ => panic!("expected a history lookup"),
    }
    let last = FriendshipHistory {
        friendship_id: "f-9".to_string(),
        event: FriendshipEvent::REQUEST,
        acting_user: "0xc".to_string(),
        timestamp: 0,
        metadata: None,
    };
    let (flow, action) = flow.step(RoomEventOutcome::LastHistory(Ok(Some(last))));
    assert!(matches!(action, RoomEventAction::StartTransaction));
    let (flow, action) = flow.step(RoomEventOutcome::TransactionStarted(true));
    match &action {
        RoomEventAction::WriteFriendship(FriendshipWrite::Update { friendship_id, is_active }) => {
            assert_eq!(friendship_id, "f-9");
            assert!(is_active);
        }
        _ => panic!("expected an update"),
    }
    let (flow, _) = flow.step(RoomEventOutcome::FriendshipWritten(Ok("f-9".to_string())));
    let (_, action) = flow.step(RoomEventOutcome::HistoryWritten(true));
    assert!(matches!(action, RoomEventAction::StoreRoomEvent));
}

#[test]
fn invalid_event_stops_before_any_write() {
    let (flow, _) = RoomEventFlow::new(request(FriendshipEvent::ACCEPT, None));
    let (flow, _) = flow.step(RoomEventOutcome::Members(Ok(members(&["0xb", "0xc"]))));
    let (_, action) = flow.step(RoomEventOutcome::Friendship(Ok(None)));
    assert!(matches!(action, RoomEventAction::Finish(Err(SynapseError::InvalidEvent))));
}

#[test]
fn failed_write_rolls_back() {
    let (flow, _) = RoomEventFlow::new(request(FriendshipEvent::REQUEST, None));
    let (flow, _) = flow.step(RoomEventOutcome::Members(Ok(members(&["0xb", "0xc"]))));
    let (flow, _) = flow.step(RoomEventOutcome::Friendship(Ok(None)));
    let (flow, _) = flow.step(RoomEventOutcome::TransactionStarted(true));
    let (_, action) = flow.step(RoomEventOutcome::FriendshipWritten(Err(())));
    assert!(matches!(
        action,
        RoomEventAction::RollBack(SynapseError::CommonError(CommonError::Unknown(_)))
    ));
}

#[test]
fn room_without_two_members_is_not_a_friendship() {
    let (flow, _) = RoomEventFlow::new(request(FriendshipEvent::REQUEST, None));
    let (_, action) = flow.step(RoomEventOutcome::Members(Ok(members(&["0xb", "0xc", "0xd"]))));
    assert!(matches!(action, RoomEventAction::Finish(Err(SynapseError::FriendshipNotFound))));
}

#[test]
fn nothing_is_written_when_the_transaction_does_not_start() {
    let (flow, _) = RoomEventFlow::new(request(FriendshipEvent::REQUEST, None));
    let (flow, _) = flow.step(RoomEventOutcome::Members(Ok(members(&["0xb", "0xc"]))));
    let (flow, action) = flow.step(RoomEventOutcome::Friendship(Ok(None)));
    assert!(matches!(action, RoomEventAction::StartTransaction));
    let (_, action) = flow.step(RoomEventOutcome::TransactionStarted(false));
    match action {
        RoomEventAction::Finish(Err(SynapseError::CommonError(CommonError::Unknown(m)))) => {
            assert_eq!(m, "")
        }
        _ => panic!("expected an unknown error without any write"),
    }
}
