use social_service::entities::Friendship;
use social_service::error::CommonError;
use social_service::friendship_event::FriendshipEvent;
use social_service::synapse::CreateRoomResponse;
use social_service::synapse_handler::{
    build_room_alias_name, direct_rooms_update, RoomIdAction, RoomIdOutcome, RoomIdResolution,
};

const URL: &str = "https://synapse.decentraland.org";

#[test]
fn existing_friendship_has_its_room() {
    let f = Friendship {
        id: "f".to_string(),
        address_1: "0xa".to_string(),
        address_2: "0xb".to_string(),
        is_active: true,
        synapse_room_id: "!existing".to_string(),
    };
    let (_, action) = RoomIdResolution::start(Some(&f), &FriendshipEvent::DELETE, "0xa", "0xb", URL);
    assert!(matches!(action, RoomIdAction::Finish(Ok(ref id)) if id == "!existing"));
}

#[test]
fn new_friendship_needs_a_request() {
    let (_, action) = RoomIdResolution::start(None, &FriendshipEvent::ACCEPT, "0xa", "0xb", URL);
    match action {
        RoomIdAction::Finish(Err(CommonError::BadRequest(m))) => {
            assert_eq!(m, "Invalid frienship event update")
        }
        _ => panic!("expected a bad request"),
    }
}

#[test]
fn room_is_found_by_alias_or_created() {
    let (state, action) = RoomIdResolution::start(None, &FriendshipEvent::REQUEST, "0xB", "0xa", URL);
    let alias = build_room_alias_name("0xB", "0xa", URL);
    match &action {
        RoomIdAction::LookupAlias { alias: a } => assert_eq!(a, &alias),
        _ => panic!("expected an alias lookup"),
    }
    let (state, action) = state.step(RoomIdOutcome::AliasLookup(Err(CommonError::NotFound(String::new()))));
    match &action {
        RoomIdAction::CreateRoom { invite, alias: a } => {
            assert_eq!(a, &alias);
            assert_eq!(invite, &vec!["@0xa:decentraland.org".to_string()]);
        }
        _ => panic!("expected a room creation"),
    }
    let (_, action) = state.step(RoomIdOutcome::RoomCreated(Ok(CreateRoomResponse {
        room_id: "!new".to_string(),
    })));
    assert!(matches!(action, RoomIdAction::Finish(Ok(ref id)) if id == "!new"));

    let (state, _) = RoomIdResolution::start(None, &FriendshipEvent::REQUEST, "0xB", "0xa", URL);
    let (_, action) = state.step(RoomIdOutcome::AliasLookup(Ok("!found".to_string())));
    assert!(matches!(action, RoomIdAction::Finish(Ok(ref id)) if id == "!found"));
}

#[test]
fn room_is_recorded_as_direct_chat_under_the_synapse_id() {
    let key = "@0xb:decentraland.org".to_string();
    let other = ("@0xc:decentraland.org".to_string(), vec!["!c".to_string()]);
    // The room is already listed: nothing to write.
    assert!(direct_rooms_update(vec![(key.clone(), vec!["!r".to_string()])], "0xb", "!r", URL).is_none());
    // No entry for the second user yet: one is added under its Synapse id, others kept.
    let updated = direct_rooms_update(vec![other.clone()], "0xb", "!r", URL).expect("an update");
    assert_eq!(updated, vec![other.clone(), (key.clone(), vec!["!r".to_string()])]);
    // Other rooms are listed: the room is added to them.
    let updated = direct_rooms_update(
        vec![(key.clone(), vec!["!old".to_string()]), other.clone()],
        "0xb",
        "!r",
        URL,
    )
    .expect("an update");
    let map: std::collections::HashMap<String, Vec<String>> = updated.into_iter().collect();
    assert_eq!(map.get(&key), Some(&vec!["!old".to_string(), "!r".to_string()]));
    assert_eq!(map.get(&other.0), Some(&other.1));
    assert_eq!(map.len(), 2);
}
