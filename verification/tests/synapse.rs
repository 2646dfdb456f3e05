use social_service::error::CommonError;
use social_service::synapse::{
    account_data_path, clean_synapse_user_id, create_room_opts, error_from_synapse_reply,
    extract_domain, full_encoded_alias, join_room_path, message_event_body, room_alias_path,
    room_friendship_event_path, room_members_path, send_message_path, user_id_as_synapse_user_id,
    RoomMember, RoomMembersResponse, SynapseComponent, SynapseErrorResponse, WhoAmIResponse,
};
use social_service::synapse_handler::build_room_alias_name;

#[test]
fn clear_should_obtain_expected_string_for_synapse_user() {
    let res = clean_synapse_user_id("@0x1111ada11111:decentraland.org");

    assert_eq!(res, "0x1111ada11111");
}

#[test]
fn clear_should_obtain_expected_string_for_plain_user() {
    let res = clean_synapse_user_id("0x1111ada11111");

    assert_eq!(res, "0x1111ada11111");
}

#[test]
fn user_id_as_synapse_id_for_plain_user() {
    let res = user_id_as_synapse_user_id("0x1111ada11111", "");

    assert_eq!(res, "@0x1111ada11111:decentraland.zone");
}

#[test]
fn build_room_alias_name_for_users() {
    let res = build_room_alias_name("0x1111ada11111", "0x1111ada11112", "zone");

    assert_eq!(res, "%230x1111ada11111%2B0x1111ada11112%3Adecentraland.zone");
}

#[test]
fn room_alias_does_not_depend_on_who_acts() {
    let a = build_room_alias_name("0xBBB", "0xaaa", "https://synapse.decentraland.org");
    let b = build_room_alias_name("0xaaa", "0xbbb", "https://synapse.decentraland.org");
    assert_eq!(a, b);
    assert_eq!(a, "%230xaaa%2B0xbbb%3Adecentraland.org");
}

#[test]
fn clean_keeps_ids_not_starting_with_at() {
    assert_eq!(clean_synapse_user_id("0x1@a:b"), "0x1@a:b");
    assert_eq!(clean_synapse_user_id("@0x1@a:b:c"), "0x1a");
    assert_eq!(clean_synapse_user_id("@"), "");
    assert_eq!(clean_synapse_user_id(""), "");
}

#[test]
fn domain_is_the_part_after_the_last_dot() {
    assert_eq!(extract_domain("https://synapse.decentraland.org"), "org");
    assert_eq!(extract_domain("https://synapse.decentraland.zone"), "zone");
    assert_eq!(extract_domain("https://synapse.decentraland.com"), "com");
    assert_eq!(extract_domain("https://synapse.decentraland.today"), "today");
    assert_eq!(extract_domain("org"), "zone");
    assert_eq!(extract_domain("https://synapse."), "zone");
    assert_eq!(extract_domain(""), "zone");
    assert_eq!(
        user_id_as_synapse_user_id("0x1111ada11111", "https://synapse.decentraland.com"),
        "@0x1111ada11111:decentraland.com"
    );
}

#[test]
fn user_id_on_org_server() {
    assert_eq!(
        user_id_as_synapse_user_id("0x1111ada11111", "https://synapse.decentraland.org"),
        "@0x1111ada11111:decentraland.org"
    );
}

#[test]
fn alias_and_paths_are_percent_encoded() {
    let synapse = SynapseComponent::new("https://synapse.decentraland.org".to_string());
    assert_eq!(full_encoded_alias("a+b", &synapse), "%23a%2Bb%3Adecentraland.org");
    assert_eq!(
        room_alias_path("a+b", &synapse),
        "/_matrix/client/r0/directory/room/%23a%2Bb%3Adecentraland.org"
    );
    assert_eq!(
        join_room_path("!room:x.org"),
        "/_matrix/client/r0/rooms/%21room%3Ax.org/join"
    );
    assert_eq!(
        room_friendship_event_path("!r:x"),
        "/_matrix/client/r0/rooms/%21r%3Ax/state/org.decentraland.friendship"
    );
    assert_eq!(
        send_message_path("!r:x", "m.12"),
        "/_matrix/client/r0/rooms/%21r%3Ax/send/m.room.message/m.12"
    );
    assert_eq!(room_members_path("!r:x"), "/_matrix/client/r0/rooms/%21r%3Ax/members");
    assert_eq!(
        account_data_path("@0xa:decentraland.org"),
        "/_matrix/client/r0/user/%400xa%3Adecentraland.org/account_data/m.direct"
    );
    assert_eq!(join_room_path("é"), "/_matrix/client/r0/rooms/%C3%A9/join");
}

#[test]
fn who_am_i_gets_the_address() {
    let res = WhoAmIResponse { user_id: "@0xAb:decentraland.org".to_string(), social_user_id: None }
        .with_social_user_id();
    assert_eq!(res.user_id, "@0xAb:decentraland.org");
    assert_eq!(res.social_user_id, Some("0xAb".to_string()));
}

#[test]
fn only_synapse_members_get_an_address() {
    let member = |key: &str| RoomMember {
        state_key: key.to_string(),
        social_user_id: None,
        user_id: key.to_string(),
        room_id: "!r".to_string(),
        member_type: "m.room.member".to_string(),
    };
    let res = RoomMembersResponse { chunk: vec![member("@0xa:decentraland.org"), member("0xb")] }
        .with_social_user_ids();
    assert_eq!(res.chunk.len(), 2);
    assert_eq!(res.chunk[0].social_user_id, Some("0xa".to_string()));
    assert_eq!(res.chunk[1].social_user_id, None);
    assert_eq!(res.chunk[1].state_key, "0xb");
}

#[test]
fn synapse_error_codes() {
    let reply = |code: &str, error: Option<&str>| {
        Some(SynapseErrorResponse {
            errcode: code.to_string(),
            error: error.map(|e| e.to_string()),
            soft_logout: None,
        })
    };
    match error_from_synapse_reply(reply("M_FORBIDDEN", Some("nope"))) {
        CommonError::Forbidden(m) => assert_eq!(m, "nope"),
        other => panic!("unexpected {other:?}"),
    }
    match error_from_synapse_reply(reply("M_FORBIDDEN", None)) {
        CommonError::Forbidden(m) => assert_eq!(m, "Forbidden"),
        other => panic!("unexpected {other:?}"),
    }
    assert!(matches!(
        error_from_synapse_reply(reply("M_UNKNOWN_TOKEN", None)),
        CommonError::Unauthorized(_)
    ));
    assert!(matches!(
        error_from_synapse_reply(reply("M_MISSING_TOKEN", None)),
        CommonError::Unauthorized(_)
    ));
    assert!(matches!(
        error_from_synapse_reply(reply("M_LIMIT_EXCEEDED", None)),
        CommonError::TooManyRequests(_)
    ));
    assert!(matches!(
        error_from_synapse_reply(reply("M_OTHER", None)),
        CommonError::Unknown(_)
    ));
    assert!(matches!(error_from_synapse_reply(None), CommonError::Unknown(_)));
}

#[test]
fn room_creation_invites_lowercase_ids() {
    let opts = create_room_opts(vec!["@0xAB:decentraland.org"], "alias");
    assert_eq!(opts.invite, vec!["@0xab:decentraland.org".to_string()]);
    assert_eq!(opts.preset, "trusted_private_chat");
    assert!(opts.is_direct);
    assert_eq!(opts.room_alias_name, "alias");
    let body = message_event_body("hi");
    assert_eq!(body.msgtype, "m.text");
    assert_eq!(body.body, "hi");
}
