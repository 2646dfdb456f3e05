use social_service::entities::{sort_addresses, Friendship, FriendshipHistory, FriendshipMetadata};
use social_service::error::{map_io_error, CommonError, IoErrorKind, SynapseError};
use social_service::events::{calculate_status, component_status, readiness_status};
use social_service::friends::{
    friends_owner, friends_response, get_friends, has_permission, FriendshipFriend,
    FriendshipsResponse,
};
use social_service::middleware::{
    bearer_token, is_auth_route, protected_routes, AuthCheck, CheckAuthToken, CheckMetricsToken,
    MetricsCheck,
};
use social_service::request_events::{
    get_request_events_with_messages, MessageRequestEvent, MessageRequestEventResponse,
};
use social_service::users_cache::UserId;

fn friendship(a: &str, b: &str) -> Friendship {
    Friendship {
        id: "f".to_string(),
        address_1: a.to_string(),
        address_2: b.to_string(),
        is_active: true,
        synapse_room_id: "!r".to_string(),
    }
}

fn logged(user: &str) -> UserId {
    UserId { social_id: user.to_string(), synapse_id: format!("@{user}:decentraland.org") }
}

#[test]
fn test_get_user_friends() {
    let response = friends_owner(&logged("user1"), "user2");

    assert!(response.is_err());

    if let Err(res) = response {
        assert_eq!(res, CommonError::Forbidden("".to_string()));
        assert_eq!(res.message(), "You don't have permission to view user2 friends");
    }
}

#[test]
fn test_get_user_friends_database_error_should_return_unknown_error() {
    let owner = friends_owner(&logged("user1"), "user1");
    assert_eq!(owner.as_deref(), Ok("user1"));
    let response = friends_response("user1", Err(()));

    assert!(response.is_err());

    if let Err(res) = response {
        assert_eq!(res, CommonError::Unknown("".to_string()))
    }
}

#[test]
fn test_get_user_friends_should_return_the_address_list() {
    let user_id = "custom id";
    let other_user = "another id";
    let other_user_2 = "another id 2";

    let response = friends_response(
        user_id,
        Ok(vec![friendship(user_id, other_user), friendship(other_user_2, user_id)]),
    );

    assert!(response.is_ok());

    let friendship_response = response.unwrap();

    assert_eq!(friendship_response.friendships.len(), 2);
    assert!(friendship_response.friendships.contains(&FriendshipFriend {
        address: other_user.to_string()
    }));
    assert!(friendship_response.friendships.contains(&FriendshipFriend {
        address: other_user_2.to_string()
    }));
}

#[test]
fn me_stands_for_the_logged_in_user() {
    assert_eq!(friends_owner(&logged("0xA"), "ME").as_deref(), Ok("0xA"));
    assert_eq!(friends_owner(&logged("0xa"), "@0xA:decentraland.org").as_deref(), Ok("0xA"));
    assert!(has_permission("0xa", "0xA"));
    assert!(!has_permission("0xa", "0xb"));
    assert_eq!(
        get_friends("0xA", vec![friendship("0xa", "0xb"), friendship("0xc", "0xA")]),
        vec!["0xb".to_string(), "0xc".to_string()]
    );
    let resp = FriendshipsResponse::new(vec!["x".to_string()]);
    assert_eq!(resp.friendships, vec![FriendshipFriend { address: "x".to_string() }]);
}

#[test]
fn sorted_addresses() {
    assert_eq!(sort_addresses(("0xb", "0xa")), ("0xa", "0xb"));
    assert_eq!(sort_addresses(("0xa", "0xb")), ("0xa", "0xb"));
    assert_eq!(sort_addresses(("0xB", "0xa")), ("0xB", "0xa"));
    assert_eq!(sort_addresses(("", "a")), ("", "a"));
}

#[test]
fn request_messages_keep_non_empty_ones() {
    let entry = |message: Option<&str>| FriendshipHistory {
        friendship_id: "id".to_string(),
        event: social_service::friendship_event::FriendshipEvent::REQUEST,
        acting_user: "0xa".to_string(),
        timestamp: 7,
        metadata: Some(FriendshipMetadata {
            message: message.map(|m| m.to_string()),
            synapse_room_id: None,
            migrated_from_synapse: None,
        }),
    };
    let events = get_request_events_with_messages(vec![entry(Some("hi")), entry(Some("")), entry(None)]);
    assert_eq!(
        events,
        vec![MessageRequestEvent {
            friendship_id: "id".to_string(),
            acting_user: "0xa".to_string(),
            timestamp: 7,
            message: "hi".to_string(),
        }]
    );
    let resp = MessageRequestEventResponse::new(events);
    assert_eq!(resp.messages_req_events.len(), 1);
    assert!(social_service::request_events::has_permission(
        "0xA",
        vec!["0xb".to_string(), "0xa".to_string()]
    ));
    assert!(!social_service::request_events::has_permission("0xA", vec![]));
}

#[test]
fn should_fail_without_authorization_header() {
    let guard = CheckAuthToken::new(vec!["/need-auth".to_string()]);
    match guard.check(Some("/need-auth"), "/need-auth", None) {
        AuthCheck::Reject(e) => assert_eq!(e.status_code(), 400),
        _ => panic!("a protected route needs a token"),
    }
}

#[test]
fn auth_guard_decisions() {
    let guard = CheckAuthToken::new(protected_routes());
    assert!(matches!(guard.check(None, "/nowhere", None), AuthCheck::Reject(CommonError::NotFound(_))));
    assert!(matches!(guard.check(None, "/METRICS", None), AuthCheck::PassThrough));
    assert!(matches!(guard.check(Some("/health"), "/health", None), AuthCheck::PassThrough));
    match guard.check(Some("/v1/friendships/{userId}"), "/v1/friendships/me", Some("Bearer a1b2c3d4")) {
        AuthCheck::Authenticate(token) => assert_eq!(token, "a1b2c3d4"),
        _ => panic!("expected the token"),
    }
    assert!(matches!(
        guard.check(Some("/v1/friendships/{userId}"), "/v1/friendships/me", Some("Bearer")),
        AuthCheck::Reject(CommonError::BadRequest(_))
    ));
    assert!(is_auth_route(&protected_routes(), "/v1/friendships/{userId}/mutuals"));
    assert!(!is_auth_route(&protected_routes(), "/v1/friendships"));
    assert_eq!(bearer_token("Bearer x y"), "x");
    assert_eq!(bearer_token("Bearer  x"), "");
}

#[test]
fn metrics_guard_decisions() {
    let guard = CheckMetricsToken::new("secret".to_string());
    assert!(matches!(guard.check("/health", None), MetricsCheck::PassThrough));
    assert!(matches!(guard.check("/metrics", None), MetricsCheck::Unauthorized));
    assert!(matches!(guard.check("/metrics", Some("Bearer other")), MetricsCheck::Unauthorized));
    assert!(matches!(guard.check("/metrics", Some("Bearer secret")), MetricsCheck::PassThrough));
    let unconfigured = CheckMetricsToken::new(String::new());
    assert!(matches!(unconfigured.check("/metrics", Some("Bearer x")), MetricsCheck::MissingConfiguration));
}

#[test]
fn error_names_messages_and_codes() {
    let e = CommonError::Unknown(String::new());
    assert_eq!(e.name(), "Unknown(\"\")");
    assert_eq!(e.message(), "Unknown Internal Error");
    assert_eq!(e.status_code(), 500);
    assert_eq!(CommonError::BadRequest("x".to_string()).message(), "Bad request x");
    assert_eq!(CommonError::BadRequest("x".to_string()).name(), "BadRequest(\"x\")");
    assert_eq!(CommonError::Forbidden("no".to_string()).message(), "no");
    assert_eq!(CommonError::TooManyRequests(String::new()).status_code(), 429);
    assert_eq!(SynapseError::InvalidEvent.name(), "InvalidEvent");
    assert_eq!(SynapseError::FriendshipNotFound.status_code(), 404);
    let body = SynapseError::InvalidEvent.error_response();
    assert_eq!(body.code, 400);
    assert_eq!(body.error, "InvalidEvent");
    assert_eq!(body.message, "The sent friendship interaction is not valid at this moment");
    let wrapped = SynapseError::CommonError(CommonError::Unauthorized(String::new()));
    assert_eq!(wrapped.name(), "Unauthorized(\"\")");
    assert_eq!(wrapped.status_code(), 401);
    assert_eq!(wrapped.message(), "");
    assert_eq!(CommonError::NotFound("a".to_string()), CommonError::NotFound("b".to_string()));
    assert_ne!(CommonError::NotFound("a".to_string()), CommonError::Unknown("a".to_string()));
}

#[test]
fn io_errors() {
    assert!(matches!(map_io_error(IoErrorKind::NotFound), CommonError::UserNotFound(_)));
    assert!(matches!(map_io_error(IoErrorKind::PermissionDenied), CommonError::Forbidden(_)));
    assert!(matches!(map_io_error(IoErrorKind::Other), CommonError::Unknown(_)));
}

#[test]
fn readiness() {
    assert_eq!(component_status(true).status, "pass");
    assert_eq!(component_status(false).status, "fail");
    assert_eq!(readiness_status(&vec![component_status(true), component_status(true)]), 200);
    assert_eq!(readiness_status(&vec![component_status(true), component_status(false)]), 503);
    assert_eq!(readiness_status(&vec![]), 200);
}

#[test]
fn health_report_of_each_component() {
    let reports = calculate_status(vec![("database".to_string(), true), ("redis".to_string(), false)]);
    assert_eq!(reports.len(), 2);
    assert_eq!(reports[0].0, "database");
    assert_eq!(reports[0].1.status, "pass");
    assert_eq!(reports[1].0, "redis");
    assert_eq!(reports[1].1.status, "fail");
    let checks: Vec<_> = reports.into_iter().map(|(_, c)| c).collect();
    assert_eq!(readiness_status(&checks), 503);
}
