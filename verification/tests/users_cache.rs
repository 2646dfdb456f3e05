use social_service::error::CommonError;
use social_service::synapse::WhoAmIResponse;
use social_service::users_cache::{
    expiry_seconds, hash_with_key, TokenAction, TokenOutcome, TokenResolution, UserId,
};

#[test]
fn users_cache_test_hash_with_same_string() {
    // Should be deterministic for the same string twice
    assert_eq!(
        hash_with_key("test string", "test_key"),
        hash_with_key("test string", "test_key")
    );
}

#[test]
fn users_cache_test_hash_with_different_string() {
    assert_ne!(
        hash_with_key("test string", "test_key"),
        hash_with_key("test2 string", "test_key")
    );
}

#[test]
fn encrypt_string_test_hash_with_same_string() {
    // Should be deterministic for the same string twice
    assert_eq!(
        hash_with_key("test string", "test_key"),
        hash_with_key("test string", "test_key")
    );
}

#[test]
fn encrypt_string_test_hash_with_different_string() {
    assert_ne!(
        hash_with_key("test string", "test_key"),
        hash_with_key("test2 string", "test_key")
    );
}

#[test]
fn hash_is_hex_of_hmac_sha256() {
    // The second HMAC-SHA256 vector of RFC 4231.
    assert_eq!(
        hash_with_key("what do ya want for nothing?", "Jefe"),
        "5bdcc146bf60754e6a042426089575c75a003f089d2739839dec58b964ec3843"
    );
    assert_eq!(hash_with_key("", "").len(), 64);
}

#[test]
fn should_not_call_synapse_when_token_available_in_redis() {
    let user_id = "0xa";
    let (state, action) = TokenResolution::start();
    assert!(matches!(action, TokenAction::LookupCache));
    let cached = UserId { social_id: user_id.to_string(), synapse_id: "@0xa:decentraland.org".to_string() };
    let (_, action) = state.step(TokenOutcome::Cache(Some(cached)));
    match action {
        TokenAction::Finish(Ok(user)) => assert_eq!(user.social_id, user_id),
        _ => panic!("the cached user should be returned without asking Synapse"),
    }
}

#[test]
fn should_call_synapse_when_token_not_available_in_redis_and_store_userid_into_redis() {
    let user_id = "0xa";
    let (state, _) = TokenResolution::start();
    let (state, action) = state.step(TokenOutcome::Cache(None));
    assert!(matches!(action, TokenAction::AskSynapse));
    let reply = WhoAmIResponse { user_id: format!("@{user_id}:decentraland.org"), social_user_id: None };
    let (state, action) = state.step(TokenOutcome::WhoAmI(Ok(reply)));
    match action {
        TokenAction::CacheUser(user) => {
            assert_eq!(user.social_id, user_id);
            assert_eq!(user.synapse_id, "@0xa:decentraland.org");
        }
        _ => panic!("the user should be cached"),
    }
    let (_, action) = state.step(TokenOutcome::Cached(false));
    match action {
        TokenAction::Finish(Ok(user)) => assert_eq!(user.social_id, user_id),
        _ => panic!("the user should be returned"),
    }
}

#[test]
fn synapse_error_ends_token_resolution() {
    let (state, _) = TokenResolution::start();
    let (state, _) = state.step(TokenOutcome::Cache(None));
    let (_, action) = state.step(TokenOutcome::WhoAmI(Err(CommonError::Unauthorized(String::new()))));
    assert!(matches!(action, TokenAction::Finish(Err(CommonError::Unauthorized(_)))));
}

#[test]
fn unexpected_outcome_ends_token_resolution() {
    let (state, _) = TokenResolution::start();
    let (_, action) = state.step(TokenOutcome::Cached(true));
    assert!(matches!(action, TokenAction::Finish(Err(CommonError::Unknown(_)))));
}

#[test]
fn cached_users_expire_after_the_default_time_unless_asked_otherwise() {
    assert_eq!(expiry_seconds(None), 1800);
    assert_eq!(expiry_seconds(Some(60)), 60);
}
