//! Users known by their access token: the cache key of a token and the way a token is
//! resolved to a user, first from the cache, then from Synapse.

use hmac::Mac;
use vstd::prelude::*;
use vstd::string::*;

use crate::encoding::{hex_encode, hex_lower};
use crate::error::CommonError;
use crate::synapse::{clean_synapse_user_id, clean_user_id, WhoAmIResponse};

verus! {

/// A user as the service knows it: the address and the Synapse user id.
#[derive(Debug, PartialEq)]
pub struct UserId {
    pub social_id: String,
    pub synapse_id: String,
}

impl Clone for UserId {
    fn clone(&self) -> (r: Self)
        ensures
            r.social_id@ == self.social_id@,
            r.synapse_id@ == self.synapse_id@,
    {
        UserId { social_id: self.social_id.clone(), synapse_id: self.synapse_id.clone() }
    }
}

/// The HMAC-SHA256 tag of `message` under `key`.
pub uninterp spec fn hmac_sha256_tag(key: Seq<u8>, message: Seq<u8>) -> Seq<u8>;

/// Trusted: the `hmac` crate with `sha2::Sha256`: a MAC set up from the key with
/// `Mac::new_from_slice` (which accepts keys of any length), fed the message with
/// `update`, and read with `finalize().into_bytes()`. Claimed: the tag depends on key
/// and message alone, under the name [`hmac_sha256_tag`], and is 32 bytes long.
#[verifier::external_body]
fn hmac_sha256(key: &[u8], message: &[u8]) -> (tag: Vec<u8>)
    ensures
        tag@ == hmac_sha256_tag(key@, message@),
        tag@.len() == 32,
{
    let mut mac = <hmac::Hmac<sha2::Sha256>>::new_from_slice(key).expect(
        "HMAC can take key of any size",
    );
    mac.update(message);
    mac.finalize().into_bytes().to_vec()
}

/// The cache key of a text: the lowercase hex rendering of its HMAC-SHA256 tag under
/// `key`.
pub open spec fn keyed_hash(text: Seq<char>, key: Seq<char>) -> Seq<char> {
    hex_lower(
        hmac_sha256_tag(vstd::utf8::encode_utf8(key), vstd::utf8::encode_utf8(text)),
    )
}

/// Hashes `str` with `key` (HMAC-SHA256), rendered as lowercase hex.
pub fn hash_with_key(str: &str, key: &str) -> (r: String)
    ensures
        r@ == keyed_hash(str@, key@),
        r@.len() == 64,
{
    let tag = hmac_sha256(key.as_bytes(), str.as_bytes());
    proof {
        lemma_hex_lower_len(tag@);
    }
    hex_encode(tag.as_slice())
}

/// Hex rendering doubles the length.
pub proof fn lemma_hex_lower_len(bytes: Seq<u8>)
    ensures
        hex_lower(bytes).len() == 2 * bytes.len(),
    decreases bytes.len(),
{
    if bytes.len() > 0 {
        lemma_hex_lower_len(bytes.drop_last());
    }
}

/// How long a cached user is kept, in seconds, unless the caller asks otherwise.
pub const DEFAULT_EXPIRATION_TIME_SECONDS: i32 = 1800;

/// How long a user is kept in the cache: the requested time, else the default.
pub fn expiry_seconds(custom_expiry_time: Option<i32>) -> (r: i32)
    ensures
        r == match custom_expiry_time {
            Some(t) => t,
            None => DEFAULT_EXPIRATION_TIME_SECONDS,
        },
{
    match custom_expiry_time {
        Some(t) => t,
        None => DEFAULT_EXPIRATION_TIME_SECONDS,
    }
}

/// Where the resolution of a token stands.
pub enum TokenResolution {
    /// Waiting for the cache lookup of the token.
    CheckingCache,
    /// Waiting for Synapse to say whose token it is.
    AskingSynapse,
    /// Waiting for the user to be stored in the cache.
    Caching { user: UserId },
    /// The resolution is over.
    Finished,
}

/// What the caller must do next to resolve a token.
pub enum TokenAction {
    /// Look the token up in the users cache.
    LookupCache,
    /// Ask Synapse who owns the token.
    AskSynapse,
    /// Store the user under the token in the users cache.
    CacheUser(UserId),
    /// Stop with this result.
    Finish(Result<UserId, CommonError>),
}

/// What happened when the caller did what was asked.
pub enum TokenOutcome {
    /// The user found in the cache, `None` when the cache had none or failed.
    Cache(Option<UserId>),
    /// The reply of Synapse, as Synapse sent it.
    WhoAmI(Result<WhoAmIResponse, CommonError>),
    /// The user was stored in the cache, or storing failed.
    Cached(bool),
}

/// `u` is the user behind a Synapse reply: its Synapse id and the address cleaned
/// from it.
pub open spec fn user_of_reply(u: UserId, reply: WhoAmIResponse) -> bool {
    u.synapse_id@ == reply.user_id@ && u.social_id@ == clean_user_id(reply.user_id@)
}

/// The users are the same.
pub open spec fn same_user(a: UserId, b: UserId) -> bool {
    a.social_id@ == b.social_id@ && a.synapse_id@ == b.synapse_id@
}

/// One step of the resolution: from `state`, after `outcome`, the resolution moves to
/// `next` and asks for `action`. A cached user is returned as it is, without asking
/// Synapse; otherwise Synapse is asked, its error returned, or its user stored in the
/// cache and then returned whether the cache accepted it or not. An outcome that does
/// not answer the pending request ends the resolution with an unknown error.
pub open spec fn token_step(
    state: TokenResolution,
    outcome: TokenOutcome,
    next: TokenResolution,
    action: TokenAction,
) -> bool {
    match (state, outcome) {
        (TokenResolution::CheckingCache, TokenOutcome::Cache(Some(u))) => {
            &&& next is Finished
            &&& action matches TokenAction::Finish(Ok(v)) && same_user(v, u)
        },
        (TokenResolution::CheckingCache, TokenOutcome::Cache(None)) => {
            &&& next is AskingSynapse
            &&& action is AskSynapse
        },
        (TokenResolution::AskingSynapse, TokenOutcome::WhoAmI(Err(e))) => {
            &&& next is Finished
            &&& action == TokenAction::Finish(Err(e))
        },
        (TokenResolution::AskingSynapse, TokenOutcome::WhoAmI(Ok(reply))) => {
            &&& next matches TokenResolution::Caching { user } && user_of_reply(user, reply)
            &&& action matches TokenAction::CacheUser(v) && user_of_reply(v, reply)
        },
        (TokenResolution::Caching { user }, TokenOutcome::Cached(_)) => {
            &&& next is Finished
            &&& action matches TokenAction::Finish(Ok(v)) && same_user(v, user)
        },
        _ => {
            &&& next is Finished
            &&& action matches TokenAction::Finish(Err(e)) && e matches CommonError::Unknown(s)
                && s@ == Seq::<char>::empty()
        },
    }
}

impl TokenResolution {
    /// A resolution about to look the token up in the cache.
    pub fn start() -> (r: (Self, TokenAction))
        ensures
            r.0 is CheckingCache,
            r.1 is LookupCache,
    {
        (TokenResolution::CheckingCache, TokenAction::LookupCache)
    }

    /// Moves the resolution on after `outcome` and says what to do next (see
    /// [`token_step`]).
    pub fn step(self, outcome: TokenOutcome) -> (r: (Self, TokenAction))
        ensures
            token_step(self, outcome, r.0, r.1),
    {
        match self {
            TokenResolution::CheckingCache => match outcome {
                TokenOutcome::Cache(Some(u)) => (
                    TokenResolution::Finished,
                    TokenAction::Finish(Ok(u)),
                ),
                TokenOutcome::Cache(None) => (
                    TokenResolution::AskingSynapse,
                    TokenAction::AskSynapse,
                ),
                _ => Self::failed(),
            },
            TokenResolution::AskingSynapse => match outcome {
                TokenOutcome::WhoAmI(Err(e)) => (TokenResolution::Finished, TokenAction::Finish(Err(e))),
                TokenOutcome::WhoAmI(Ok(reply)) => {
                    let social_id = clean_synapse_user_id(reply.user_id.as_str());
                    let user = UserId { social_id, synapse_id: reply.user_id };
                    let copy = user.clone();
                    (TokenResolution::Caching { user }, TokenAction::CacheUser(copy))
                },
                _ => Self::failed(),
            },
            TokenResolution::Caching { user } => match outcome {
                TokenOutcome::Cached(_) => (TokenResolution::Finished, TokenAction::Finish(Ok(user))),
                _ => Self::failed(),
            },
            TokenResolution::Finished => Self::failed(),
        }
    }

    fn failed() -> (r: (Self, TokenAction))
        ensures
            r.0 is Finished,
            r.1 matches TokenAction::Finish(Err(e)) && e matches CommonError::Unknown(s) && s@
                == Seq::<char>::empty(),
    {
        (TokenResolution::Finished, TokenAction::Finish(Err(CommonError::Unknown(String::new()))))
    }
}

/// A token found in the cache is resolved without asking Synapse.
pub proof fn lemma_cached_token_skips_synapse(
    user: UserId,
    next: TokenResolution,
    action: TokenAction,
)
    requires
        token_step(TokenResolution::CheckingCache, TokenOutcome::Cache(Some(user)), next, action),
    ensures
        !(action is AskSynapse),
        action matches TokenAction::Finish(Ok(v)) && same_user(v, user),
{
}

/// A user learnt from Synapse is stored in the cache before it is returned, and the
/// user returned is the one stored.
pub proof fn lemma_synapse_user_is_cached_then_returned(
    reply: WhoAmIResponse,
    next: TokenResolution,
    action: TokenAction,
    ok: bool,
    last: TokenResolution,
    result: TokenAction,
)
    requires
        token_step(TokenResolution::AskingSynapse, TokenOutcome::WhoAmI(Ok(reply)), next, action),
        token_step(next, TokenOutcome::Cached(ok), last, result),
    ensures
        action matches TokenAction::CacheUser(v) && user_of_reply(v, reply),
        result matches TokenAction::Finish(Ok(v)) && user_of_reply(v, reply),
{
}

} // verus!
