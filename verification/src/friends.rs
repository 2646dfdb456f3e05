//! The friends of a user, as listed by the friendships endpoint.

use vstd::prelude::*;
use vstd::string::*;

use crate::entities::Friendship;
use crate::error::CommonError;
use crate::synapse::{clean_synapse_user_id, clean_user_id};
use crate::text::{eq_ignore_ascii_case, eq_ignore_case};
use crate::users_cache::UserId;

verus! {

/// A friend in a friendships reply.
#[derive(Debug, PartialEq)]
pub struct FriendshipFriend {
    pub address: String,
}

/// The reply listing a user's friends.
#[derive(Debug)]
pub struct FriendshipsResponse {
    pub friendships: Vec<FriendshipFriend>,
}

impl FriendshipsResponse {
    /// The reply listing the given addresses, in order.
    pub fn new(addresses: Vec<String>) -> (r: Self)
        ensures
            r.friendships@.len() == addresses@.len(),
            forall|i: int|
                0 <= i < addresses@.len() ==> #[trigger] r.friendships@[i].address@
                    == addresses@[i]@,
    {
        let mut friendships: Vec<FriendshipFriend> = Vec::new();
        let mut i: usize = 0;
        while i < addresses.len()
            invariant
                i <= addresses@.len(),
                friendships@.len() == i,
                forall|j: int|
                    0 <= j < i ==> #[trigger] friendships@[j].address@ == addresses@[j]@,
            decreases addresses.len() - i,
        {
            friendships.push(FriendshipFriend { address: addresses[i].clone() });
            i = i + 1;
        }
        Self { friendships }
    }
}

/// The word that stands for the logged-in user in a friendships path.
pub const ME: &'static str = "me";

/// Whose friends a request for `user_id` asks for: the logged-in user for `me` (any
/// ASCII case), else the address inside the given Synapse user id.
pub open spec fn requested_user(logged_in_user: Seq<char>, user_id: Seq<char>) -> Seq<char> {
    if eq_ignore_case("me"@, user_id) {
        logged_in_user
    } else {
        clean_user_id(user_id)
    }
}

/// A user may only see their own friends (ASCII case ignored).
pub fn has_permission(logged_user_id: &str, user_id: &str) -> (r: bool)
    ensures
        r == eq_ignore_case(user_id@, logged_user_id@),
{
    eq_ignore_ascii_case(user_id, logged_user_id)
}

/// The address whose friends are listed for a request on `user_id` by the logged-in
/// user, or `Forbidden` when it is someone else's.
pub fn friends_owner(logged_in_user: &UserId, user_id: &str) -> (r: Result<String, CommonError>)
    ensures
        ({
            let target = requested_user(logged_in_user.social_id@, user_id@);
            if eq_ignore_case(target, logged_in_user.social_id@) {
                r matches Ok(t) && t@ == target
            } else {
                r matches Err(CommonError::Forbidden(m)) && m@ == "You don't have permission to view "@
                    + target + " friends"@
            }
        }),
{
    let clean_user_id = if eq_ignore_ascii_case(ME, user_id) {
        logged_in_user.social_id.clone()
    } else {
        clean_synapse_user_id(user_id)
    };
    if !has_permission(logged_in_user.social_id.as_str(), clean_user_id.as_str()) {
        let m = String::from_str("You don't have permission to view ").concat(
            clean_user_id.as_str(),
        ).concat(" friends");
        return Err(CommonError::Forbidden(m));
    }
    Ok(clean_user_id)
}

/// The other address of a friendship of `user_id`: the second when the first is the
/// user's (ASCII case ignored), else the first.
pub open spec fn friend_in(user_id: Seq<char>, f: Friendship) -> Seq<char> {
    if eq_ignore_case(f.address_1@, user_id) {
        f.address_2@
    } else {
        f.address_1@
    }
}

/// The friends of `user_id` in the given friendships, in order.
pub fn get_friends(user_id: &str, friendships: Vec<Friendship>) -> (r: Vec<String>)
    ensures
        r@.len() == friendships@.len(),
        forall|i: int|
            0 <= i < friendships@.len() ==> #[trigger] r@[i]@ == friend_in(user_id@, friendships@[i]),
{
    let mut r: Vec<String> = Vec::new();
    let mut i: usize = 0;
    while i < friendships.len()
        invariant
            i <= friendships@.len(),
            r@.len() == i,
            forall|j: int|
                0 <= j < i ==> #[trigger] r@[j]@ == friend_in(user_id@, friendships@[j]),
        decreases friendships.len() - i,
    {
        let f = &friendships[i];
        if eq_ignore_ascii_case(f.address_1.as_str(), user_id) {
            r.push(f.address_2.clone());
        } else {
            r.push(f.address_1.clone());
        }
        i = i + 1;
    }
    r
}

/// The reply to a friends request for `user_id`, given what the friendships lookup
/// returned: the friends in order, or an unknown error when the lookup failed.
pub fn friends_response(user_id: &str, found: Result<Vec<Friendship>, ()>) -> (r: Result<
    FriendshipsResponse,
    CommonError,
>)
    ensures
        match found {
            Err(_) => r matches Err(CommonError::Unknown(m)) && m@ == Seq::<char>::empty(),
            Ok(friendships) => r matches Ok(resp) && resp.friendships@.len()
                == friendships@.len() && forall|i: int|
                0 <= i < friendships@.len() ==> #[trigger] resp.friendships@[i].address@
                    == friend_in(user_id@, friendships@[i]),
        },
{
    match found {
        Err(()) => Err(CommonError::Unknown(String::new())),
        Ok(friendships) => Ok(FriendshipsResponse::new(get_friends(user_id, friendships))),
    }
}

} // verus!
