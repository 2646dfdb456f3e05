//! Records stored for friendships: the friendship row, its history and user features.

use vstd::prelude::*;

use crate::friendship_event::FriendshipEvent;
use crate::text::{lemma_seq_less_irreflexive, lemma_seq_less_total, seq_less, str_less};

verus! {

/// A friendship between two addresses, as stored.
pub struct Friendship {
    /// Identifier of the friendship (a UUID in its hyphenated text form).
    pub id: String,
    pub address_1: String,
    pub address_2: String,
    /// Whether the two users are currently friends.
    pub is_active: bool,
    /// The Synapse room where the two users talk.
    pub synapse_room_id: String,
}

/// Extra data attached to a history entry.
pub struct FriendshipMetadata {
    pub message: Option<String>,
    pub synapse_room_id: Option<String>,
    pub migrated_from_synapse: Option<bool>,
}

/// One recorded event of a friendship.
pub struct FriendshipHistory {
    /// Identifier of the friendship (a UUID in its hyphenated text form).
    pub friendship_id: String,
    pub event: FriendshipEvent,
    /// The user who performed the event.
    pub acting_user: String,
    /// When the event was recorded, in seconds since the Unix epoch.
    pub timestamp: i64,
    pub metadata: Option<FriendshipMetadata>,
}

/// A pending friendship request, as listed for one of its two users.
pub struct FriendshipRequestEvent {
    pub address_1: String,
    pub address_2: String,
    pub acting_user: String,
    /// When the request was recorded, in seconds since the Unix epoch.
    pub timestamp: i64,
    pub metadata: Option<FriendshipMetadata>,
}

/// One feature flag of a user.
pub struct UserFeature {
    pub feature_name: String,
    pub feature_value: String,
}

/// All feature flags of a user.
pub struct UserFeatures {
    pub user: String,
    pub features: Vec<UserFeature>,
}

impl UserFeatures {
    /// The features of `user` read from storage, `None` when there are none.
    pub fn from_rows(user: &str, features: Vec<UserFeature>) -> (r: Option<Self>)
        ensures
            features@.len() == 0 ==> r is None,
            features@.len() > 0 ==> (r matches Some(u) && u.user@ == user@ && u.features
                == features),
    {
        if features.len() == 0 {
            None
        } else {
            Some(UserFeatures { user: user.to_string(), features })
        }
    }
}

/// The event of the last recorded history entry, if any.
pub open spec fn last_event(last: Option<FriendshipHistory>) -> Option<FriendshipEvent> {
    match last {
        Some(h) => Some(h.event),
        None => None,
    }
}


/// The two addresses in the order a friendship stores them: the smaller first.
pub open spec fn ordered_pair(a: Seq<char>, b: Seq<char>) -> (Seq<char>, Seq<char>) {
    if seq_less(a, b) {
        (a, b)
    } else {
        (b, a)
    }
}

/// Sorts two addresses so that the smaller comes first; a friendship is stored with its
/// addresses in this order, which makes the pair unique.
pub fn sort_addresses<'a>(addresses: (&'a str, &'a str)) -> (r: (&'a str, &'a str))
    ensures
        (r.0@, r.1@) == ordered_pair(addresses.0@, addresses.1@),
        r == addresses || r == (addresses.1, addresses.0),
{
    let (address1, address2) = addresses;
    if str_less(address1, address2) {
        addresses
    } else {
        (address2, address1)
    }
}


/// The stored order of two addresses does not depend on the order they are given in,
/// so a friendship between two users is stored as one and the same pair, and the
/// second address never comes before the first.
pub proof fn lemma_ordered_pair_symmetric(a: Seq<char>, b: Seq<char>)
    ensures
        ordered_pair(a, b) == ordered_pair(b, a),
        !seq_less(ordered_pair(a, b).1, ordered_pair(a, b).0),
{
    if a == b {
        lemma_seq_less_irreflexive(a);
    } else {
        lemma_seq_less_total(a, b);
    }
}

} // verus!
