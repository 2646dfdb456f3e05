//! Synapse rooms of friendships: the alias of the room of two users, how the room of a
//! new friendship is found or created, and how it is recorded as a direct chat.

use vstd::prelude::*;
use vstd::string::*;

use crate::entities::{ordered_pair, sort_addresses, Friendship};
use crate::error::CommonError;
use crate::friendship_event::FriendshipEvent;
use crate::synapse::{
    encode_alias, encoded_alias, synapse_user_id, user_id_as_synapse_user_id, CreateRoomResponse,
};
use crate::text::{ascii_lower, chars_eq_str, chars_of, to_ascii_lowercase};

verus! {

/// The encoded alias of the room of two users: their lowercase addresses, ordered and
/// joined with `+`, as `#{joined}:decentraland.{domain}`.
pub open spec fn room_alias_of(acting_user: Seq<char>, second_user: Seq<char>, synapse_url: Seq<char>) -> Seq<char> {
    let pair = ordered_pair(ascii_lower(acting_user), ascii_lower(second_user));
    encoded_alias(pair.0 + "+"@ + pair.1, synapse_url)
}

/// Builds the encoded alias of the room of two users (see [`room_alias_of`]); the alias
/// is the same whichever of the two users acts.
pub fn build_room_alias_name(acting_user: &str, second_user: &str, synapse_url: &str) -> (r: String)
    ensures
        r@ == room_alias_of(acting_user@, second_user@, synapse_url@),
{
    let act_user_parsed = to_ascii_lowercase(acting_user);
    let sec_user_parsed = to_ascii_lowercase(second_user);
    let (first, second) = sort_addresses((act_user_parsed.as_str(), sec_user_parsed.as_str()));
    let joined = String::from_str(first).concat("+").concat(second);
    encode_alias(joined.as_str(), synapse_url)
}

/// Where the search for the room of a friendship stands.
pub enum RoomIdResolution {
    /// Waiting for the lookup of the alias.
    LookingUpAlias { alias: String, invitee: String },
    /// Waiting for the room to be created.
    CreatingRoom,
    /// The search is over.
    Finished,
}

/// What the caller must do next to find the room.
pub enum RoomIdAction {
    /// Look the room up by its alias.
    LookupAlias { alias: String },
    /// Create a private room with this alias, inviting these Synapse users.
    CreateRoom { invite: Vec<String>, alias: String },
    /// Stop with this room id, or this error.
    Finish(Result<String, CommonError>),
}

/// What happened when the caller did what was asked.
pub enum RoomIdOutcome {
    /// The id of the room with the alias, or why there is none.
    AliasLookup(Result<String, CommonError>),
    RoomCreated(Result<CreateRoomResponse, CommonError>),
}

/// How the search for a room starts: an existing friendship has its room; a new one
/// can only come from a request, whose room is looked up by alias; any other event is
/// refused.
pub open spec fn room_id_start(
    friendship: Option<Friendship>,
    new_event: FriendshipEvent,
    acting_user: Seq<char>,
    second_user: Seq<char>,
    synapse_url: Seq<char>,
    state: RoomIdResolution,
    action: RoomIdAction,
) -> bool {
    match friendship {
        Some(f) => state is Finished && (action matches RoomIdAction::Finish(Ok(id)) && id@
            == f.synapse_room_id@),
        None => if new_event == FriendshipEvent::REQUEST {
            let alias = room_alias_of(acting_user, second_user, synapse_url);
            &&& state matches RoomIdResolution::LookingUpAlias { alias: a, invitee } && a@ == alias
                && invitee@ == synapse_user_id(second_user, synapse_url)
            &&& action matches RoomIdAction::LookupAlias { alias: a } && a@ == alias
        } else {
            &&& state is Finished
            &&& action matches RoomIdAction::Finish(Err(CommonError::BadRequest(m))) && m@
                == "Invalid frienship event update"@
        },
    }
}

/// One step of the search: a room found by alias is the answer; when the lookup fails,
/// a private room with that alias is created, inviting the second user; the created
/// room, or the creation error, is the answer. An outcome that does not answer the
/// pending request ends the search with an unknown error.
pub open spec fn room_id_step(
    state: RoomIdResolution,
    outcome: RoomIdOutcome,
    next: RoomIdResolution,
    action: RoomIdAction,
) -> bool {
    match (state, outcome) {
        (RoomIdResolution::LookingUpAlias { alias, invitee }, RoomIdOutcome::AliasLookup(found)) => match found {
            Ok(id) => next is Finished && (action matches RoomIdAction::Finish(Ok(r)) && r@ == id@),
            Err(_) => {
                &&& next is CreatingRoom
                &&& action matches RoomIdAction::CreateRoom { invite, alias: a } && a@ == alias@
                    && invite@.len() == 1 && invite@[0]@ == invitee@
            },
        },
        (RoomIdResolution::CreatingRoom, RoomIdOutcome::RoomCreated(created)) => match created {
            Ok(resp) => next is Finished && (action matches RoomIdAction::Finish(Ok(r)) && r@
                == resp.room_id@),
            Err(e) => next is Finished && action == RoomIdAction::Finish(Err(e)),
        },
        _ => next is Finished && (action matches RoomIdAction::Finish(Err(CommonError::Unknown(m)))
            && m@ == Seq::<char>::empty()),
    }
}

impl RoomIdResolution {
    /// Starts the search for the room of the friendship of two users (see
    /// [`room_id_start`]).
    pub fn start(
        friendship: Option<&Friendship>,
        new_event: &FriendshipEvent,
        acting_user: &str,
        second_user: &str,
        synapse_url: &str,
    ) -> (r: (Self, RoomIdAction))
        ensures
            room_id_start(
                match friendship {
                    Some(f) => Some(*f),
                    None => None,
                },
                *new_event,
                acting_user@,
                second_user@,
                synapse_url@,
                r.0,
                r.1,
            ),
    {
        match friendship {
            Some(friendship) => (
                RoomIdResolution::Finished,
                RoomIdAction::Finish(Ok(friendship.synapse_room_id.clone())),
            ),
            None => {
                if *new_event == FriendshipEvent::REQUEST {
                    let alias = build_room_alias_name(acting_user, second_user, synapse_url);
                    let invitee = user_id_as_synapse_user_id(second_user, synapse_url);
                    let copy = alias.clone();
                    (
                        RoomIdResolution::LookingUpAlias { alias, invitee },
                        RoomIdAction::LookupAlias { alias: copy },
                    )
                } else {
                    (
                        RoomIdResolution::Finished,
                        RoomIdAction::Finish(
                            Err(
                                CommonError::BadRequest(
                                    String::from_str("Invalid frienship event update"),
                                ),
                            ),
                        ),
                    )
                }
            },
        }
    }

    /// Moves the search on after `outcome` (see [`room_id_step`]).
    pub fn step(self, outcome: RoomIdOutcome) -> (r: (Self, RoomIdAction))
        ensures
            room_id_step(self, outcome, r.0, r.1),
    {
        match self {
            RoomIdResolution::LookingUpAlias { alias, invitee } => match outcome {
                RoomIdOutcome::AliasLookup(Ok(id)) => (RoomIdResolution::Finished, RoomIdAction::Finish(Ok(id))),
                RoomIdOutcome::AliasLookup(Err(_)) => {
                    let mut invite: Vec<String> = Vec::new();
                    invite.push(invitee);
                    (RoomIdResolution::CreatingRoom, RoomIdAction::CreateRoom { invite, alias })
                },
                _ => Self::failed(),
            },
            RoomIdResolution::CreatingRoom => match outcome {
                RoomIdOutcome::RoomCreated(Ok(resp)) => (
                    RoomIdResolution::Finished,
                    RoomIdAction::Finish(Ok(resp.room_id)),
                ),
                RoomIdOutcome::RoomCreated(Err(e)) => (RoomIdResolution::Finished, RoomIdAction::Finish(Err(e))),
                _ => Self::failed(),
            },
            RoomIdResolution::Finished => Self::failed(),
        }
    }

    fn failed() -> (r: (Self, RoomIdAction))
        ensures
            r.0 is Finished,
            r.1 matches RoomIdAction::Finish(Err(CommonError::Unknown(m))) && m@ == Seq::<char>::empty(),
    {
        (RoomIdResolution::Finished, RoomIdAction::Finish(Err(CommonError::Unknown(String::new()))))
    }
}

/// The alias of a room does not depend on which of its two users acts.
pub proof fn lemma_room_alias_symmetric(a: Seq<char>, b: Seq<char>, synapse_url: Seq<char>)
    ensures
        room_alias_of(a, b, synapse_url) == room_alias_of(b, a, synapse_url),
{
    let x = ascii_lower(a);
    let y = ascii_lower(b);
    if x != y {
        crate::text::lemma_seq_less_total(x, y);
    }
}


/// The room ids of a list, as text.
pub open spec fn rooms_view(rooms: Vec<String>) -> Seq<Seq<char>> {
    rooms@.map_values(|r: String| r@)
}

/// The direct-chat rooms of a user by Synapse user id, read from a list of entries in
/// which a later entry for the same user replaces an earlier one (as successive
/// inserts into a map would).
pub open spec fn direct_view(entries: Seq<(String, Vec<String>)>) -> Map<Seq<char>, Seq<Seq<char>>>
    decreases entries.len(),
{
    if entries.len() == 0 {
        Map::empty()
    } else {
        direct_view(entries.drop_last()).insert(entries.last().0@, rooms_view(entries.last().1))
    }
}

/// The entry at `i` is the last one for `key`, so it gives the rooms of `key`.
pub proof fn lemma_direct_view_entry(entries: Seq<(String, Vec<String>)>, key: Seq<char>, i: int)
    requires
        0 <= i < entries.len(),
        entries[i].0@ == key,
        forall|j: int| i < j < entries.len() ==> #[trigger] entries[j].0@ != key,
    ensures
        direct_view(entries).contains_key(key),
        direct_view(entries)[key] == rooms_view(entries[i].1),
    decreases entries.len(),
{
    if i < entries.len() - 1 {
        lemma_direct_view_entry(entries.drop_last(), key, i);
    }
}

/// Without any entry for `key`, `key` has no rooms.
pub proof fn lemma_direct_view_absent(entries: Seq<(String, Vec<String>)>, key: Seq<char>)
    requires
        forall|j: int| 0 <= j < entries.len() ==> #[trigger] entries[j].0@ != key,
    ensures
        !direct_view(entries).contains_key(key),
    decreases entries.len(),
{
    if entries.len() > 0 {
        lemma_direct_view_absent(entries.drop_last(), key);
    }
}

/// The rooms listed for `key`, none when it has no entry.
pub open spec fn listed_rooms(direct: Map<Seq<char>, Seq<Seq<char>>>, key: Seq<char>) -> Seq<
    Seq<char>,
> {
    if direct.contains_key(key) {
        direct[key]
    } else {
        Seq::empty()
    }
}

/// The new direct-chat rooms of the acting user once the room of a friendship is
/// recorded as a direct chat with the second user, or `None` when it is already
/// recorded: the room is added to the rooms listed under the second user's Synapse id,
/// and every other entry is kept.
pub open spec fn direct_rooms_after(
    direct: Map<Seq<char>, Seq<Seq<char>>>,
    second_user: Seq<char>,
    room_id: Seq<char>,
    synapse_url: Seq<char>,
) -> Option<Map<Seq<char>, Seq<Seq<char>>>> {
    let key = synapse_user_id(second_user, synapse_url);
    let rooms = listed_rooms(direct, key);
    if rooms.contains(room_id) {
        None
    } else {
        Some(direct.insert(key, rooms.push(room_id)))
    }
}

/// Decides how the direct-chat rooms of the acting user change (see
/// [`direct_rooms_after`]); `Some` holds the rooms to write back.
pub fn direct_rooms_update(
    direct: Vec<(String, Vec<String>)>,
    second_user: &str,
    room_id: &str,
    synapse_url: &str,
) -> (r: Option<Vec<(String, Vec<String>)>>)
    ensures
        match direct_rooms_after(direct_view(direct@), second_user@, room_id@, synapse_url@) {
            None => r is None,
            Some(m) => r matches Some(v) && direct_view(v@) == m,
        },
{
    let key = user_id_as_synapse_user_id(second_user, synapse_url);
    let ghost listed_before = listed_rooms(direct_view(direct@), key@);
    let mut i: usize = direct.len();
    while i > 0 && !(direct[i - 1].0 == key)
        invariant
            i <= direct@.len(),
            forall|j: int| i <= j < direct@.len() ==> #[trigger] direct@[j].0@ != key@,
        decreases i,
    {
        i = i - 1;
    }
    let mut listed: Vec<String> = Vec::new();
    if i == 0 {
        proof {
            lemma_direct_view_absent(direct@, key@);
            assert(rooms_view(listed) =~= listed_before);
        }
    } else {
        let found = i - 1;
        proof {
            lemma_direct_view_entry(direct@, key@, found as int);
        }
        let rooms = &direct[found].1;
        let mut k: usize = 0;
        while k < rooms.len()
            invariant
                k <= rooms@.len(),
                forall|j: int| 0 <= j < k ==> #[trigger] rooms@[j]@ != room_id@,
                rooms_view(listed) =~= rooms_view(*rooms).take(k as int),
                listed_before == rooms_view(*rooms),
                key@ == synapse_user_id(second_user@, synapse_url@),
                listed_before == listed_rooms(direct_view(direct@), key@),
            decreases rooms.len() - k,
        {
            let r = chars_of(rooms[k].as_str());
            if chars_eq_str(&r, room_id) {
                proof {
                    assert(rooms_view(*rooms)[k as int] == room_id@);
                    assert(listed_before.contains(room_id@));
                }
                return None;
            }
            listed.push(rooms[k].clone());
            assert(rooms_view(*rooms).take(k + 1) =~= rooms_view(*rooms).take(k as int).push(
                rooms@[k as int]@,
            ));
            k = k + 1;
        }
        proof {
            assert(rooms_view(listed) =~= listed_before);
        }
    }
    proof {
        assert(!listed_before.contains(room_id@)) by {
            if listed_before.contains(room_id@) {
                let j = choose|j: int| 0 <= j < listed_before.len() && listed_before[j] == room_id@;
                assert(rooms_view(listed)[j] == room_id@);
            }
        }
    }
    let ghost listed_mid = listed@;
    listed.push(room_id.to_string());
    proof {
        assert(rooms_view(listed) =~= listed_before.push(room_id@)) by {
            assert(listed@.drop_last() == listed_mid);
        }
    }
    let mut updated = direct;
    updated.push((key, listed));
    proof {
        assert(updated@.drop_last() =~= direct@);
    }
    Some(updated)
}

} // verus!
