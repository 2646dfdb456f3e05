//! The Synapse (Matrix) side of the service: identifiers, room aliases, request paths
//! and bodies, and how Synapse replies are completed or turned into errors.

use std::collections::HashMap;

use vstd::prelude::*;
use vstd::string::*;
use vstd::utf8::encode_utf8;

use crate::encoding::{percent_encode, url_encode};
use crate::error::CommonError;
use crate::text::{
    after_last, before_first, chars_eq_str, chars_of, collect_without, first_index_of,
    last_segment, lemma_first_pos_bounds, string_of, without_char,
};

verus! {

/// Path of the Matrix versions endpoint.
pub const VERSION_URI: &'static str = "/_matrix/client/versions";

/// Path of the Matrix "who am I" endpoint.
pub const WHO_AM_I_URI: &'static str = "/_matrix/client/v3/account/whoami";

/// Path of the Matrix login endpoint.
pub const LOGIN_URI: &'static str = "/_matrix/client/r0/login";

/// Connection settings of the Synapse server.
#[derive(Debug, Clone)]
pub struct SynapseComponent {
    pub synapse_url: String,
}

/// Direct-chat rooms of a user, by the Synapse id of the other user.
pub struct AccountDataContentResponse {
    pub direct: HashMap<String, Vec<String>>,
}

/// The room an alias points to.
pub struct RoomIdResponse {
    pub room_id: String,
    pub servers: Vec<String>,
}

/// The Matrix versions a server supports.
pub struct VersionResponse {
    pub versions: Vec<String>,
    pub unstable_features: HashMap<String, bool>,
}

/// The user behind an access token.
pub struct WhoAmIResponse {
    pub user_id: String,
    /// The user's address; Synapse does not send it, the service fills it in.
    pub social_user_id: Option<String>,
}

/// An error reply of Synapse.
pub struct SynapseErrorResponse {
    pub errcode: String,
    pub error: Option<String>,
    pub soft_logout: Option<bool>,
}

/// Who logs in.
pub struct LoginIdentifier {
    pub _type: String,
    pub user: String,
}

/// One link of the signed authentication chain of a login.
pub struct AuthChain {
    pub _type: String,
    pub payload: String,
    pub signature: String,
}

/// A login request.
pub struct SynapseLoginRequest {
    pub _type: String,
    pub identifier: LoginIdentifier,
    pub timestamp: String,
    pub auth_chain: Vec<AuthChain>,
}

/// The reply to a login.
pub struct SynapseLoginResponse {
    pub user_id: String,
    /// The user's address; Synapse does not send it, the service fills it in.
    pub social_user_id: Option<String>,
    pub access_token: String,
    pub device_id: String,
    pub home_server: String,
    pub well_known: HashMap<String, HashMap<String, String>>,
}

/// A member of a room.
pub struct RoomMember {
    pub state_key: String,
    /// The member's address; Synapse does not send it, the service fills it in.
    pub social_user_id: Option<String>,
    pub user_id: String,
    pub room_id: String,
    /// The event type of the membership entry.
    pub member_type: String,
}

/// The members of a room.
pub struct RoomMembersResponse {
    pub chunk: Vec<RoomMember>,
}

/// Body of a text message sent to a room.
pub struct MessageRequestEventBody {
    pub msgtype: String,
    pub body: String,
}

/// Options of a room creation.
pub struct CreateRoomOpts {
    pub room_alias_name: String,
    pub preset: String,
    pub invite: Vec<String>,
    pub is_direct: bool,
}

/// Body of an invitation.
pub struct InviteUserRequest {
    pub user_id: String,
}

/// The reply to a room creation.
pub struct CreateRoomResponse {
    pub room_id: String,
}

/// The address inside a Synapse user id: for `@0x1111ada11111:decentraland.org` it is
/// `0x1111ada11111`. Ids that do not start with `@` are kept as they are; otherwise the
/// part before the first `:` is taken and every `@` removed from it.
pub open spec fn clean_user_id(user_id: Seq<char>) -> Seq<char> {
    if user_id.len() > 0 && user_id[0] == '@' {
        without_char(before_first(user_id, ':'), '@')
    } else {
        user_id
    }
}

/// The domain of a Synapse URL: the part after its last `.`, or `zone` when the URL
/// holds no `.` or nothing follows the last one.
pub open spec fn domain_of(url: Seq<char>) -> Seq<char> {
    let last = after_last(url, '.');
    if !url.contains('.') || last.len() == 0 {
        "zone"@
    } else {
        last
    }
}

/// The Synapse user id of an address on the server at `synapse_url`.
pub open spec fn synapse_user_id(user_id: Seq<char>, synapse_url: Seq<char>) -> Seq<char> {
    "@"@ + user_id + ":decentraland."@ + domain_of(synapse_url)
}

/// The full room alias `#{joined}:decentraland.{domain}`, percent-encoded.
pub open spec fn encoded_alias(joined_addresses: Seq<char>, synapse_url: Seq<char>) -> Seq<char> {
    percent_encode(encode_utf8("#"@ + joined_addresses + ":decentraland."@ + domain_of(synapse_url)))
}

/// Gets the local part of a Synapse user id (see [`clean_user_id`]).
pub fn clean_synapse_user_id(user_id: &str) -> (r: String)
    ensures
        r@ == clean_user_id(user_id@),
{
    let v = chars_of(user_id);
    if v.len() > 0 && v[0] == '@' {
        let end = first_index_of(&v, ':');
        collect_without(&v, end, '@')
    } else {
        user_id.to_string()
    }
}

/// Extracts the domain of a Synapse URL (see [`domain_of`]).
pub fn extract_domain(url: &str) -> (r: String)
    ensures
        r@ == domain_of(url@),
{
    let v = chars_of(url);
    let dot = first_index_of(&v, '.');
    proof {
        lemma_first_pos_bounds(v@, '.');
        if dot < v@.len() {
            assert(v@[dot as int] == '.');
        }
    }
    let last = last_segment(&v, '.');
    if dot == v.len() || last.len() == 0 {
        String::from_str("zone")
    } else {
        string_of(&last)
    }
}

/// Gets the Synapse user id of an address: `0x1111ada11111` becomes
/// `@0x1111ada11111:decentraland.org` on an `.org` server.
pub fn user_id_as_synapse_user_id(user_id: &str, synapse_url: &str) -> (r: String)
    ensures
        r@ == synapse_user_id(user_id@, synapse_url@),
{
    String::from_str("@").concat(user_id).concat(":decentraland.").concat(
        extract_domain(synapse_url).as_str(),
    )
}

/// The encoded full alias of a room, used as a path parameter when looking the room up
/// by alias.
pub fn full_encoded_alias(joined_addresses: &str, synapse: &SynapseComponent) -> (r: String)
    ensures
        r@ == encoded_alias(joined_addresses@, synapse.synapse_url@),
{
    encode_alias(joined_addresses, synapse.synapse_url.as_str())
}

/// The encoded full alias `#{joined}:decentraland.{domain}` for the server at
/// `synapse_url`.
pub fn encode_alias(joined_addresses: &str, synapse_url: &str) -> (r: String)
    ensures
        r@ == encoded_alias(joined_addresses@, synapse_url@),
{
    let full_alias = String::from_str("#").concat(joined_addresses).concat(
        ":decentraland.",
    ).concat(extract_domain(synapse_url).as_str());
    url_encode(full_alias.as_str())
}

impl SynapseComponent {
    /// A component for the Synapse server at `url`, which must not be empty.
    pub fn new(url: String) -> (r: Self)
        requires
            url@.len() > 0,
        ensures
            r.synapse_url == url,
    {
        Self { synapse_url: url }
    }
}


/// The Synapse user id starts with `@`.
pub open spec fn starts_with_at(s: Seq<char>) -> bool {
    s.len() > 0 && s[0] == '@'
}

/// The address a member is known by in a completed reply: the cleaned state key when
/// that key starts with `@`, else what the member already held.
pub open spec fn completed_social_id(m: RoomMember) -> Option<Seq<char>> {
    if starts_with_at(m.state_key@) {
        Some(clean_user_id(m.state_key@))
    } else {
        match m.social_user_id {
            Some(s) => Some(s@),
            None => None,
        }
    }
}

/// The address filled in for a member is read from its state key alone: a member whose
/// state key is a Synapse id gets the address inside that id, and two members that
/// differ only in their other fields (the sender's `user_id`, the room, the event type)
/// get the same address.
pub proof fn lemma_member_address_from_state_key(m: RoomMember, other: RoomMember)
    requires
        other.state_key@ == m.state_key@,
        opt_view(other.social_user_id) == opt_view(m.social_user_id),
    ensures
        m.state_key@.len() > 0 && m.state_key@[0] == '@' ==> completed_social_id(m) == Some(
            clean_user_id(m.state_key@),
        ),
        completed_social_id(other) == completed_social_id(m),
{
}

/// The address inside a Synapse id `@<address>:<server>` is `<address>`, for an
/// address holding neither `@` nor `:`.
pub proof fn lemma_clean_user_id_of_synapse_id(address: Seq<char>, server: Seq<char>)
    requires
        !address.contains('@'),
        !address.contains(':'),
    ensures
        clean_user_id(seq!['@'] + address + seq![':'] + server) == address,
{
    let id = seq!['@'] + address + seq![':'] + server;
    crate::text::lemma_first_pos(id, ':', address.len() + 1int);
    let head = id.take(address.len() + 1int);
    assert(head =~= seq!['@'] + address);
    crate::text::lemma_filter_drops_leading(address, '@');
}

/// The text of an optional string.
pub open spec fn opt_view(o: Option<String>) -> Option<Seq<char>> {
    match o {
        Some(s) => Some(s@),
        None => None,
    }
}

/// Copies an optional string.
pub fn clone_opt(o: &Option<String>) -> (r: Option<String>)
    ensures
        opt_view(r) == opt_view(*o),
{
    match o {
        Some(s) => Some(s.clone()),
        None => None,
    }
}

impl WhoAmIResponse {
    /// The reply with the user's address filled in from the Synapse user id.
    pub fn with_social_user_id(self) -> (r: Self)
        ensures
            r.user_id == self.user_id,
            r.social_user_id matches Some(s) && s@ == clean_user_id(self.user_id@),
    {
        let social = clean_synapse_user_id(self.user_id.as_str());
        WhoAmIResponse { user_id: self.user_id, social_user_id: Some(social) }
    }
}

impl SynapseLoginResponse {
    /// The reply with the user's address filled in from the Synapse user id.
    pub fn with_social_user_id(self) -> (r: Self)
        ensures
            r.user_id == self.user_id,
            r.access_token == self.access_token,
            r.device_id == self.device_id,
            r.home_server == self.home_server,
            r.well_known == self.well_known,
            r.social_user_id matches Some(s) && s@ == clean_user_id(self.user_id@),
    {
        let social = clean_synapse_user_id(self.user_id.as_str());
        SynapseLoginResponse { social_user_id: Some(social), ..self }
    }
}

impl RoomMembersResponse {
    /// The reply with the address of every member whose state key is a Synapse user id
    /// filled in; other members are left as they are.
    pub fn with_social_user_ids(self) -> (r: Self)
        ensures
            r.chunk@.len() == self.chunk@.len(),
            forall|i: int|
                0 <= i < self.chunk@.len() ==> {
                    let before = #[trigger] self.chunk@[i];
                    let after = r.chunk@[i];
                    &&& after.state_key@ == before.state_key@
                    &&& after.user_id@ == before.user_id@
                    &&& after.room_id@ == before.room_id@
                    &&& after.member_type@ == before.member_type@
                    &&& opt_view(after.social_user_id) == completed_social_id(before)
                },
    {
        let mut chunk: Vec<RoomMember> = Vec::new();
        let n = self.chunk.len();
        let mut i: usize = 0;
        while i < n
            invariant
                n == self.chunk@.len(),
                i <= n,
                chunk@.len() == i,
                forall|j: int|
                    0 <= j < i ==> {
                        let before = #[trigger] self.chunk@[j];
                        let after = chunk@[j];
                        &&& after.state_key@ == before.state_key@
                        &&& after.user_id@ == before.user_id@
                        &&& after.room_id@ == before.room_id@
                        &&& after.member_type@ == before.member_type@
                        &&& opt_view(after.social_user_id) == completed_social_id(before)
                    },
            decreases n - i,
        {
            let m = &self.chunk[i];
            let key = chars_of(m.state_key.as_str());
            let social = if key.len() > 0 && key[0] == '@' {
                Some(clean_synapse_user_id(m.state_key.as_str()))
            } else {
                clone_opt(&m.social_user_id)
            };
            chunk.push(
                RoomMember {
                    state_key: m.state_key.clone(),
                    social_user_id: social,
                    user_id: m.user_id.clone(),
                    room_id: m.room_id.clone(),
                    member_type: m.member_type.clone(),
                },
            );
            i = i + 1;
        }
        RoomMembersResponse { chunk }
    }
}

/// The error a Synapse error reply stands for: `M_FORBIDDEN` is forbidden (with the
/// reply's text, `Forbidden` when it has none), a missing or unknown token is
/// unauthorized, `M_LIMIT_EXCEEDED` is too many requests; any other code, or a reply
/// that could not be read (`None`), is an unknown error.
pub open spec fn synapse_reply_error(reply: Option<SynapseErrorResponse>, r: CommonError) -> bool {
    match reply {
        None => r matches CommonError::Unknown(s) && s@ == Seq::<char>::empty(),
        Some(reply) => if reply.errcode@ == "M_FORBIDDEN"@ {
            r matches CommonError::Forbidden(s) && s@ == match reply.error {
                Some(e) => e@,
                None => "Forbidden"@,
            }
        } else if reply.errcode@ == "M_UNKNOWN_TOKEN"@ || reply.errcode@ == "M_MISSING_TOKEN"@ {
            r matches CommonError::Unauthorized(s) && s@ == Seq::<char>::empty()
        } else if reply.errcode@ == "M_LIMIT_EXCEEDED"@ {
            r matches CommonError::TooManyRequests(s) && s@ == Seq::<char>::empty()
        } else {
            r matches CommonError::Unknown(s) && s@ == Seq::<char>::empty()
        },
    }
}

/// The error for a Synapse error reply, `None` meaning the reply could not be read as
/// one (see [`synapse_reply_error`]).
pub fn error_from_synapse_reply(reply: Option<SynapseErrorResponse>) -> (r: CommonError)
    ensures
        synapse_reply_error(reply, r),
{
    match reply {
        None => CommonError::Unknown(String::new()),
        Some(reply) => {
            let code = chars_of(reply.errcode.as_str());
            if chars_eq_str(&code, "M_FORBIDDEN") {
                match reply.error {
                    Some(e) => CommonError::Forbidden(e),
                    None => CommonError::Forbidden(String::from_str("Forbidden")),
                }
            } else if chars_eq_str(&code, "M_UNKNOWN_TOKEN") || chars_eq_str(&code, "M_MISSING_TOKEN") {
                CommonError::Unauthorized(String::new())
            } else if chars_eq_str(&code, "M_LIMIT_EXCEEDED") {
                CommonError::TooManyRequests(String::new())
            } else {
                CommonError::Unknown(String::new())
            }
        },
    }
}

/// Lowercases a string by the Unicode rules.
pub uninterp spec fn unicode_lower(s: Seq<char>) -> Seq<char>;

/// Trusted: `str::to_lowercase`, std's Unicode lowercasing. Claimed: the result depends
/// on the characters of `s` alone, under the name [`unicode_lower`].
#[verifier::external_body]
fn to_lowercase(s: &str) -> (r: String)
    ensures
        r@ == unicode_lower(s@),
{
    s.to_lowercase()
}

/// The options of a private direct-chat room with the given alias, inviting the given
/// Synapse users (lowercased).
pub fn create_room_opts(synapse_user_ids: Vec<&str>, room_alias_name: &str) -> (r: CreateRoomOpts)
    ensures
        r.room_alias_name@ == room_alias_name@,
        r.preset@ == "trusted_private_chat"@,
        r.is_direct,
        r.invite@.len() == synapse_user_ids@.len(),
        forall|i: int|
            0 <= i < synapse_user_ids@.len() ==> #[trigger] r.invite@[i]@ == unicode_lower(
                synapse_user_ids@[i]@,
            ),
{
    let mut invite: Vec<String> = Vec::new();
    let mut i: usize = 0;
    while i < synapse_user_ids.len()
        invariant
            i <= synapse_user_ids@.len(),
            invite@.len() == i,
            forall|j: int|
                0 <= j < i ==> #[trigger] invite@[j]@ == unicode_lower(synapse_user_ids@[j]@),
        decreases synapse_user_ids.len() - i,
    {
        invite.push(to_lowercase(synapse_user_ids[i]));
        i = i + 1;
    }
    CreateRoomOpts {
        room_alias_name: room_alias_name.to_string(),
        preset: String::from_str("trusted_private_chat"),
        invite,
        is_direct: true,
    }
}

/// The body of a text message.
pub fn message_event_body(room_message_body: &str) -> (r: MessageRequestEventBody)
    ensures
        r.msgtype@ == "m.text"@,
        r.body@ == room_message_body@,
{
    MessageRequestEventBody {
        msgtype: String::from_str("m.text"),
        body: room_message_body.to_string(),
    }
}

/// Percent-encoding of the UTF-8 bytes of a text.
pub open spec fn encoded(s: Seq<char>) -> Seq<char> {
    percent_encode(encode_utf8(s))
}

/// Path of the list of rooms the user joined.
pub const JOINED_ROOMS_URI: &'static str = "/_matrix/client/r0/joined_rooms";

/// Path of the room creation endpoint.
pub const CREATE_ROOM_URI: &'static str = "/_matrix/client/r0/createRoom";

/// Path to join a room.
pub fn join_room_path(room_id: &str) -> (r: String)
    ensures
        r@ == "/_matrix/client/r0/rooms/"@ + encoded(room_id@) + "/join"@,
{
    String::from_str("/_matrix/client/r0/rooms/").concat(url_encode(room_id).as_str()).concat(
        "/join",
    )
}

/// Path of the friendship state event of a room.
pub fn room_friendship_event_path(room_id: &str) -> (r: String)
    ensures
        r@ == "/_matrix/client/r0/rooms/"@ + encoded(room_id@)
            + "/state/org.decentraland.friendship"@,
{
    String::from_str("/_matrix/client/r0/rooms/").concat(url_encode(room_id).as_str()).concat(
        "/state/org.decentraland.friendship",
    )
}

/// Path to send a text message to a room, with the transaction id that makes the
/// request idempotent.
pub fn send_message_path(room_id: &str, txn_id: &str) -> (r: String)
    ensures
        r@ == "/_matrix/client/r0/rooms/"@ + encoded(room_id@) + "/send/m.room.message/"@
            + txn_id@,
{
    String::from_str("/_matrix/client/r0/rooms/").concat(url_encode(room_id).as_str()).concat(
        "/send/m.room.message/",
    ).concat(txn_id)
}

/// Path of the members of a room.
pub fn room_members_path(room_id: &str) -> (r: String)
    ensures
        r@ == "/_matrix/client/r0/rooms/"@ + encoded(room_id@) + "/members"@,
{
    String::from_str("/_matrix/client/r0/rooms/").concat(url_encode(room_id).as_str()).concat(
        "/members",
    )
}

/// Path of the direct-chat account data of a Synapse user.
pub fn account_data_path(synapse_user_id: &str) -> (r: String)
    ensures
        r@ == "/_matrix/client/r0/user/"@ + encoded(synapse_user_id@) + "/account_data/m.direct"@,
{
    String::from_str("/_matrix/client/r0/user/").concat(url_encode(synapse_user_id).as_str()).concat(
        "/account_data/m.direct",
    )
}

/// Path to look a room up by the alias made of the joined addresses.
pub fn room_alias_path(alias: &str, synapse: &SynapseComponent) -> (r: String)
    ensures
        r@ == "/_matrix/client/r0/directory/room/"@ + encoded_alias(alias@, synapse.synapse_url@),
{
    String::from_str("/_matrix/client/r0/directory/room/").concat(
        full_encoded_alias(alias, synapse).as_str(),
    )
}

} // verus!
