//! The handling of a friendship event sent to a Synapse room, as a sequence of
//! decisions. The caller performs each requested action (Synapse calls, database reads
//! and writes, the transaction) and hands back its outcome; the flow decides what comes
//! next and, in the end, the reply.

use vstd::prelude::*;
use vstd::string::*;

use crate::entities::{ordered_pair, sort_addresses, Friendship, FriendshipHistory, FriendshipMetadata};
use crate::error::{CommonError, SynapseError};
use crate::friendship_event::FriendshipEvent;
use crate::friendship_status::{status_of_history, FriendshipStatus, StatusView};
use crate::room_events::{
    get_room_members, lemma_accepted_event_changes_status, member_address, message_for, message_to_send, new_status_for,
    other_member, process_friendship_status, second_user_of, RoomEventResponse,
    MESSAGE_ATTEMPTS,
};
use crate::synapse::{clone_opt, opt_view, RoomMembersResponse};

verus! {

/// A friendship event sent by a user to a room.
pub struct RoomEventRequest {
    pub acting_user: String,
    pub room_id: String,
    pub room_event: FriendshipEvent,
    pub room_message_body: Option<String>,
}

/// How the friendship row is written.
pub enum FriendshipWrite {
    /// Set whether the existing friendship is active.
    Update { friendship_id: String, is_active: bool },
    /// Create the friendship, its addresses in stored order.
    Create { address_1: String, address_2: String, is_active: bool, synapse_room_id: String },
}

/// A history entry to record.
pub struct HistoryEntry {
    pub friendship_id: String,
    pub event: FriendshipEvent,
    pub acting_user: String,
    pub metadata: FriendshipMetadata,
}

/// Where the handling of a room event stands.
pub enum RoomEventStage {
    /// Waiting for the members of the room.
    FetchingMembers,
    /// Waiting for the friendship of the two members.
    FetchingFriendship { second_user: String },
    /// Waiting for the last history entry of the friendship.
    FetchingHistory { second_user: String, friendship: Friendship },
    /// Waiting for the database transaction to start.
    StartingTransaction {
        second_user: String,
        existing: Option<Friendship>,
        new_status: FriendshipStatus,
    },
    /// Waiting for the friendship row to be written.
    WritingFriendship,
    /// Waiting for the history entry to be written.
    WritingHistory,
    /// Waiting for the message of a request to be posted; `attempts` tries so far.
    SendingMessage { body: String, attempts: u8 },
    /// Waiting for the friendship event to be stored in the room.
    StoringRoomEvent,
    /// Waiting for the transaction to be committed.
    Committing { response: RoomEventResponse },
    /// The handling is over.
    Finished,
}

/// What the caller must do next.
pub enum RoomEventAction {
    /// Fetch the members of the room from Synapse.
    FetchRoomMembers,
    /// Fetch the friendship between the two addresses.
    FetchFriendship { address_0: String, address_1: String },
    /// Fetch the last history entry of the friendship.
    FetchLastHistory { friendship_id: String },
    /// Start a database transaction.
    StartTransaction,
    /// Write the friendship row within the transaction.
    WriteFriendship(FriendshipWrite),
    /// Record the history entry within the transaction.
    WriteHistory(HistoryEntry),
    /// Post the message of the request to the room.
    SendMessage { body: String },
    /// Store the friendship event in the room.
    StoreRoomEvent,
    /// Commit the transaction.
    Commit,
    /// Roll the transaction back and stop with this error.
    RollBack(SynapseError),
    /// Stop with this result (a transaction still open is dropped, which undoes it).
    Finish(Result<RoomEventResponse, SynapseError>),
}

/// What happened when the caller did what was asked.
pub enum RoomEventOutcome {
    Members(Result<RoomMembersResponse, CommonError>),
    /// The friendship of the two users, `Err` when the lookup failed.
    Friendship(Result<Option<Friendship>, ()>),
    /// The last history entry, `Err` when the lookup failed.
    LastHistory(Result<Option<FriendshipHistory>, ()>),
    TransactionStarted(bool),
    /// The id of the friendship written, `Err` when the write failed.
    FriendshipWritten(Result<String, ()>),
    HistoryWritten(bool),
    MessageSent(Result<(), CommonError>),
    RoomEventStored(Result<RoomEventResponse, CommonError>),
    Committed(bool),
}

/// The handling of one room event.
pub struct RoomEventFlow {
    pub request: RoomEventRequest,
    pub stage: RoomEventStage,
}

/// `e` is an unknown error with no text.
pub open spec fn is_unknown(e: SynapseError) -> bool {
    e matches SynapseError::CommonError(c) && c matches CommonError::Unknown(s) && s@
        == Seq::<char>::empty()
}

/// `action` stops the flow with an unknown error, without rolling back.
pub open spec fn finishes_unknown(action: RoomEventAction) -> bool {
    action matches RoomEventAction::Finish(Err(e)) && is_unknown(e)
}

/// `action` rolls the transaction back and stops with an unknown error.
pub open spec fn rolls_back_unknown(action: RoomEventAction) -> bool {
    action matches RoomEventAction::RollBack(e) && is_unknown(e)
}

/// The message of the request, as text.
pub open spec fn request_message(req: RoomEventRequest) -> Option<Seq<char>> {
    opt_view(req.room_message_body)
}

/// The friendships are the same row.
pub open spec fn same_friendship(a: Friendship, b: Friendship) -> bool {
    &&& a.id@ == b.id@
    &&& a.address_1@ == b.address_1@
    &&& a.address_2@ == b.address_2@
    &&& a.is_active == b.is_active
    &&& a.synapse_room_id@ == b.synapse_room_id@
}

/// The same optional friendship.
pub open spec fn same_opt_friendship(a: Option<Friendship>, b: Option<Friendship>) -> bool {
    match (a, b) {
        (None, None) => true,
        (Some(x), Some(y)) => same_friendship(x, y),
        _ => false,
    }
}

/// The decision taken once the friendship and its last history entry are known: the
/// event is refused (`InvalidEvent`), or, when it leaves the status as it was, the flow
/// stops with the room id as event id; otherwise a transaction is started to record it.
pub open spec fn decided(
    req: RoomEventRequest,
    second_user: Seq<char>,
    friendship: Option<Friendship>,
    last: Option<FriendshipHistory>,
    next: RoomEventStage,
    action: RoomEventAction,
) -> bool {
    let new_status = new_status_for(req.acting_user@, last, req.room_event);
    if new_status is None {
        &&& next is Finished
        &&& action matches RoomEventAction::Finish(Err(e)) && e == SynapseError::InvalidEvent
    } else if new_status == Some(status_of_history(last)) {
        &&& next is Finished
        &&& action matches RoomEventAction::Finish(Ok(resp)) && resp.event_id@ == req.room_id@
    } else {
        &&& next matches RoomEventStage::StartingTransaction { second_user: s, existing: f, new_status: n }
            && s@ == second_user && same_opt_friendship(f, friendship) && Some(n@) == new_status
        &&& action is StartTransaction
    }
}

/// How the friendship row is written for the new status: an existing friendship is
/// updated (active exactly when the users become friends), a missing one is created,
/// inactive, with its addresses ordered and the room id.
pub open spec fn friendship_write_for(
    req: RoomEventRequest,
    second_user: Seq<char>,
    friendship: Option<Friendship>,
    new_status: StatusView,
    w: FriendshipWrite,
) -> bool {
    match friendship {
        Some(f) => w matches FriendshipWrite::Update { friendship_id, is_active } && friendship_id@
            == f.id@ && is_active == (new_status == StatusView::Friends),
        None => w matches FriendshipWrite::Create {
            address_1,
            address_2,
            is_active,
            synapse_room_id,
        } && (address_1@, address_2@) == ordered_pair(req.acting_user@, second_user) && !is_active
            && synapse_room_id@ == req.room_id@,
    }
}

/// The history entry recorded for the event, on the friendship `friendship_id`.
pub open spec fn history_entry_for(
    req: RoomEventRequest,
    friendship_id: Seq<char>,
    h: HistoryEntry,
) -> bool {
    &&& h.friendship_id@ == friendship_id
    &&& h.event == req.room_event
    &&& h.acting_user@ == req.acting_user@
    &&& opt_view(h.metadata.message) == request_message(req)
    &&& opt_view(h.metadata.synapse_room_id) == Some(req.room_id@)
    &&& h.metadata.migrated_from_synapse is None
}

/// What follows the recording of the history: posting the message of a request when it
/// has one, else storing the event in the room.
pub open spec fn after_history(req: RoomEventRequest, next: RoomEventStage, action: RoomEventAction) -> bool {
    match message_for(req.room_event, request_message(req)) {
        Some(m) => {
            &&& next matches RoomEventStage::SendingMessage { body, attempts } && body@ == m
                && attempts == 1
            &&& action matches RoomEventAction::SendMessage { body } && body@ == m
        },
        None => {
            &&& next is StoringRoomEvent
            &&& action is StoreRoomEvent
        },
    }
}

/// One step of the flow: from `stage`, after `outcome`, the flow moves to `next` and
/// asks for `action`. An outcome that does not answer the pending request stops the
/// flow with an unknown error.
pub open spec fn room_event_step(
    req: RoomEventRequest,
    stage: RoomEventStage,
    outcome: RoomEventOutcome,
    next: RoomEventStage,
    action: RoomEventAction,
) -> bool {
    match (stage, outcome) {
        (RoomEventStage::FetchingMembers, RoomEventOutcome::Members(Err(e))) => {
            &&& next is Finished
            &&& action matches RoomEventAction::Finish(Err(err)) && err == SynapseError::CommonError(e)
        },
        (RoomEventStage::FetchingMembers, RoomEventOutcome::Members(Ok(resp))) => if resp.chunk@.len()
            != 2 {
            &&& next is Finished
            &&& action matches RoomEventAction::Finish(Err(err)) && err == SynapseError::FriendshipNotFound
        } else {
            let second = other_member(
                req.acting_user@,
                member_address(resp.chunk@[0]),
                member_address(resp.chunk@[1]),
            );
            &&& next matches RoomEventStage::FetchingFriendship { second_user } && second_user@ == second
            &&& action matches RoomEventAction::FetchFriendship { address_0, address_1 } && address_0@
                == req.acting_user@ && address_1@ == second
        },
        (RoomEventStage::FetchingFriendship { second_user }, RoomEventOutcome::Friendship(found)) => match found {
            Err(_) => next is Finished && finishes_unknown(action),
            Ok(None) => decided(req, second_user@, None, None, next, action),
            Ok(Some(f)) => {
                &&& next matches RoomEventStage::FetchingHistory { second_user: s, friendship } && s@
                    == second_user@ && same_friendship(friendship, f)
                &&& action matches RoomEventAction::FetchLastHistory { friendship_id } && friendship_id@
                    == f.id@
            },
        },
        (
            RoomEventStage::FetchingHistory { second_user, friendship },
            RoomEventOutcome::LastHistory(found),
        ) => match found {
            Err(_) => next is Finished && finishes_unknown(action),
            Ok(last) => decided(req, second_user@, Some(friendship), last, next, action),
        },
        (
            RoomEventStage::StartingTransaction { second_user, existing, new_status },
            RoomEventOutcome::TransactionStarted(started),
        ) => if !started {
            next is Finished && finishes_unknown(action)
        } else {
            &&& next is WritingFriendship
            &&& action matches RoomEventAction::WriteFriendship(w) && friendship_write_for(
                req,
                second_user@,
                existing,
                new_status@,
                w,
            )
        },
        (RoomEventStage::WritingFriendship, RoomEventOutcome::FriendshipWritten(written)) => match written {
            Err(_) => next is Finished && rolls_back_unknown(action),
            Ok(id) => {
                &&& next is WritingHistory
                &&& action matches RoomEventAction::WriteHistory(h) && history_entry_for(req, id@, h)
            },
        },
        (RoomEventStage::WritingHistory, RoomEventOutcome::HistoryWritten(ok)) => if !ok {
            next is Finished && rolls_back_unknown(action)
        } else {
            after_history(req, next, action)
        },
        (RoomEventStage::SendingMessage { body, attempts }, RoomEventOutcome::MessageSent(sent)) => match sent {
            Ok(()) => next is StoringRoomEvent && action is StoreRoomEvent,
            Err(e) => if attempts >= MESSAGE_ATTEMPTS {
                &&& next is Finished
                &&& action matches RoomEventAction::Finish(Err(err)) && err == SynapseError::CommonError(e)
            } else {
                &&& next matches RoomEventStage::SendingMessage { body: b, attempts: n } && b@ == body@
                    && n == attempts + 1
                &&& action matches RoomEventAction::SendMessage { body: b } && b@ == body@
            },
        },
        (RoomEventStage::StoringRoomEvent, RoomEventOutcome::RoomEventStored(stored)) => match stored {
            Err(e) => {
                &&& next is Finished
                &&& action matches RoomEventAction::Finish(Err(err)) && err == SynapseError::CommonError(e)
            },
            Ok(resp) => {
                &&& next matches RoomEventStage::Committing { response } && response.event_id@
                    == resp.event_id@
                &&& action is Commit
            },
        },
        (RoomEventStage::Committing { response }, RoomEventOutcome::Committed(ok)) => if ok {
            &&& next is Finished
            &&& action matches RoomEventAction::Finish(Ok(resp)) && resp.event_id@ == response.event_id@
        } else {
            next is Finished && finishes_unknown(action)
        },
        _ => next is Finished && finishes_unknown(action),
    }
}

/// Bounds every stage keeps: a message is tried at most [`MESSAGE_ATTEMPTS`] times.
pub open spec fn stage_wf(stage: RoomEventStage) -> bool {
    stage matches RoomEventStage::SendingMessage { attempts, .. } ==> 1 <= attempts
        <= MESSAGE_ATTEMPTS
}


fn unknown() -> (e: SynapseError)
    ensures
        is_unknown(e),
{
    SynapseError::CommonError(CommonError::Unknown(String::new()))
}

fn message_of(req: &RoomEventRequest) -> (r: Option<&str>)
    ensures
        match r {
            Some(m) => request_message(*req) == Some(m@),
            None => request_message(*req) is None,
        },
{
    match &req.room_message_body {
        Some(m) => Some(m.as_str()),
        None => None,
    }
}

impl RoomEventFlow {
    /// The handling of `request`, starting with fetching the members of the room.
    pub fn new(request: RoomEventRequest) -> (r: (Self, RoomEventAction))
        ensures
            r.0.request == request,
            r.0.stage is FetchingMembers,
            r.1 is FetchRoomMembers,
    {
        (RoomEventFlow { request, stage: RoomEventStage::FetchingMembers }, RoomEventAction::FetchRoomMembers)
    }

    /// Moves the flow on after `outcome` and says what to do next (see
    /// [`room_event_step`]).
    pub fn step(self, outcome: RoomEventOutcome) -> (r: (Self, RoomEventAction))
        ensures
            r.0.request == self.request,
            room_event_step(self.request, self.stage, outcome, r.0.stage, r.1),
    {
        let RoomEventFlow { request, stage } = self;
        let (next, action) = match stage {
            RoomEventStage::FetchingMembers => match outcome {
                RoomEventOutcome::Members(members) => Self::on_members(&request, members),
                _ => (RoomEventStage::Finished, RoomEventAction::Finish(Err(unknown()))),
            },
            RoomEventStage::FetchingFriendship { second_user } => match outcome {
                RoomEventOutcome::Friendship(Err(())) => (
                    RoomEventStage::Finished,
                    RoomEventAction::Finish(Err(unknown())),
                ),
                RoomEventOutcome::Friendship(Ok(None)) => Self::decide(
                    &request,
                    second_user,
                    None,
                    None,
                ),
                RoomEventOutcome::Friendship(Ok(Some(f))) => {
                    let friendship_id = f.id.clone();
                    (
                        RoomEventStage::FetchingHistory { second_user, friendship: f },
                        RoomEventAction::FetchLastHistory { friendship_id },
                    )
                },
                _ => (RoomEventStage::Finished, RoomEventAction::Finish(Err(unknown()))),
            },
            RoomEventStage::FetchingHistory { second_user, friendship } => match outcome {
                RoomEventOutcome::LastHistory(Err(())) => (
                    RoomEventStage::Finished,
                    RoomEventAction::Finish(Err(unknown())),
                ),
                RoomEventOutcome::LastHistory(Ok(last)) => Self::decide(
                    &request,
                    second_user,
                    Some(friendship),
                    last,
                ),
                _ => (RoomEventStage::Finished, RoomEventAction::Finish(Err(unknown()))),
            },
            RoomEventStage::StartingTransaction { second_user, existing, new_status } => match outcome {
                RoomEventOutcome::TransactionStarted(started) => {
                    if !started {
                        (RoomEventStage::Finished, RoomEventAction::Finish(Err(unknown())))
                    } else {
                        let w = Self::friendship_write(&request, &second_user, &existing, &new_status);
                        (RoomEventStage::WritingFriendship, RoomEventAction::WriteFriendship(w))
                    }
                },
                _ => (RoomEventStage::Finished, RoomEventAction::Finish(Err(unknown()))),
            },
            RoomEventStage::WritingFriendship => match outcome {
                RoomEventOutcome::FriendshipWritten(Err(())) => (
                    RoomEventStage::Finished,
                    RoomEventAction::RollBack(unknown()),
                ),
                RoomEventOutcome::FriendshipWritten(Ok(id)) => {
                    let entry = HistoryEntry {
                        friendship_id: id,
                        event: request.room_event,
                        acting_user: request.acting_user.clone(),
                        metadata: FriendshipMetadata {
                            message: clone_opt(&request.room_message_body),
                            synapse_room_id: Some(request.room_id.clone()),
                            migrated_from_synapse: None,
                        },
                    };
                    (RoomEventStage::WritingHistory, RoomEventAction::WriteHistory(entry))
                },
                _ => (RoomEventStage::Finished, RoomEventAction::Finish(Err(unknown()))),
            },
            RoomEventStage::WritingHistory => match outcome {
                RoomEventOutcome::HistoryWritten(ok) => {
                    if !ok {
                        (RoomEventStage::Finished, RoomEventAction::RollBack(unknown()))
                    } else {
                        match message_to_send(request.room_event, message_of(&request)) {
                            Some(body) => {
                                let copy = body.clone();
                                (
                                    RoomEventStage::SendingMessage { body, attempts: 1 },
                                    RoomEventAction::SendMessage { body: copy },
                                )
                            },
                            None => (RoomEventStage::StoringRoomEvent, RoomEventAction::StoreRoomEvent),
                        }
                    }
                },
                _ => (RoomEventStage::Finished, RoomEventAction::Finish(Err(unknown()))),
            },
            RoomEventStage::SendingMessage { body, attempts } => match outcome {
                RoomEventOutcome::MessageSent(Ok(())) => (
                    RoomEventStage::StoringRoomEvent,
                    RoomEventAction::StoreRoomEvent,
                ),
                RoomEventOutcome::MessageSent(Err(e)) => {
                    if attempts >= MESSAGE_ATTEMPTS {
                        (
                            RoomEventStage::Finished,
                            RoomEventAction::Finish(Err(SynapseError::CommonError(e))),
                        )
                    } else {
                        let copy = body.clone();
                        (
                            RoomEventStage::SendingMessage { body, attempts: attempts + 1 },
                            RoomEventAction::SendMessage { body: copy },
                        )
                    }
                },
                _ => (RoomEventStage::Finished, RoomEventAction::Finish(Err(unknown()))),
            },
            RoomEventStage::StoringRoomEvent => match outcome {
                RoomEventOutcome::RoomEventStored(Err(e)) => (
                    RoomEventStage::Finished,
                    RoomEventAction::Finish(Err(SynapseError::CommonError(e))),
                ),
                RoomEventOutcome::RoomEventStored(Ok(response)) => (
                    RoomEventStage::Committing { response },
                    RoomEventAction::Commit,
                ),
                _ => (RoomEventStage::Finished, RoomEventAction::Finish(Err(unknown()))),
            },
            RoomEventStage::Committing { response } => match outcome {
                RoomEventOutcome::Committed(ok) => {
                    if ok {
                        (RoomEventStage::Finished, RoomEventAction::Finish(Ok(response)))
                    } else {
                        (RoomEventStage::Finished, RoomEventAction::Finish(Err(unknown())))
                    }
                },
                _ => (RoomEventStage::Finished, RoomEventAction::Finish(Err(unknown()))),
            },
            RoomEventStage::Finished => (
                RoomEventStage::Finished,
                RoomEventAction::Finish(Err(unknown())),
            ),
        };
        (RoomEventFlow { request, stage: next }, action)
    }

    fn on_members(request: &RoomEventRequest, members: Result<RoomMembersResponse, CommonError>) -> (r: (
        RoomEventStage,
        RoomEventAction,
    ))
        ensures
            room_event_step(
                *request,
                RoomEventStage::FetchingMembers,
                RoomEventOutcome::Members(members),
                r.0,
                r.1,
            ),
    {
        match get_room_members(members) {
            Err(e) => (RoomEventStage::Finished, RoomEventAction::Finish(Err(e))),
            Ok((address_0, address_1)) => {
                let second_user = second_user_of(request.acting_user.as_str(), address_0, address_1);
                let copy = second_user.clone();
                (
                    RoomEventStage::FetchingFriendship { second_user },
                    RoomEventAction::FetchFriendship {
                        address_0: request.acting_user.clone(),
                        address_1: copy,
                    },
                )
            },
        }
    }

    fn decide(
        request: &RoomEventRequest,
        second_user: String,
        friendship: Option<Friendship>,
        last: Option<FriendshipHistory>,
    ) -> (r: (RoomEventStage, RoomEventAction))
        ensures
            decided(*request, second_user@, friendship, last, r.0, r.1),
    {
        match process_friendship_status(request.acting_user.as_str(), &last, request.room_event) {
            Err(e) => (RoomEventStage::Finished, RoomEventAction::Finish(Err(e))),
            Ok(new_status) => {
                let current = FriendshipStatus::from_history_event(last);
                if current.same_as(&new_status) {
                    (
                        RoomEventStage::Finished,
                        RoomEventAction::Finish(
                            Ok(RoomEventResponse { event_id: request.room_id.clone() }),
                        ),
                    )
                } else {
                    (
                        RoomEventStage::StartingTransaction { second_user, existing: friendship, new_status },
                        RoomEventAction::StartTransaction,
                    )
                }
            },
        }
    }

    fn friendship_write(
        request: &RoomEventRequest,
        second_user: &String,
        friendship: &Option<Friendship>,
        new_status: &FriendshipStatus,
    ) -> (w: FriendshipWrite)
        ensures
            friendship_write_for(*request, second_user@, *friendship, new_status@, w),
    {
        match friendship {
            Some(f) => FriendshipWrite::Update {
                friendship_id: f.id.clone(),
                is_active: matches!(new_status, FriendshipStatus::Friends),
            },
            None => {
                let (address_1, address_2) = sort_addresses(
                    (request.acting_user.as_str(), second_user.as_str()),
                );
                FriendshipWrite::Create {
                    address_1: address_1.to_string(),
                    address_2: address_2.to_string(),
                    is_active: false,
                    synapse_room_id: request.room_id.clone(),
                }
            },
        }
    }
}


/// A transaction is only started, and so the friendship and its history only written,
/// for an event the rules accept and that changes the status of the friendship.
pub proof fn lemma_writes_only_accepted_events(
    req: RoomEventRequest,
    stage: RoomEventStage,
    outcome: RoomEventOutcome,
    next: RoomEventStage,
    action: RoomEventAction,
)
    requires
        room_event_step(req, stage, outcome, next, action),
        action is StartTransaction,
    ensures
        stage is FetchingFriendship || stage is FetchingHistory,
        outcome matches RoomEventOutcome::Friendship(Ok(None)) ==> new_status_for(
            req.acting_user@,
            None,
            req.room_event,
        ) is Some,
        outcome matches RoomEventOutcome::LastHistory(Ok(last)) ==> {
            &&& new_status_for(req.acting_user@, last, req.room_event) is Some
            &&& new_status_for(req.acting_user@, last, req.room_event) != Some(status_of_history(last))
        },
{
}

/// A room event is only answered with success once its transaction is committed: the
/// branch that would answer success without any change cannot be taken, since every
/// accepted event changes the status.
pub proof fn lemma_success_only_after_commit(
    req: RoomEventRequest,
    stage: RoomEventStage,
    outcome: RoomEventOutcome,
    next: RoomEventStage,
    action: RoomEventAction,
)
    requires
        room_event_step(req, stage, outcome, next, action),
        action matches RoomEventAction::Finish(Ok(_)),
    ensures
        stage is Committing,
        outcome == RoomEventOutcome::Committed(true),
{
    match (stage, outcome) {
        (RoomEventStage::FetchingFriendship { second_user }, RoomEventOutcome::Friendship(Ok(None))) => {
            lemma_accepted_event_changes_status(req.acting_user@, None, req.room_event);
        },
        (RoomEventStage::FetchingHistory { .. }, RoomEventOutcome::LastHistory(Ok(last))) => {
            if new_status_for(req.acting_user@, last, req.room_event) is Some {
                lemma_accepted_event_changes_status(req.acting_user@, last, req.room_event);
            }
        },
        _ => {},
    }
}

/// Every write happens inside the transaction: the friendship row is written only
/// once the transaction has started, the history entry only once that row was written,
/// and a roll-back is only asked for while one of them is pending.
pub proof fn lemma_writes_inside_transaction(
    req: RoomEventRequest,
    stage: RoomEventStage,
    outcome: RoomEventOutcome,
    next: RoomEventStage,
    action: RoomEventAction,
)
    requires
        room_event_step(req, stage, outcome, next, action),
    ensures
        action is WriteFriendship ==> stage is StartingTransaction && outcome
            == RoomEventOutcome::TransactionStarted(true),
        action is WriteHistory ==> stage is WritingFriendship
            && outcome matches RoomEventOutcome::FriendshipWritten(Ok(_)),
        action is RollBack ==> stage is WritingFriendship || stage is WritingHistory,
{
}

/// The transaction is only committed once the event is stored in the room.
pub proof fn lemma_commit_only_after_room_event_stored(
    req: RoomEventRequest,
    stage: RoomEventStage,
    outcome: RoomEventOutcome,
    next: RoomEventStage,
    action: RoomEventAction,
)
    requires
        room_event_step(req, stage, outcome, next, action),
        action is Commit,
    ensures
        stage is StoringRoomEvent,
        outcome matches RoomEventOutcome::RoomEventStored(Ok(_)),
{
}

/// `stages`, `outcomes` and `actions` record a handling of `req` from its start: the
/// flow starts by fetching the members of the room, and step `i` takes `stages[i]` and
/// `outcomes[i]` to `stages[i + 1]`, asking for `actions[i + 1]`.
pub open spec fn is_run(
    req: RoomEventRequest,
    stages: Seq<RoomEventStage>,
    outcomes: Seq<RoomEventOutcome>,
    actions: Seq<RoomEventAction>,
) -> bool {
    &&& stages.len() == outcomes.len() + 1
    &&& actions.len() == stages.len()
    &&& stages[0] is FetchingMembers
    &&& actions[0] is FetchRoomMembers
    &&& forall|i: int|
        #![trigger outcomes[i]]
        0 <= i < outcomes.len() ==> room_event_step(
            req,
            stages[i],
            outcomes[i],
            stages[i + 1],
            actions[i + 1],
        )
}

proof fn lemma_run_step(
    req: RoomEventRequest,
    stages: Seq<RoomEventStage>,
    outcomes: Seq<RoomEventOutcome>,
    actions: Seq<RoomEventAction>,
    i: int,
)
    requires
        is_run(req, stages, outcomes, actions),
        0 <= i < outcomes.len(),
    ensures
        room_event_step(req, stages[i], outcomes[i], stages[i + 1], actions[i + 1]),
{
    assert(outcomes[i] == outcomes[i]);
}

/// Going back along a run from a stage that posts the message of a request reaches the
/// step where the history was recorded.
proof fn lemma_message_follows_history(
    req: RoomEventRequest,
    stages: Seq<RoomEventStage>,
    outcomes: Seq<RoomEventOutcome>,
    actions: Seq<RoomEventAction>,
    k: int,
) -> (j: int)
    requires
        is_run(req, stages, outcomes, actions),
        0 <= k < stages.len(),
        stages[k] is SendingMessage,
    ensures
        0 < j < k,
        stages[j] is WritingHistory,
        outcomes[j] == RoomEventOutcome::HistoryWritten(true),
    decreases k,
{
    lemma_run_step(req, stages, outcomes, actions, k - 1);
    if stages[k - 1] is SendingMessage {
        lemma_message_follows_history(req, stages, outcomes, actions, k - 1)
    } else {
        k - 1
    }
}

/// A handling answered with success has written the friendship row and then its
/// history entry (the event of the request, by its acting user), stored the event in
/// the room and committed, in that order, each of them successfully; the reply carries
/// the id of the stored event.
pub proof fn lemma_successful_run_wrote_and_committed(
    req: RoomEventRequest,
    stages: Seq<RoomEventStage>,
    outcomes: Seq<RoomEventOutcome>,
    actions: Seq<RoomEventAction>,
)
    requires
        is_run(req, stages, outcomes, actions),
        actions.last() matches RoomEventAction::Finish(Ok(_)),
    ensures
        exists|a: int, b: int, c: int, d: int|
            #![trigger actions[a], actions[b], actions[c], actions[d]]
            {
                &&& 0 < a < b < c < d < actions.len() - 1
                &&& actions[a] is WriteFriendship
                &&& outcomes[a] matches RoomEventOutcome::FriendshipWritten(Ok(_))
                &&& actions[b] matches RoomEventAction::WriteHistory(h) && h.event == req.room_event
                    && h.acting_user@ == req.acting_user@
                &&& outcomes[b] == RoomEventOutcome::HistoryWritten(true)
                &&& actions[c] is StoreRoomEvent
                &&& actions[d] is Commit
                &&& outcomes[d] == RoomEventOutcome::Committed(true)
                &&& outcomes[c] matches RoomEventOutcome::RoomEventStored(Ok(stored))
                    && actions.last() matches RoomEventAction::Finish(Ok(resp)) && resp.event_id@
                    == stored.event_id@
            },
{
    let n = actions.len() - 1;
    let d = n - 1;
    lemma_run_step(req, stages, outcomes, actions, d);
    lemma_success_only_after_commit(req, stages[d], outcomes[d], stages[n], actions[n]);
    let c = d - 1;
    lemma_run_step(req, stages, outcomes, actions, c);
    lemma_run_step(req, stages, outcomes, actions, c - 1);
    let b = if stages[c - 1] is SendingMessage {
        lemma_message_follows_history(req, stages, outcomes, actions, c - 1)
    } else {
        c - 1
    };
    lemma_run_step(req, stages, outcomes, actions, b);
    lemma_run_step(req, stages, outcomes, actions, b - 1);
    let a = b - 1;
    lemma_run_step(req, stages, outcomes, actions, a - 1);
    assert(actions[a] is WriteFriendship);
    assert(actions[b] is WriteHistory);
    assert(actions[c] is StoreRoomEvent);
    assert(actions[d] is Commit);
}

/// The stage only reads: the members, the friendship or its history.
pub open spec fn is_reading(stage: RoomEventStage) -> bool {
    stage is FetchingMembers || stage is FetchingFriendship || stage is FetchingHistory
}

/// The action only reads: the members, the friendship or its history.
pub open spec fn is_read(action: RoomEventAction) -> bool {
    action is FetchRoomMembers || action is FetchFriendship || action is FetchLastHistory
}

/// Up to a reading stage, a run has only read.
proof fn lemma_reading_prefix(
    req: RoomEventRequest,
    stages: Seq<RoomEventStage>,
    outcomes: Seq<RoomEventOutcome>,
    actions: Seq<RoomEventAction>,
    k: int,
)
    requires
        is_run(req, stages, outcomes, actions),
        0 <= k < stages.len(),
        is_reading(stages[k]),
    ensures
        forall|j: int| 0 <= j <= k ==> is_reading(#[trigger] stages[j]) && is_read(actions[j]),
    decreases k,
{
    if k > 0 {
        lemma_run_step(req, stages, outcomes, actions, k - 1);
        lemma_reading_prefix(req, stages, outcomes, actions, k - 1);
    }
}

/// A refused event is answered `InvalidEvent` before anything is written: every earlier
/// action of the run only read the room members, the friendship or its history.
pub proof fn lemma_refused_event_writes_nothing(
    req: RoomEventRequest,
    stages: Seq<RoomEventStage>,
    outcomes: Seq<RoomEventOutcome>,
    actions: Seq<RoomEventAction>,
)
    requires
        is_run(req, stages, outcomes, actions),
        actions.last() matches RoomEventAction::Finish(Err(SynapseError::InvalidEvent)),
    ensures
        forall|j: int| 0 <= j < actions.len() - 1 ==> is_read(#[trigger] actions[j]),
{
    let n = actions.len() - 1;
    lemma_run_step(req, stages, outcomes, actions, n - 1);
    lemma_reading_prefix(req, stages, outcomes, actions, n - 1);
    assert forall|j: int| 0 <= j < actions.len() - 1 implies is_read(#[trigger] actions[j]) by {
        assert(is_reading(stages[j]));
    }
}

/// Updating an existing friendship marks it active exactly when the new status is that
/// the two users are friends; a newly created friendship is never active.
pub proof fn lemma_friendship_active_only_when_friends(
    req: RoomEventRequest,
    stage: RoomEventStage,
    outcome: RoomEventOutcome,
    next: RoomEventStage,
    action: RoomEventAction,
)
    requires
        room_event_step(req, stage, outcome, next, action),
    ensures
        action matches RoomEventAction::WriteFriendship(FriendshipWrite::Update { is_active, .. })
            ==> stage matches RoomEventStage::StartingTransaction { new_status, .. } && (is_active
            <==> new_status@ == StatusView::Friends),
        action matches RoomEventAction::WriteFriendship(FriendshipWrite::Create { is_active, .. })
            ==> !is_active,
{
}

/// In a handling of `req`, a friendship row is written active only for an accepted
/// request: an update marks the friendship active exactly when the event is an accept,
/// and a created friendship is inactive, so a request never makes two users friends.
pub proof fn lemma_active_only_after_accept(
    req: RoomEventRequest,
    stages: Seq<RoomEventStage>,
    outcomes: Seq<RoomEventOutcome>,
    actions: Seq<RoomEventAction>,
    k: int,
)
    requires
        is_run(req, stages, outcomes, actions),
        0 <= k < actions.len(),
        actions[k] is WriteFriendship,
    ensures
        actions[k] matches RoomEventAction::WriteFriendship(w) && match w {
            FriendshipWrite::Update { is_active, .. } => is_active <==> req.room_event
                == FriendshipEvent::ACCEPT,
            FriendshipWrite::Create { is_active, .. } => !is_active,
        },
{
    lemma_run_step(req, stages, outcomes, actions, k - 1);
    lemma_run_step(req, stages, outcomes, actions, k - 2);
}

/// Every step keeps the bound on message attempts, so a request's message is posted at
/// most [`MESSAGE_ATTEMPTS`] times.
pub proof fn lemma_message_attempts_bounded(
    req: RoomEventRequest,
    stage: RoomEventStage,
    outcome: RoomEventOutcome,
    next: RoomEventStage,
    action: RoomEventAction,
)
    requires
        stage_wf(stage),
        room_event_step(req, stage, outcome, next, action),
    ensures
        stage_wf(next),
        action is SendMessage ==> (next matches RoomEventStage::SendingMessage { attempts, .. }
            && attempts <= MESSAGE_ATTEMPTS),
{
}

} // verus!
