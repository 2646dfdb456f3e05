//! Errors reported by the service, with their names, messages and HTTP status codes.

use vstd::prelude::*;
use vstd::string::*;

verus! {

/// The body sent back to a client when a request fails.
pub struct ErrorResponse {
    pub code: u16,
    pub error: String,
    pub message: String,
}

/// Errors shared by every part of the service. Two errors are equal when they are the
/// same variant, whatever their texts.
#[derive(Debug, Clone)]
pub enum CommonError {
    NotFound(String),
    BadRequest(String),
    UserNotFound(String),
    Forbidden(String),
    Unknown(String),
    Unauthorized(String),
    TooManyRequests(String),
}

/// Renders a string the way `{:?}` does: quoted, with special characters escaped.
pub uninterp spec fn debug_str(s: Seq<char>) -> Seq<char>;

/// Trusted: `format!("{:?}", s)`, std's `Debug` rendering of a string slice. Claimed:
/// the result depends on the characters of `s` alone, under the name [`debug_str`].
#[verifier::external_body]
fn debug_quoted(s: &str) -> (r: String)
    ensures
        r@ == debug_str(s@),
{
    format!("{:?}", s)
}

/// Index of the variant, so that variants can be compared without their texts.
pub open spec fn common_error_kind(e: CommonError) -> int {
    match e {
        CommonError::NotFound(_) => 0,
        CommonError::BadRequest(_) => 1,
        CommonError::UserNotFound(_) => 2,
        CommonError::Forbidden(_) => 3,
        CommonError::Unknown(_) => 4,
        CommonError::Unauthorized(_) => 5,
        CommonError::TooManyRequests(_) => 6,
    }
}

/// The text carried by an error.
pub open spec fn common_error_text(e: CommonError) -> Seq<char> {
    match e {
        CommonError::NotFound(s) => s@,
        CommonError::BadRequest(s) => s@,
        CommonError::UserNotFound(s) => s@,
        CommonError::Forbidden(s) => s@,
        CommonError::Unknown(s) => s@,
        CommonError::Unauthorized(s) => s@,
        CommonError::TooManyRequests(s) => s@,
    }
}

/// The name of the variant.
pub open spec fn common_error_variant(e: CommonError) -> Seq<char> {
    match e {
        CommonError::NotFound(_) => "NotFound"@,
        CommonError::BadRequest(_) => "BadRequest"@,
        CommonError::UserNotFound(_) => "UserNotFound"@,
        CommonError::Forbidden(_) => "Forbidden"@,
        CommonError::Unknown(_) => "Unknown"@,
        CommonError::Unauthorized(_) => "Unauthorized"@,
        CommonError::TooManyRequests(_) => "TooManyRequests"@,
    }
}

/// The human-readable message of an error.
pub open spec fn common_error_message(e: CommonError) -> Seq<char> {
    match e {
        CommonError::NotFound(_) => "Not found"@,
        CommonError::BadRequest(s) => "Bad request "@ + s@,
        CommonError::UserNotFound(_) => "Requested user was not found"@,
        CommonError::Forbidden(s) => s@,
        CommonError::Unknown(_) => "Unknown Internal Error"@,
        CommonError::Unauthorized(_) => "Unauthorized"@,
        CommonError::TooManyRequests(_) => "Too many requests"@,
    }
}

/// The HTTP status code an error is answered with.
pub open spec fn common_error_status(e: CommonError) -> u16 {
    match e {
        CommonError::NotFound(_) => 404,
        CommonError::BadRequest(_) => 400,
        CommonError::UserNotFound(_) => 404,
        CommonError::Forbidden(_) => 403,
        CommonError::Unknown(_) => 500,
        CommonError::Unauthorized(_) => 401,
        CommonError::TooManyRequests(_) => 429,
    }
}

impl PartialEq for CommonError {
    fn eq(&self, other: &Self) -> (r: bool) {
        self.kind() == other.kind()
    }
}

impl vstd::std_specs::cmp::PartialEqSpecImpl for CommonError {
    open spec fn obeys_eq_spec() -> bool {
        true
    }

    open spec fn eq_spec(&self, other: &CommonError) -> bool {
        common_error_kind(*self) == common_error_kind(*other)
    }
}

impl CommonError {
    fn kind(&self) -> (r: u8)
        ensures
            r as int == common_error_kind(*self),
    {
        match self {
            CommonError::NotFound(_) => 0,
            CommonError::BadRequest(_) => 1,
            CommonError::UserNotFound(_) => 2,
            CommonError::Forbidden(_) => 3,
            CommonError::Unknown(_) => 4,
            CommonError::Unauthorized(_) => 5,
            CommonError::TooManyRequests(_) => 6,
        }
    }

    fn text(&self) -> (r: &String)
        ensures
            r@ == common_error_text(*self),
    {
        match self {
            CommonError::NotFound(s) => s,
            CommonError::BadRequest(s) => s,
            CommonError::UserNotFound(s) => s,
            CommonError::Forbidden(s) => s,
            CommonError::Unknown(s) => s,
            CommonError::Unauthorized(s) => s,
            CommonError::TooManyRequests(s) => s,
        }
    }

    fn variant(&self) -> (r: &'static str)
        ensures
            r@ == common_error_variant(*self),
    {
        match self {
            CommonError::NotFound(_) => "NotFound",
            CommonError::BadRequest(_) => "BadRequest",
            CommonError::UserNotFound(_) => "UserNotFound",
            CommonError::Forbidden(_) => "Forbidden",
            CommonError::Unknown(_) => "Unknown",
            CommonError::Unauthorized(_) => "Unauthorized",
            CommonError::TooManyRequests(_) => "TooManyRequests",
        }
    }

    /// The error as `{:?}` renders it: the variant name followed by its quoted text in
    /// parentheses, e.g. `Unknown("")`.
    pub fn name(&self) -> (r: String)
        ensures
            r@ == common_error_variant(*self) + "("@ + debug_str(common_error_text(*self)) + ")"@,
    {
        let quoted = debug_quoted(self.text().as_str());
        let r = String::from_str(self.variant()).concat("(").concat(quoted.as_str()).concat(")");
        r
    }

    /// The human-readable message of the error.
    pub fn message(&self) -> (r: String)
        ensures
            r@ == common_error_message(*self),
    {
        match self {
            CommonError::NotFound(_) => String::from_str("Not found"),
            CommonError::BadRequest(s) => String::from_str("Bad request ").concat(s.as_str()),
            CommonError::UserNotFound(_) => String::from_str("Requested user was not found"),
            CommonError::Forbidden(s) => s.clone(),
            CommonError::Unknown(_) => String::from_str("Unknown Internal Error"),
            CommonError::Unauthorized(_) => String::from_str("Unauthorized"),
            CommonError::TooManyRequests(_) => String::from_str("Too many requests"),
        }
    }

    /// The HTTP status code the error is answered with.
    pub fn status_code(&self) -> (r: u16)
        ensures
            r == common_error_status(*self),
            *self is NotFound ==> r == 404,
            *self is BadRequest ==> r == 400,
            *self is UserNotFound ==> r == 404,
            *self is Forbidden ==> r == 403,
            *self is Unknown ==> r == 500,
            *self is Unauthorized ==> r == 401,
            *self is TooManyRequests ==> r == 429,
    {
        match self {
            CommonError::NotFound(_) => 404,
            CommonError::BadRequest(_) => 400,
            CommonError::UserNotFound(_) => 404,
            CommonError::Forbidden(_) => 403,
            CommonError::Unknown(_) => 500,
            CommonError::Unauthorized(_) => 401,
            CommonError::TooManyRequests(_) => 429,
        }
    }

    /// The body the error is answered with.
    pub fn error_response(&self) -> (r: ErrorResponse)
        ensures
            r.code == common_error_status(*self),
            r.message@ == common_error_message(*self),
            r.error@ == common_error_variant(*self) + "("@ + debug_str(common_error_text(*self))
                + ")"@,
    {
        ErrorResponse { code: self.status_code(), error: self.name(), message: self.message() }
    }
}

/// Errors of the friendship room-event flow.
#[derive(Debug, PartialEq)]
pub enum SynapseError {
    CommonError(CommonError),
    /// The room does not hold exactly the two users of a friendship.
    FriendshipNotFound,
    /// The event is not valid for the current state of the friendship.
    InvalidEvent,
}

/// The name of a [`SynapseError`].
pub open spec fn synapse_error_name(e: SynapseError) -> Seq<char> {
    match e {
        SynapseError::FriendshipNotFound => "FriendshipNotFound"@,
        SynapseError::InvalidEvent => "InvalidEvent"@,
        SynapseError::CommonError(base) => common_error_variant(base) + "("@ + debug_str(
            common_error_text(base),
        ) + ")"@,
    }
}

/// The message of a [`SynapseError`].
pub open spec fn synapse_error_message(e: SynapseError) -> Seq<char> {
    match e {
        SynapseError::FriendshipNotFound => "Requested friendship was not found"@,
        SynapseError::InvalidEvent => "The sent friendship interaction is not valid at this moment"@,
        SynapseError::CommonError(_) => Seq::empty(),
    }
}

/// The HTTP status code of a [`SynapseError`].
pub open spec fn synapse_error_status(e: SynapseError) -> u16 {
    match e {
        SynapseError::FriendshipNotFound => 404,
        SynapseError::InvalidEvent => 400,
        SynapseError::CommonError(base) => common_error_status(base),
    }
}

impl SynapseError {
    /// The name of the error; for a wrapped [`CommonError`], the name of that error.
    pub fn name(&self) -> (r: String)
        ensures
            r@ == synapse_error_name(*self),
    {
        match self {
            SynapseError::FriendshipNotFound => String::from_str("FriendshipNotFound"),
            SynapseError::InvalidEvent => String::from_str("InvalidEvent"),
            SynapseError::CommonError(base) => base.name(),
        }
    }

    /// The human-readable message of the error (empty for a wrapped [`CommonError`]).
    pub fn message(&self) -> (r: String)
        ensures
            r@ == synapse_error_message(*self),
    {
        match self {
            SynapseError::FriendshipNotFound => String::from_str(
                "Requested friendship was not found",
            ),
            SynapseError::InvalidEvent => String::from_str(
                "The sent friendship interaction is not valid at this moment",
            ),
            SynapseError::CommonError(_) => String::new(),
        }
    }

    /// The HTTP status code the error is answered with.
    pub fn status_code(&self) -> (r: u16)
        ensures
            r == synapse_error_status(*self),
    {
        match self {
            SynapseError::FriendshipNotFound => 404,
            SynapseError::InvalidEvent => 400,
            SynapseError::CommonError(base) => base.status_code(),
        }
    }

    /// The body the error is answered with.
    pub fn error_response(&self) -> (r: ErrorResponse)
        ensures
            r.code == synapse_error_status(*self),
            r.message@ == synapse_error_message(*self),
            r.error@ == synapse_error_name(*self),
    {
        ErrorResponse { code: self.status_code(), error: self.name(), message: self.message() }
    }
}


/// The kinds of I/O failure the service tells apart.
#[derive(Debug, Clone, Copy, PartialEq, Eq, Structural)]
pub enum IoErrorKind {
    NotFound,
    PermissionDenied,
    Other,
}

/// The error reported for an I/O failure: a missing entity is a user not found, a
/// refused access is forbidden, anything else is unknown; all with an empty text.
pub fn map_io_error(kind: IoErrorKind) -> (r: CommonError)
    ensures
        match kind {
            IoErrorKind::NotFound => r matches CommonError::UserNotFound(m) && m@ == Seq::<char>::empty(),
            IoErrorKind::PermissionDenied => r matches CommonError::Forbidden(m) && m@ == Seq::<char>::empty(),
            IoErrorKind::Other => r matches CommonError::Unknown(m) && m@ == Seq::<char>::empty(),
        },
{
    match kind {
        IoErrorKind::NotFound => CommonError::UserNotFound(String::new()),
        IoErrorKind::PermissionDenied => CommonError::Forbidden(String::new()),
        IoErrorKind::Other => CommonError::Unknown(String::new()),
    }
}

/// Each kind of error is answered with its own HTTP status: a refused access is 403
/// (not 401, which asks the client to authenticate again), missing credentials 401,
/// missing things 404, a bad request 400, too many requests 429 and anything else 500;
/// the room-event errors add 404 for a room that is no friendship and 400 for an invalid
/// event.
pub proof fn lemma_error_status_codes(e: CommonError)
    ensures
        e is NotFound ==> common_error_status(e) == 404,
        e is BadRequest ==> common_error_status(e) == 400,
        e is UserNotFound ==> common_error_status(e) == 404,
        e is Forbidden ==> common_error_status(e) == 403,
        e is Unknown ==> common_error_status(e) == 500,
        e is Unauthorized ==> common_error_status(e) == 401,
        e is TooManyRequests ==> common_error_status(e) == 429,
        synapse_error_status(SynapseError::CommonError(e)) == common_error_status(e),
        synapse_error_status(SynapseError::FriendshipNotFound) == 404,
        synapse_error_status(SynapseError::InvalidEvent) == 400,
{
}

/// A refused access and missing credentials are told apart by their status.
pub proof fn lemma_forbidden_is_not_unauthorized(a: CommonError, b: CommonError)
    requires
        a is Forbidden,
        b is Unauthorized,
    ensures
        common_error_status(a) != common_error_status(b),
{
}

} // verus!
