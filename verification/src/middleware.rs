//! Request guards: the authentication check of protected routes and the bearer token
//! that protects the metrics endpoint.

use std::rc::Rc;

use vstd::prelude::*;
use vstd::string::*;

use crate::error::CommonError;
use crate::text::{before_first, chars_eq_str, chars_of, collect_without, eq_ignore_ascii_case, eq_ignore_case, first_index_of, first_pos};

verus! {

/// The access token of an authenticated request.
#[derive(Debug)]
pub struct Token(pub String);

/// The header holding the bearer token.
pub const AUTH_TOKEN_HEADER: &'static str = "authorization";

/// The second space-separated word of a header value (`Bearer <token>`), empty when
/// there is none.
pub open spec fn second_word(header: Seq<char>) -> Seq<char> {
    let space = first_pos(header, ' ');
    if space == header.len() {
        Seq::empty()
    } else {
        before_first(header.skip(space + 1), ' ')
    }
}

/// The token of an `authorization` header value (see [`second_word`]).
pub fn bearer_token(header: &str) -> (r: String)
    ensures
        r@ == second_word(header@),
{
    let v = chars_of(header);
    let space = first_index_of(&v, ' ');
    if space == v.len() {
        return String::new();
    }
    let mut rest: Vec<char> = Vec::new();
    let mut i: usize = space + 1;
    while i < v.len()
        invariant
            space < v@.len(),
            space + 1 <= i <= v@.len(),
            rest@ == v@.subrange(space + 1, i as int),
        decreases v.len() - i,
    {
        rest.push(v[i]);
        i = i + 1;
    }
    assert(rest@ =~= header@.skip(space + 1));
    let end = first_index_of(&rest, ' ');
    let r = collect_without(&rest, end, ' ');
    proof {
        assert(rest@.take(end as int).filter(crate::text::differs_from(' ')) =~= rest@.take(end as int))
            by {
            crate::text::lemma_first_pos_bounds(rest@, ' ');
            lemma_filter_keeps_all(rest@.take(end as int), ' ');
        }
    }
    r
}

/// The token is taken from the header verbatim: it is the text that starts right after
/// the first space and runs up to the next space or the end, with no character changed.
pub proof fn lemma_token_is_verbatim(header: Seq<char>)
    ensures
        ({
            let start = first_pos(header, ' ') + 1;
            let token = second_word(header);
            &&& !token.contains(' ')
            &&& token.len() > 0 ==> start + token.len() <= header.len() && header.subrange(
                start,
                start + token.len(),
            ) == token
        }),
{
    crate::text::lemma_first_pos_bounds(header, ' ');
    let space = first_pos(header, ' ');
    if space < header.len() {
        let rest = header.skip(space + 1);
        crate::text::lemma_first_pos_bounds(rest, ' ');
        let end = first_pos(rest, ' ');
        assert(rest.take(end) =~= header.subrange(space + 1, space + 1 + end));
        assert forall|j: int| 0 <= j < rest.take(end).len() implies rest.take(end)[j] != ' ' by {}
    }
}

/// A header made of a first word, a space and a token (each without spaces),
/// optionally followed by a space and more text, carries exactly that token.
pub proof fn lemma_token_of_bearer_header(scheme: Seq<char>, token: Seq<char>, tail: Seq<char>)
    requires
        !scheme.contains(' '),
        !token.contains(' '),
        tail.len() == 0 || tail[0] == ' ',
    ensures
        second_word(scheme + seq![' '] + token + tail) == token,
{
    let header = scheme + seq![' '] + token + tail;
    crate::text::lemma_first_pos(header, ' ', scheme.len() as int);
    let rest = header.skip(scheme.len() + 1int);
    assert(rest =~= token + tail);
    crate::text::lemma_first_pos(rest, ' ', token.len() as int);
    assert(rest.take(token.len() as int) =~= token);
}

/// A request to a protected route carrying `Bearer <token>` is authenticated with that
/// very token, whatever the case of its letters.
pub proof fn lemma_protected_route_authenticates_token(
    routes: Seq<String>,
    route: Seq<char>,
    path: Seq<char>,
    scheme: Seq<char>,
    token: Seq<char>,
    r: AuthCheck,
)
    requires
        route_listed(routes, route),
        !eq_ignore_case(path, "/metrics"@),
        !scheme.contains(' '),
        !token.contains(' '),
        token.len() > 0,
        auth_check(routes, Some(route), path, Some(scheme + seq![' '] + token), r),
    ensures
        r matches AuthCheck::Authenticate(t) && t@ == token,
{
    lemma_token_of_bearer_header(scheme, token, Seq::empty());
    assert(scheme + seq![' '] + token + Seq::<char>::empty() =~= scheme + seq![' '] + token);
}

/// The metrics endpoint lets a request through when it carries the configured token
/// exactly, and refuses any other token.
pub proof fn lemma_metrics_token_must_match(
    configured: Seq<char>,
    scheme: Seq<char>,
    token: Seq<char>,
    r: MetricsCheck,
)
    requires
        configured.len() > 0,
        !scheme.contains(' '),
        !token.contains(' '),
        metrics_check(configured, "/metrics"@, Some(scheme + seq![' '] + token), r),
    ensures
        (r is PassThrough) <==> token == configured,
        !(r is PassThrough) ==> r is Unauthorized,
{
    lemma_token_of_bearer_header(scheme, token, Seq::empty());
    assert(scheme + seq![' '] + token + Seq::<char>::empty() =~= scheme + seq![' '] + token);
}

/// Removing a character that does not occur leaves a sequence as it is.
pub proof fn lemma_filter_keeps_all(s: Seq<char>, c: char)
    requires
        forall|j: int| 0 <= j < s.len() ==> s[j] != c,
    ensures
        s.filter(crate::text::differs_from(c)) == s,
    decreases s.len(),
{
    reveal(Seq::filter);
    if s.len() > 0 {
        lemma_filter_keeps_all(s.drop_last(), c);
        assert(s.drop_last().push(s.last()) =~= s);
    }
}

/// Whether the route pattern is one of `routes`.
pub open spec fn route_listed(routes: Seq<String>, path: Seq<char>) -> bool {
    exists|i: int| 0 <= i < routes.len() && #[trigger] routes[i]@ == path
}

/// Whether the route pattern `path` is one of the protected routes.
pub fn is_auth_route(routes: &[String], path: &str) -> (r: bool)
    ensures
        r == route_listed(routes@, path@),
{
    let mut i: usize = 0;
    while i < routes.len()
        invariant
            i <= routes@.len(),
            forall|j: int| 0 <= j < i ==> #[trigger] routes@[j]@ != path@,
        decreases routes.len() - i,
    {
        let v = chars_of(routes[i].as_str());
        if chars_eq_str(&v, path) {
            return true;
        }
        i = i + 1;
    }
    false
}

/// What the authentication guard does with a request.
pub enum AuthCheck {
    /// Answer with this error.
    Reject(CommonError),
    /// Let the request through untouched.
    PassThrough,
    /// Resolve the user of this token, then let the request through with it.
    Authenticate(String),
}

/// The authentication guard of the protected routes.
pub struct CheckAuthToken {
    pub auth_routes: Vec<String>,
}

/// The authentication guard wrapped around a service.
pub struct CheckAuthTokenMiddleware<S> {
    pub service: Rc<S>,
    pub auth_routes: Vec<String>,
}

/// What the guard does with a request to `path`, matched to the route pattern
/// `matched_route` (`None` when no route matches), with the given `authorization`
/// header (`None` when absent or not readable as text). Unknown routes are not found,
/// except the metrics endpoint (any ASCII case); the metrics endpoint and the
/// unprotected routes pass; a protected route needs a bearer token, which is then
/// resolved to a user.
pub open spec fn auth_check(
    routes: Seq<String>,
    matched_route: Option<Seq<char>>,
    path: Seq<char>,
    authorization: Option<Seq<char>>,
    r: AuthCheck,
) -> bool {
    let is_metrics = eq_ignore_case(path, "/metrics"@);
    if matched_route is None && !is_metrics {
        r matches AuthCheck::Reject(CommonError::NotFound(m)) && m@ == Seq::<char>::empty()
    } else if is_metrics || !route_listed(routes, matched_route->0) {
        r is PassThrough
    } else {
        let token = match authorization {
            Some(h) => second_word(h),
            None => Seq::empty(),
        };
        if token.len() == 0 {
            r matches AuthCheck::Reject(CommonError::BadRequest(m)) && m@
                == "Missing authorization token"@
        } else {
            r matches AuthCheck::Authenticate(t) && t@ == token
        }
    }
}

impl CheckAuthToken {
    /// The guard of the given route patterns.
    pub fn new(auth_routes: Vec<String>) -> (r: Self)
        ensures
            r.auth_routes == auth_routes,
    {
        CheckAuthToken { auth_routes }
    }

    /// What to do with a request (see [`auth_check`]).
    pub fn check(&self, matched_route: Option<&str>, path: &str, authorization: Option<&str>) -> (r:
        AuthCheck)
        ensures
            auth_check(
                self.auth_routes@,
                match matched_route {
                    Some(m) => Some(m@),
                    None => None,
                },
                path@,
                match authorization {
                    Some(h) => Some(h@),
                    None => None,
                },
                r,
            ),
    {
        let is_metrics_call = eq_ignore_ascii_case(path, "/metrics");
        let route = match matched_route {
            None => {
                if !is_metrics_call {
                    return AuthCheck::Reject(CommonError::NotFound(String::new()));
                }
                return AuthCheck::PassThrough;
            },
            Some(route) => route,
        };
        if is_metrics_call || !is_auth_route(self.auth_routes.as_slice(), route) {
            return AuthCheck::PassThrough;
        }
        let token = match authorization {
            Some(header) => bearer_token(header),
            None => String::new(),
        };
        if token.as_str().is_empty() {
            return AuthCheck::Reject(
                CommonError::BadRequest(String::from_str("Missing authorization token")),
            );
        }
        AuthCheck::Authenticate(token)
    }
}

/// What the metrics guard does with a request.
pub enum MetricsCheck {
    /// Let the request through.
    PassThrough,
    /// No metrics token is configured: answer with an internal server error.
    MissingConfiguration,
    /// The bearer token is missing or wrong: answer unauthorized.
    Unauthorized,
}

/// The guard of the metrics endpoint.
pub struct CheckMetricsToken {
    pub bearer_token: String,
}

/// The metrics guard wrapped around a service.
pub struct CheckMetricsTokenMiddleware<S> {
    pub service: S,
    pub bearer_token: String,
}

/// What the metrics guard does with a request to `path`: only `/metrics` is guarded;
/// it needs a configured token and a bearer token equal to it.
pub open spec fn metrics_check(
    bearer_token: Seq<char>,
    path: Seq<char>,
    authorization: Option<Seq<char>>,
    r: MetricsCheck,
) -> bool {
    if path != "/metrics"@ {
        r is PassThrough
    } else if bearer_token.len() == 0 {
        r is MissingConfiguration
    } else {
        let token = match authorization {
            Some(h) => second_word(h),
            None => Seq::empty(),
        };
        if token.len() == 0 || token != bearer_token {
            r is Unauthorized
        } else {
            r is PassThrough
        }
    }
}

impl CheckMetricsToken {
    /// The guard accepting the given bearer token.
    pub fn new(token: String) -> (r: Self)
        ensures
            r.bearer_token == token,
    {
        CheckMetricsToken { bearer_token: token }
    }

    /// What to do with a request (see [`metrics_check`]).
    pub fn check(&self, path: &str, authorization: Option<&str>) -> (r: MetricsCheck)
        ensures
            metrics_check(
                self.bearer_token@,
                path@,
                match authorization {
                    Some(h) => Some(h@),
                    None => None,
                },
                r,
            ),
    {
        let p = chars_of(path);
        if !chars_eq_str(&p, "/metrics") {
            return MetricsCheck::PassThrough;
        }
        if self.bearer_token.as_str().is_empty() {
            return MetricsCheck::MissingConfiguration;
        }
        let token = match authorization {
            Some(header) => bearer_token(header),
            None => String::new(),
        };
        let t = chars_of(token.as_str());
        if token.as_str().is_empty() || !chars_eq_str(&t, self.bearer_token.as_str()) {
            return MetricsCheck::Unauthorized;
        }
        MetricsCheck::PassThrough
    }
}


/// Options of the HTTP application.
#[derive(Clone)]
pub struct AppOptions {
    pub auth_routes: Option<Vec<String>>,
}

/// The route patterns that need an access token.
pub fn protected_routes() -> (r: Vec<String>)
    ensures
        r@.len() == 3,
        r@[0]@ == "/v1/friendships/{userId}"@,
        r@[1]@ == "/v1/friendships/{userId}/mutuals"@,
        r@[2]@ == "/_matrix/client/r0/rooms/{room_id}/state/org.decentraland.friendship"@,
{
    let mut r: Vec<String> = Vec::new();
    r.push(String::from_str("/v1/friendships/{userId}"));
    r.push(String::from_str("/v1/friendships/{userId}/mutuals"));
    r.push(String::from_str("/_matrix/client/r0/rooms/{room_id}/state/org.decentraland.friendship"));
    r
}

} // verus!
