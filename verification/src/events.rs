//! Friendship events as exchanged with clients, and component health reports.

use vstd::prelude::*;
use vstd::string::*;

use crate::friendship_event::FriendshipEvent;
use crate::text::eq_ignore_ascii_case;
use crate::text::eq_ignore_case;

verus! {

/// The reply to a friendship event: the user it concerns.
pub struct EventResponse {
    pub user_id: String,
}

/// A friendship event sent by a client.
pub struct EventPayload {
    pub friendship_event: FriendshipEvent,
    pub second_user: String,
    pub request_event_message_body: Option<String>,
}

/// The health of one component.
#[derive(Debug, Default, Clone)]
pub struct ComponentHealthStatus {
    pub status: String,
}

/// Status of a healthy component.
pub const PASS: &'static str = "pass";

/// Status of a failing component.
pub const FAIL: &'static str = "fail";

/// HTTP status of a ready service.
pub const SUCCESSFUL_STATUS: u16 = 200;

/// HTTP status of a service that is not ready.
pub const FAILED_STATUS: u16 = 503;

/// The health report of a component, from whether it answered as healthy.
pub fn component_status(healthy: bool) -> (r: ComponentHealthStatus)
    ensures
        r.status@ == (if healthy {
            "pass"@
        } else {
            "fail"@
        }),
{
    ComponentHealthStatus {
        status: if healthy {
            String::from_str(PASS)
        } else {
            String::from_str(FAIL)
        },
    }
}

/// The status text of a component: `pass` when healthy, else `fail`.
pub open spec fn status_text(healthy: bool) -> Seq<char> {
    if healthy {
        "pass"@
    } else {
        "fail"@
    }
}

/// The health report of each named component, from whether it answered as healthy, in
/// the order the components were checked.
pub fn calculate_status(results: Vec<(String, bool)>) -> (r: Vec<(String, ComponentHealthStatus)>)
    ensures
        r@.len() == results@.len(),
        forall|i: int|
            0 <= i < results@.len() ==> #[trigger] r@[i].0@ == results@[i].0@ && r@[i].1.status@
                == status_text(results@[i].1),
{
    let mut r: Vec<(String, ComponentHealthStatus)> = Vec::new();
    let mut i: usize = 0;
    while i < results.len()
        invariant
            i <= results@.len(),
            r@.len() == i,
            forall|j: int|
                0 <= j < i ==> #[trigger] r@[j].0@ == results@[j].0@ && r@[j].1.status@
                    == status_text(results@[j].1),
        decreases results.len() - i,
    {
        let name = results[i].0.clone();
        let status = component_status(results[i].1);
        assert(name@ == results@[i as int].0@);
        assert(status.status@ == status_text(results@[i as int].1));
        let ghost before = r@;
        r.push((name, status));
        assert forall|j: int| 0 <= j <= i implies #[trigger] r@[j].0@ == results@[j].0@
            && r@[j].1.status@ == status_text(results@[j].1) by {
            if j < i {
                assert(r@[j] == before[j]);
            }
        }
        i = i + 1;
    }
    r
}

/// The service is ready when no component reports a failure (ASCII case ignored).
pub open spec fn all_pass(checks: Seq<ComponentHealthStatus>) -> bool {
    forall|i: int| 0 <= i < checks.len() ==> !eq_ignore_case(#[trigger] checks[i].status@, "fail"@)
}

/// The HTTP status of the readiness probe for the given reports.
pub fn readiness_status(checks: &Vec<ComponentHealthStatus>) -> (r: u16)
    ensures
        r == (if all_pass(checks@) {
            200u16
        } else {
            503u16
        }),
        forall|i: int|
            0 <= i < checks@.len() && eq_ignore_case(#[trigger] checks@[i].status@, "fail"@)
                ==> r == 503,
        (forall|i: int| 0 <= i < checks@.len() ==> !eq_ignore_case(#[trigger] checks@[i].status@, "fail"@))
            ==> r == 200,
{
    let mut i: usize = 0;
    while i < checks.len()
        invariant
            i <= checks@.len(),
            forall|j: int| 0 <= j < i ==> !eq_ignore_case(#[trigger] checks@[j].status@, "fail"@),
        decreases checks.len() - i,
    {
        if eq_ignore_ascii_case(checks[i].status.as_str(), FAIL) {
            return FAILED_STATUS;
        }
        i = i + 1;
    }
    SUCCESSFUL_STATUS
}

/// The service is unavailable as soon as any one component, whichever it is, reports a
/// failure (in any ASCII case), and ready when none does.
pub proof fn lemma_any_failure_makes_unready(checks: Seq<ComponentHealthStatus>, i: int)
    requires
        0 <= i < checks.len(),
    ensures
        eq_ignore_case(checks[i].status@, "FAIL"@) ==> !all_pass(checks),
        eq_ignore_case(checks[i].status@, "fail"@) ==> !all_pass(checks),
        (forall|j: int| 0 <= j < checks.len() ==> checks[j].status@ == "pass"@) ==> all_pass(checks),
{
    assert(eq_ignore_case("FAIL"@, "fail"@)) by {
        reveal_strlit("FAIL");
        reveal_strlit("fail");
        assert(crate::text::ascii_lower("FAIL"@) =~= crate::text::ascii_lower("fail"@));
    }
    if forall|j: int| 0 <= j < checks.len() ==> checks[j].status@ == "pass"@ {
        assert forall|j: int| 0 <= j < checks.len() implies !eq_ignore_case(
            #[trigger] checks[j].status@,
            "fail"@,
        ) by {
            reveal_strlit("pass");
            reveal_strlit("fail");
            assert(crate::text::ascii_lower("pass"@)[0] != crate::text::ascii_lower("fail"@)[0]);
        }
    }
}

} // verus!
