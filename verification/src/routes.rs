//! The HTTP surface: routing a method and path to a handler, serving the
//! request against the registry, and the wire-level content of every reply.

use vstd::prelude::*;

use crate::controller::command_outlet;
use crate::outlet::{has_id, set_active_at, Outlet, OutletError};
use crate::parse::{id_of_param, validate_id_param};
use crate::registry::Registry;

verus! {

/// The requests the service understands; everything else is `Unknown`.
#[derive(Clone, Copy, PartialEq, Eq, Structural, Debug)]
pub enum Route {
    /// `GET /`: redirect to the status page.
    Root,
    /// `GET /status`: the outlet list.
    Status,
    /// `GET /on`: command an outlet active.
    SwitchOn,
    /// `GET /off`: command an outlet inactive.
    SwitchOff,
    /// Anything else: not found.
    Unknown,
}

/// Which route a request's method and path select.
pub open spec fn spec_route(method: Seq<char>, path: Seq<char>) -> Route {
    if method != "GET"@ {
        Route::Unknown
    } else if path == "/"@ {
        Route::Root
    } else if path == "/status"@ {
        Route::Status
    } else if path == "/on"@ {
        Route::SwitchOn
    } else if path == "/off"@ {
        Route::SwitchOff
    } else {
        Route::Unknown
    }
}

/// Character-for-character equality of two strings.
fn str_eq(a: &str, b: &str) -> (r: bool)
    ensures
        r == (a@ == b@),
{
    let owned_a = a.to_owned();
    let owned_b = b.to_owned();
    owned_a == owned_b
}

/// Routes a request.  Only `GET` is served, on exactly the four known paths.
pub fn route_of(method: &str, path: &str) -> (r: Route)
    ensures
        r == spec_route(method@, path@),
{
    if !str_eq(method, "GET") {
        return Route::Unknown;
    }
    if str_eq(path, "/") {
        Route::Root
    } else if str_eq(path, "/status") {
        Route::Status
    } else if str_eq(path, "/on") {
        Route::SwitchOn
    } else if str_eq(path, "/off") {
        Route::SwitchOff
    } else {
        Route::Unknown
    }
}

/// A reply, one step short of the wire: the server loop maps it one-to-one
/// onto an HTTP response.
#[derive(Debug)]
pub enum Reply {
    /// 302, `Location: /status`.
    RedirectToStatus,
    /// 200, the outlet snapshots rendered as JSON.
    OutletList(Vec<Outlet>),
    /// 200, text `Success!`.
    Success,
    /// 200, text `Invalid id!`.
    InvalidId,
    /// 200, text `Error!`.
    HardwareError,
    /// 404, empty body.
    NotFound,
}

impl Reply {
    /// The HTTP status code of the reply.
    pub fn status_code(&self) -> (c: u16)
        ensures
            c == match *self {
                Reply::RedirectToStatus => 302u16,
                Reply::NotFound => 404u16,
                _ => 200u16,
            },
    {
        match *self {
            Reply::RedirectToStatus => 302,
            Reply::NotFound => 404,
            _ => 200,
        }
    }

    /// The text body of the reply, where it has one.  Parameter and lookup
    /// problems all surface as the same generic text; hardware detail never
    /// leaks to the client.
    pub fn body_text(&self) -> (r: Option<String>)
        ensures
            (*self matches Reply::Success) ==> (r matches Some(t) && t@ == "Success!"@),
            (*self matches Reply::InvalidId) ==> (r matches Some(t) && t@ == "Invalid id!"@),
            (*self matches Reply::HardwareError) ==> (r matches Some(t) && t@ == "Error!"@),
            (*self matches Reply::RedirectToStatus) ==> r is None,
            (*self matches Reply::OutletList(_)) ==> r is None,
            (*self matches Reply::NotFound) ==> r is None,
    {
        match *self {
            Reply::Success => Some("Success!".to_owned()),
            Reply::InvalidId => Some("Invalid id!".to_owned()),
            Reply::HardwareError => Some("Error!".to_owned()),
            _ => None,
        }
    }

    /// The redirect target of the reply, where it is a redirect.
    pub fn redirect_target(&self) -> (r: Option<String>)
        ensures
            (*self matches Reply::RedirectToStatus) ==> (r matches Some(t) && t@ == "/status"@),
            !(*self matches Reply::RedirectToStatus) ==> r is None,
    {
        match *self {
            Reply::RedirectToStatus => Some("/status".to_owned()),
            _ => None,
        }
    }
}

/// Maps a command outcome to its reply: missing, malformed and unknown ids
/// all read "Invalid id!" on the wire, a failed hardware write "Error!".
pub fn outcome_reply(outcome: &Result<(), OutletError>) -> (r: Reply)
    ensures
        match outcome {
            Ok(_) => r matches Reply::Success,
            Err(e) => match e {
                OutletError::HardwareWriteFailed(_) => r matches Reply::HardwareError,
                _ => r matches Reply::InvalidId,
            },
        },
{
    match outcome {
        Ok(_) => Reply::Success,
        Err(OutletError::HardwareWriteFailed(_)) => Reply::HardwareError,
        Err(_) => Reply::InvalidId,
    }
}

/// The view of an optional query parameter.
pub open spec fn param_view(p: Option<&str>) -> Option<Seq<char>> {
    match p {
        Some(s) => Some(s@),
        None => None,
    }
}

/// What serving `/on` or `/off` (`desired` true or false) must look like: a
/// missing, malformed or unknown id is answered "Invalid id!" with every
/// outlet untouched; against a registered id, either the write succeeded and
/// exactly that outlet now mirrors `desired`, or it failed and the reply is
/// "Error!" with the cache at its prior value.
pub open spec fn switch_post(
    before: Seq<Outlet>,
    after: Seq<Outlet>,
    param: Option<Seq<char>>,
    r: Reply,
    desired: bool,
) -> bool {
    match param {
        None => (r matches Reply::InvalidId) && after == before,
        Some(p) => match id_of_param(p) {
            None => (r matches Reply::InvalidId) && after == before,
            Some(id) => if !has_id(before, id) {
                (r matches Reply::InvalidId) && after == before
            } else {
                ||| ((r matches Reply::Success) && exists|i: int|
                    0 <= i < before.len() && #[trigger] before[i].id == id && after
                        == set_active_at(before, i, desired))
                ||| ((r matches Reply::HardwareError) && after == before)
            },
        },
    }
}

/// Serves `/on` or `/off`: validate the id, command the outlet, and word the
/// reply.
pub fn handle_switch(reg: &mut Registry, id_param: Option<&str>, desired: bool) -> (r: Reply)
    requires
        old(reg).wf(),
    ensures
        final(reg).wf(),
        switch_post(old(reg)@, final(reg)@, param_view(id_param), r, desired),
{
    let id = match validate_id_param(id_param) {
        Ok(n) => n,
        Err(e) => {
            let outcome: Result<(), OutletError> = Err(e);
            return outcome_reply(&outcome);
        },
    };
    let outcome = command_outlet(reg, id, desired);
    outcome_reply(&outcome)
}

/// Serves one request: routes the method and path, and answers from the
/// registry.  Only the switching routes may change state, and only as
/// `switch_post` allows.
pub fn handle_request(
    reg: &mut Registry,
    method: &str,
    path: &str,
    id_param: Option<&str>,
) -> (r: Reply)
    requires
        old(reg).wf(),
    ensures
        final(reg).wf(),
        match spec_route(method@, path@) {
            Route::Root => (r matches Reply::RedirectToStatus) && final(reg)@ == old(reg)@,
            Route::Status => (r matches Reply::OutletList(v) && v@ == old(reg)@) && final(reg)@
                == old(reg)@,
            Route::Unknown => (r matches Reply::NotFound) && final(reg)@ == old(reg)@,
            Route::SwitchOn => switch_post(old(reg)@, final(reg)@, param_view(id_param), r, true),
            Route::SwitchOff => switch_post(
                old(reg)@,
                final(reg)@,
                param_view(id_param),
                r,
                false,
            ),
        },
{
    let route = route_of(method, path);
    match route {
        Route::Root => Reply::RedirectToStatus,
        Route::Status => Reply::OutletList(reg.list()),
        Route::SwitchOn => handle_switch(reg, id_param, true),
        Route::SwitchOff => handle_switch(reg, id_param, false),
        Route::Unknown => Reply::NotFound,
    }
}

} // verus!
