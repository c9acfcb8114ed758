//! How a page reacts to a reply of the server: the shared part of every
//! request handler.

use vstd::prelude::*;
use crate::notification::{self, NotificationData, cause_or};
use crate::status;
use crate::text::concat2;

verus! {

/// What a handler does with a reply.
#[derive(Clone, Debug)]
pub enum Reaction {
    /// The reply was a success: the handler goes on with its body.
    Proceed,
    /// The session is gone: the stored token is cleared and the login page shown.
    Unauthorized,
    /// The reply was an error: this notification is queued and the handler stops.
    Notify(NotificationData),
}

/// The reaction to a reply with status `status`, whose error body gave `cause`
/// when it parsed: success goes on; 401 logs out; 403 shows `forbidden_text`
/// where the page has one; any other status shows the cause, or `fallback`.
pub open spec fn reaction_ok(
    r: Reaction,
    status: u16,
    cause: Option<Seq<char>>,
    forbidden_text: Option<Seq<char>>,
    fallback: Seq<char>,
) -> bool {
    if status == status::OK {
        r is Proceed
    } else if status == status::UNAUTHORIZED {
        r is Unauthorized
    } else if status == status::FORBIDDEN && forbidden_text is Some {
        r matches Reaction::Notify(n) && notification::is_error(n, forbidden_text->0)
    } else {
        r matches Reaction::Notify(n) && notification::is_error(n, notification::cause_text(cause, fallback))
    }
}

/// The view of an optional text.
pub open spec fn opt_str_view(s: Option<&str>) -> Option<Seq<char>> {
    match s {
        Some(v) => Some(v@),
        None => None,
    }
}

/// The reaction of a handler to a reply (see `reaction_ok`).
pub fn react(status: u16, cause: Option<String>, forbidden_text: Option<&str>, fallback: &str) -> (res: Reaction)
    ensures
        reaction_ok(res, status, notification::opt_view(cause), opt_str_view(forbidden_text), fallback@),
{
    if status == status::OK {
        Reaction::Proceed
    } else if status == status::UNAUTHORIZED {
        Reaction::Unauthorized
    } else {
        match forbidden_text {
            Some(t) if status == status::FORBIDDEN => Reaction::Notify(NotificationData::error(t)),
            _ => Reaction::Notify(cause_or(cause, fallback)),
        }
    }
}

/// The text "Response Error : " followed by the reason a reply body did not parse.
pub fn response_error_text(reason: &str) -> (res: String)
    ensures
        res@ == "Response Error : "@ + reason@,
{
    concat2("Response Error : ", reason)
}

} // verus!

verus! {

/// What a page that loads a list shows: the list, or the notice that tells why
/// it did not load.
pub open spec fn list_loaded<T>(
    res: Result<T, NotificationData>,
    network_ok: bool,
    status: u16,
    cause: Option<String>,
    body: Option<T>,
    network_text: Seq<char>,
    error_fallback: Seq<char>,
    parse_text: Seq<char>,
) -> bool {
    &&& !network_ok ==> (res matches Err(n) && notification::is_error(n, network_text))
    &&& network_ok && status != status::OK ==> (res matches Err(n) && notification::is_error(
        n,
        notification::cause_text(notification::opt_view(cause), error_fallback),
    ))
    &&& network_ok && status == status::OK && body is None ==> (res matches Err(n) && notification::is_error(
        n,
        parse_text,
    ))
    &&& network_ok && status == status::OK && body is Some ==> res == Ok::<T, NotificationData>(body->0)
}

/// The list or record a page loads, or the notice that tells why it did not load:
/// the request failed to go out (`network_text`); an error status (the server's
/// cause, or `error_fallback`); a body that did not parse (`parse_text`).
pub fn load_outcome<T>(
    network_ok: bool,
    status: u16,
    cause: Option<String>,
    body: Option<T>,
    network_text: &str,
    error_fallback: &str,
    parse_text: &str,
) -> (res: Result<T, NotificationData>)
    ensures
        list_loaded(res, network_ok, status, cause, body, network_text@, error_fallback@, parse_text@),
        !network_ok ==> (res matches Err(n) && notification::is_error(n, network_text@)),
        network_ok && status != status::OK ==> (res matches Err(n) && notification::is_error(
            n,
            notification::cause_text(notification::opt_view(cause), error_fallback@),
        )),
        network_ok && status == status::OK && body is None ==> (res matches Err(n)
            && notification::is_error(n, parse_text@)),
        network_ok && status == status::OK && body is Some ==> res == Ok::<T, NotificationData>(
            body->0,
        ),
{
    if !network_ok {
        Err(NotificationData::error(network_text))
    } else if status != status::OK {
        Err(cause_or(cause, error_fallback))
    } else {
        match body {
            Some(b) => Ok(b),
            None => Err(NotificationData::error(parse_text)),
        }
    }
}

} // verus!
