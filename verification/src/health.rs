//! The health check: which status an account has, and what a request is
//! answered with.
//!
//! An account is well while the game keeps sending it keep-alive packets.
//! The status is a HTTP status code: 200 for well, 404 for an account that
//! has not been heard of for more than 15 seconds, or is not known.

use vstd::prelude::*;
use crate::text::{
    has_prefix, starts_with, trim_end_matches, trim_start_matches, trimmed_end, trimmed_start,
};

verus! {

/// The status of an account that is well.
pub const STATUS_OK: u16 = 200;

/// The answer to a request that is not understood.
pub const STATUS_BAD_REQUEST: u16 = 400;

/// The status of an account that is not well, or not known.
pub const STATUS_NOT_FOUND: u16 = 404;

/// After how many seconds without a keep-alive packet an account is not well.
pub const KEEPALIVE_SECONDS: u64 = 15;

/// The status to note for an account, if it changes: 404 when the last
/// keep-alive packet is more than 15 seconds old; else 200 when the account
/// was not well or has no status yet; else the status stays.
pub fn healthcheck_checker(elapsed_secs: u64, current: Option<u16>) -> (next: Option<u16>)
    ensures
        next == (if elapsed_secs > KEEPALIVE_SECONDS {
            Some(STATUS_NOT_FOUND)
        } else if current == Some(STATUS_NOT_FOUND) || current is None {
            Some(STATUS_OK)
        } else {
            None
        }),
{
    if elapsed_secs > KEEPALIVE_SECONDS {
        Some(STATUS_NOT_FOUND)
    } else {
        match current {
            Some(code) => if code == STATUS_NOT_FOUND {
                Some(STATUS_OK)
            } else {
                None
            },
            None => Some(STATUS_OK),
        }
    }
}

/// What a request is answered with.
#[derive(Debug, PartialEq, Eq)]
pub enum Route {
    /// With this status code. No further request is taken in this round.
    Respond(u16),
    /// With the status of the account of this name.
    Status(String),
}

/// What a request is answered with, as a mathematical value.
pub enum RouteView {
    Respond(u16),
    Status(Seq<char>),
}

impl View for Route {
    type V = RouteView;

    open spec fn view(&self) -> RouteView {
        match self {
            Route::Respond(code) => RouteView::Respond(*code),
            Route::Status(name) => RouteView::Status(name@),
        }
    }
}

/// The path that asks whether the service is up.
pub open spec fn health_path() -> Seq<char> {
    seq!['/', 'h', 'e', 'a', 'l', 't', 'h']
}

/// What the path of a request for an account's status begins with.
pub open spec fn status_prefix() -> Seq<char> {
    seq!['/', 's', 't', 'a', 't', 'u', 's', '/']
}

/// What a request for `url`, without the blanks around it, is answered with.
///
/// Only `GET` and `HEAD` are taken. Slashes at the end of the path do not
/// count. `/health` is answered with 200, `/status/` and a name with that
/// account's status, anything else with 400.
pub open spec fn routed(get_or_head: bool, url: Seq<char>) -> RouteView {
    let path = trimmed_end(url, seq!['/']);
    if !get_or_head {
        RouteView::Respond(STATUS_BAD_REQUEST)
    } else if path == health_path() {
        RouteView::Respond(STATUS_OK)
    } else if !has_prefix(path, status_prefix()) {
        RouteView::Respond(STATUS_BAD_REQUEST)
    } else {
        RouteView::Status(trimmed_start(path, status_prefix()))
    }
}

/// What a request for `url` is answered with, where `url` has no blanks
/// around it. `get_or_head` says whether the request's method is one of the
/// two.
pub fn route_trimmed(get_or_head: bool, url: &str) -> (route: Route)
    ensures
        route@ == routed(get_or_head, url@),
{
    proof {
        reveal_strlit("/");
        reveal_strlit("/health");
        reveal_strlit("/status/");
        assert("/"@ =~= seq!['/']);
        assert("/health"@ =~= health_path());
        assert("/status/"@ =~= status_prefix());
    }
    if !get_or_head {
        return Route::Respond(STATUS_BAD_REQUEST);
    }
    let path = trim_end_matches(url, "/");
    if path.to_owned() == "/health".to_owned() {
        return Route::Respond(STATUS_OK);
    }
    if !starts_with(path, "/status/") {
        return Route::Respond(STATUS_BAD_REQUEST);
    }
    Route::Status(trim_start_matches(path, "/status/").to_owned())
}

/// `url` without the white space before and after it.
pub uninterp spec fn trim_text(url: Seq<char>) -> Seq<char>;

/// `str::trim` gives the part of the text between its leading and trailing
/// white space, as Unicode defines white space. The result depends on the
/// text alone.
#[verifier::external_body]
fn trim(url: &str) -> (out: &str)
    ensures
        out@ == trim_text(url@),
{
    url.trim()
}

/// What a request for `url` is answered with.
pub fn healthcheck_server(get_or_head: bool, url: &str) -> (route: Route)
    ensures
        route@ == routed(get_or_head, trim_text(url@)),
{
    route_trimmed(get_or_head, trim(url))
}

/// The answer to a request for an account's status: the status noted for
/// it, or 404 where none is noted.
pub fn status_answer(noted: Option<u16>) -> (code: u16)
    ensures
        code == (match noted {
            Some(status) => status,
            None => STATUS_NOT_FOUND,
        }),
{
    if let Some(status) = noted {
        status
    } else {
        STATUS_NOT_FOUND
    }
}

} // verus!
