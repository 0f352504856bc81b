//! The platform adapters. Each one says what to send and reads what came
//! back; sending is the caller's part.

use vstd::prelude::*;
use vstd::string::*;
use crate::http::{status_line_text, HttpResponse, HttpResponseView, HttpStatus, reply_view};

pub mod bluesky;
pub mod mastodon;

verus! {

/// Why a delivery attempt failed.
#[derive(Debug)]
pub enum AdapterError {
    /// The platform refused the credentials.
    Auth { status: HttpStatus },
    /// The platform answered with another status that is no success.
    Api { status: HttpStatus },
    /// A publish was asked of a session-based adapter that holds no session.
    NotAuthenticated,
    /// No response arrived; the transport's own words.
    Transport { detail: String },
    /// The login succeeded but the reply names no token or no account.
    MalformedSession,
    /// The time of the post cannot be written as a timestamp.
    InvalidTimestamp,
}

/// What an [`AdapterError`] holds, as mathematical values.
pub enum AdapterErrorView {
    Auth { status: int },
    Api { status: int },
    NotAuthenticated,
    Transport { detail: Seq<char> },
    MalformedSession,
    InvalidTimestamp,
}

impl View for AdapterError {
    type V = AdapterErrorView;

    open spec fn view(&self) -> AdapterErrorView {
        match self {
            AdapterError::Auth { status } => AdapterErrorView::Auth { status: status.value() },
            AdapterError::Api { status } => AdapterErrorView::Api { status: status.value() },
            AdapterError::NotAuthenticated => AdapterErrorView::NotAuthenticated,
            AdapterError::Transport { detail } => AdapterErrorView::Transport { detail: detail@ },
            AdapterError::MalformedSession => AdapterErrorView::MalformedSession,
            AdapterError::InvalidTimestamp => AdapterErrorView::InvalidTimestamp,
        }
    }
}

impl Clone for AdapterError {
    fn clone(&self) -> (r: AdapterError)
        ensures
            r@ == self@,
    {
        match self {
            AdapterError::Auth { status } => AdapterError::Auth { status: *status },
            AdapterError::Api { status } => AdapterError::Api { status: *status },
            AdapterError::NotAuthenticated => AdapterError::NotAuthenticated,
            AdapterError::Transport { detail } => AdapterError::Transport { detail: detail.clone() },
            AdapterError::MalformedSession => AdapterError::MalformedSession,
            AdapterError::InvalidTimestamp => AdapterError::InvalidTimestamp,
        }
    }
}

/// The result of an attempt: the platform's receipt, or the reason it failed.
pub open spec fn attempt_view(r: Result<String, AdapterError>) -> Result<
    Seq<char>,
    AdapterErrorView,
> {
    match r {
        Ok(receipt) => Ok(receipt@),
        Err(error) => Err(error@),
    }
}

/// Whether a status means that the credentials were refused.
pub open spec fn is_auth_status(status: int) -> bool {
    status == 401 || status == 403
}

/// How a reply is read. A 2xx response is a success and its body the
/// receipt. Any other response is a failure that carries the status: `Auth`
/// for 401 and 403 where `tell_auth` asks to tell these apart, `Api`
/// otherwise. A reply without a response is a `Transport` failure that keeps
/// the transport's words.
pub open spec fn reply_result(
    reply: Result<HttpResponseView, Seq<char>>,
    tell_auth: bool,
) -> Result<Seq<char>, AdapterErrorView> {
    match reply {
        Ok(response) => if 200 <= response.status < 300 {
            Ok(response.body)
        } else if tell_auth && is_auth_status(response.status) {
            Err(AdapterErrorView::Auth { status: response.status })
        } else {
            Err(AdapterErrorView::Api { status: response.status })
        },
        Err(detail) => Err(AdapterErrorView::Transport { detail }),
    }
}

/// Reads a reply as [`reply_result`] says.
pub fn read_reply(reply: Result<HttpResponse, String>, tell_auth: bool) -> (r: Result<
    String,
    AdapterError,
>)
    ensures
        attempt_view(r) == reply_result(reply_view(reply), tell_auth),
{
    match reply {
        Ok(response) => {
            if response.status.is_success() {
                Ok(response.body)
            } else if tell_auth && response.status.is_auth_failure() {
                Err(AdapterError::Auth { status: response.status })
            } else {
                Err(AdapterError::Api { status: response.status })
            }
        },
        Err(detail) => Err(AdapterError::Transport { detail }),
    }
}

/// The diagnostic text of an error. A status is given as its status line; a
/// transport failure keeps its words unchanged.
pub open spec fn error_text(error: AdapterErrorView) -> Seq<char> {
    match error {
        AdapterErrorView::Auth { status } => "authentication refused: "@ + status_line_text(status),
        AdapterErrorView::Api { status } => "API error: "@ + status_line_text(status),
        AdapterErrorView::NotAuthenticated => "not logged in"@,
        AdapterErrorView::Transport { detail } => detail,
        AdapterErrorView::MalformedSession => "the session reply names no token or no account"@,
        AdapterErrorView::InvalidTimestamp => "the time of the post is out of range"@,
    }
}

impl AdapterError {
    /// The diagnostic text of this error.
    pub fn describe(&self) -> (r: String)
        ensures
            r@ == error_text(self@),
    {
        match self {
            AdapterError::Auth { status } => {
                let mut out = String::from_str("authentication refused: ");
                let line = status.line();
                out.append(line.as_str());
                out
            },
            AdapterError::Api { status } => {
                let mut out = String::from_str("API error: ");
                let line = status.line();
                out.append(line.as_str());
                out
            },
            AdapterError::NotAuthenticated => String::from_str("not logged in"),
            AdapterError::Transport { detail } => detail.clone(),
            AdapterError::MalformedSession => String::from_str(
                "the session reply names no token or no account",
            ),
            AdapterError::InvalidTimestamp => String::from_str(
                "the time of the post is out of range",
            ),
        }
    }
}

} // verus!
