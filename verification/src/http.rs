//! Plain-value pictures of an HTTP exchange: what an adapter asks to be sent,
//! and what came back.

use vstd::prelude::*;
use vstd::string::*;
use crate::text::{opt_text, copy_opt_text};

verus! {

/// The status line that `http` prints for the status code `code`: the
/// number, a space and the canonical reason phrase. Nothing is said of it for
/// a number that is no status code.
pub uninterp spec fn status_line_text(code: int) -> Seq<char>;

/// Whether `code` can be the status of an HTTP response.
pub open spec fn is_status_code(code: int) -> bool {
    100 <= code < 1000
}

/// Calls `reqwest::StatusCode::from_u16` and, on the status it gives,
/// `StatusCode::is_success`.
///
/// Trusted: `from_u16` accepts exactly the codes from 100 to 999, and
/// `is_success` holds exactly from 200 to 299.
#[verifier::external_body]
fn code_is_success(code: u16) -> (r: bool)
    ensures
        r == (200 <= code < 300),
{
    match reqwest::StatusCode::from_u16(code) {
        Ok(status) => status.is_success(),
        Err(_) => false,
    }
}

/// Calls `reqwest::StatusCode::from_u16` and prints the status with its
/// `Display` impl.
///
/// Trusted: `from_u16` accepts exactly the codes from 100 to 999; the text
/// printed is taken to be a function of the code alone, named
/// [`status_line_text`].
#[verifier::external_body]
fn code_line(code: u16) -> (r: Option<String>)
    ensures
        r is Some <==> is_status_code(code as int),
        r matches Some(s) ==> s@ == status_line_text(code as int),
{
    match reqwest::StatusCode::from_u16(code) {
        Ok(status) => Some(status.to_string()),
        Err(_) => None,
    }
}

/// The status code of an HTTP response: a number from 100 to 999.
#[derive(Clone, Copy, Debug)]
pub struct HttpStatus {
    code: u16,
}

impl HttpStatus {
    #[verifier::type_invariant]
    spec fn in_range(self) -> bool {
        is_status_code(self.code as int)
    }

    /// The number of this status.
    pub closed spec fn value(self) -> int {
        self.code as int
    }

    /// The status with number `code`, if `code` is a status code.
    pub fn new(code: u16) -> (r: Option<HttpStatus>)
        ensures
            r is Some <==> is_status_code(code as int),
            r matches Some(s) ==> s.value() == code,
    {
        if 100 <= code && code < 1000 {
            Some(HttpStatus { code })
        } else {
            None
        }
    }

    /// The number of this status.
    pub fn code(&self) -> (r: u16)
        ensures
            r == self.value(),
            is_status_code(r as int),
    {
        proof {
            use_type_invariant(self);
        }
        self.code
    }

    /// Whether the status reports success (2xx).
    pub fn is_success(&self) -> (r: bool)
        ensures
            r == (200 <= self.value() < 300),
    {
        code_is_success(self.code)
    }

    /// Whether the status reports that the credentials were refused (401 or
    /// 403).
    pub fn is_auth_failure(&self) -> (r: bool)
        ensures
            r == (self.value() == 401 || self.value() == 403),
    {
        self.code == 401 || self.code == 403
    }

    /// The status line: number and reason phrase.
    pub fn line(&self) -> (r: String)
        ensures
            r@ == status_line_text(self.value()),
    {
        proof {
            use_type_invariant(self);
        }
        match code_line(self.code) {
            Some(s) => s,
            None => {
                proof {
                    assert(false);
                }
                String::new()
            },
        }
    }
}

/// A JSON `POST` that an adapter asks to be sent.
#[derive(Debug)]
pub struct HttpRequest {
    pub url: String,
    /// The bearer token to authorise the request with, if any.
    pub bearer: Option<String>,
    /// The JSON text of the request body.
    pub body: String,
}

/// What an [`HttpRequest`] holds, as mathematical values.
pub struct HttpRequestView {
    pub url: Seq<char>,
    pub bearer: Option<Seq<char>>,
    pub body: Seq<char>,
}

impl View for HttpRequest {
    type V = HttpRequestView;

    open spec fn view(&self) -> HttpRequestView {
        HttpRequestView { url: self.url@, bearer: opt_text(self.bearer), body: self.body@ }
    }
}

impl Clone for HttpRequest {
    fn clone(&self) -> (r: HttpRequest)
        ensures
            r@ == self@,
    {
        HttpRequest {
            url: self.url.clone(),
            bearer: copy_opt_text(&self.bearer),
            body: self.body.clone(),
        }
    }
}

/// The answer to a request: its status and the text of its body.
#[derive(Debug)]
pub struct HttpResponse {
    pub status: HttpStatus,
    pub body: String,
}

/// What an [`HttpResponse`] holds, as mathematical values.
pub struct HttpResponseView {
    pub status: int,
    pub body: Seq<char>,
}

impl View for HttpResponse {
    type V = HttpResponseView;

    open spec fn view(&self) -> HttpResponseView {
        HttpResponseView { status: self.status.value(), body: self.body@ }
    }
}

/// How an exchange ended: with a response, or without one and with the
/// transport's own account of why.
pub open spec fn reply_view(reply: Result<HttpResponse, String>) -> Result<
    HttpResponseView,
    Seq<char>,
> {
    match reply {
        Ok(response) => Ok(response@),
        Err(detail) => Err(detail@),
    }
}

} // verus!
