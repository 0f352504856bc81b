//! The stateless-token adapter: a microblogging server that takes a
//! long-lived bearer token with every request.

use vstd::prelude::*;
use vstd::string::*;
use crate::http::{HttpRequest, HttpRequestView, HttpResponse, reply_view};
use crate::integrations::{attempt_view, read_reply, reply_result, AdapterError};
use crate::json::{json_string_literal, member, member_text, string_literal};

verus! {

/// A client for one Mastodon server.
#[derive(Debug)]
pub struct MastodonClient {
    base_url: String,
    access_token: String,
}

/// What a [`MastodonClient`] holds, as mathematical values.
pub struct MastodonClientView {
    pub base_url: Seq<char>,
    pub access_token: Seq<char>,
}

impl View for MastodonClient {
    type V = MastodonClientView;

    closed spec fn view(&self) -> MastodonClientView {
        MastodonClientView { base_url: self.base_url@, access_token: self.access_token@ }
    }
}

/// The body of a status request: a JSON object with the one member
/// `status`.
pub open spec fn status_body(content: Seq<char>) -> Seq<char> {
    "{"@ + member_text("status"@, json_string_literal(content)) + "}"@
}

/// The request that publishes `content`: a post to the statuses endpoint of
/// the server, authorised by the client's token.
pub open spec fn status_request(client: MastodonClientView, content: Seq<char>) -> HttpRequestView {
    HttpRequestView {
        url: client.base_url + "/api/v1/statuses"@,
        bearer: Some(client.access_token),
        body: status_body(content),
    }
}

impl MastodonClient {
    /// A client for the server at `base_url` that authorises with
    /// `access_token`.
    pub fn new(base_url: String, access_token: String) -> (r: MastodonClient)
        ensures
            r@ == (MastodonClientView { base_url: base_url@, access_token: access_token@ }),
    {
        MastodonClient { base_url, access_token }
    }

    /// The request to send in order to publish `content`.
    pub fn post_status(&self, content: &str) -> (r: HttpRequest)
        ensures
            r@ == status_request(self@, content@),
    {
        let mut url = self.base_url.clone();
        url.append("/api/v1/statuses");
        let quoted = string_literal(content);
        let field = member("status", quoted.as_str());
        let mut body = String::from_str("{");
        body.append(field.as_str());
        body.append("}");
        HttpRequest { url, bearer: Some(self.access_token.clone()), body }
    }

    /// Reads the reply to a status request. On a 2xx response the body is the
    /// receipt. The attempt fails with `Auth` on 401 and 403, with `Api` on
    /// any other status, and with `Transport` where no response came.
    pub fn post_status_reply(reply: Result<HttpResponse, String>) -> (r: Result<
        String,
        AdapterError,
    >)
        ensures
            attempt_view(r) == reply_result(reply_view(reply), true),
    {
        read_reply(reply, true)
    }
}

} // verus!
