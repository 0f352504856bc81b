//! The session-based adapter: a server that wants a login before it takes
//! records, and a token and an account identifier with every record.

use vstd::prelude::*;
use vstd::string::*;
use crate::http::{HttpRequest, HttpRequestView, HttpResponse, HttpResponseView, reply_view};
use crate::integrations::{
    attempt_view, read_reply, reply_result, AdapterError, AdapterErrorView,
};
use crate::text::opt_text;
use crate::json::{
    json_string_literal, json_string_member, member, member_text, string_literal, string_member,
};

verus! {

/// The RFC 3339 text of the instant that lies `nanos` nanoseconds after the
/// Unix epoch, in UTC, as `time` writes it. `None` where `time` cannot
/// represent the instant or will not write its year.
pub uninterp spec fn rfc3339_text(nanos: int) -> Option<Seq<char>>;

/// Builds the instant with `time::OffsetDateTime::from_unix_timestamp_nanos`
/// and writes it with `OffsetDateTime::format` in the well-known format
/// `Rfc3339`.
///
/// Trusted: the result is taken to be a function of the number alone, named
/// [`rfc3339_text`]. Both calls return an error rather than panic; either
/// error gives `None`.
#[verifier::external_body]
fn rfc3339(nanos: i128) -> (r: Option<String>)
    ensures
        match r {
            Some(s) => rfc3339_text(nanos as int) == Some(s@),
            None => rfc3339_text(nanos as int) is None,
        },
{
    match time::OffsetDateTime::from_unix_timestamp_nanos(nanos) {
        Ok(instant) => match instant.format(&time::format_description::well_known::Rfc3339) {
            Ok(s) => Some(s),
            Err(_) => None,
        },
        Err(_) => None,
    }
}

/// What a login yields: the token to send with each record, and the
/// identifier of the account the records go to.
#[derive(Debug)]
pub struct Session {
    pub access_token: String,
    pub did: String,
}

/// What a [`Session`] holds, as mathematical values.
pub struct SessionView {
    pub access_token: Seq<char>,
    pub did: Seq<char>,
}

impl View for Session {
    type V = SessionView;

    open spec fn view(&self) -> SessionView {
        SessionView { access_token: self.access_token@, did: self.did@ }
    }
}

/// A client for one Bluesky account. It holds no session until a login has
/// succeeded, and keeps the session it then has for the rest of its life.
#[derive(Debug)]
pub struct BlueskyClient {
    identifier: String,
    password: String,
    base_url: String,
    session: Option<Session>,
}

/// What a [`BlueskyClient`] holds, as mathematical values.
pub struct BlueskyClientView {
    pub identifier: Seq<char>,
    pub password: Seq<char>,
    pub base_url: Seq<char>,
    pub session: Option<SessionView>,
}

impl View for BlueskyClient {
    type V = BlueskyClientView;

    closed spec fn view(&self) -> BlueskyClientView {
        BlueskyClientView {
            identifier: self.identifier@,
            password: self.password@,
            base_url: self.base_url@,
            session: match self.session {
                Some(session) => Some(session@),
                None => None,
            },
        }
    }
}

/// The request that opens a session: the account's identifier and password,
/// posted to the session endpoint without a token.
pub open spec fn login_request(client: BlueskyClientView) -> HttpRequestView {
    HttpRequestView {
        url: client.base_url + "/xrpc/com.atproto.server.createSession"@,
        bearer: None,
        body: "{"@ + member_text("identifier"@, json_string_literal(client.identifier)) + ","@
            + member_text("password"@, json_string_literal(client.password)) + "}"@,
    }
}

/// What the reply to a login yields. The reply is read as any other, 401 and
/// 403 told apart; the body of a 2xx response must be a JSON object with the
/// string members `accessJwt` and `did`.
pub open spec fn login_result(reply: Result<HttpResponseView, Seq<char>>) -> Result<
    SessionView,
    AdapterErrorView,
> {
    match reply_result(reply, true) {
        Ok(body) => session_of(
            json_string_member(body, "accessJwt"@),
            json_string_member(body, "did"@),
        ),
        Err(error) => Err(error),
    }
}

/// The session that a token and an account identifier make, where the reply
/// named both.
pub open spec fn session_of(access_token: Option<Seq<char>>, did: Option<Seq<char>>) -> Result<
    SessionView,
    AdapterErrorView,
> {
    match (access_token, did) {
        (Some(access_token), Some(did)) => Ok(SessionView { access_token, did }),
        _ => Err(AdapterErrorView::MalformedSession),
    }
}

/// Makes a session of what a login reply named. Fails with
/// `MalformedSession` where it named no token or no account.
pub fn session_from(access_token: Option<String>, did: Option<String>) -> (r: Result<
    Session,
    AdapterError,
>)
    ensures
        match session_of(opt_text(access_token), opt_text(did)) {
            Ok(session) => r matches Ok(made) && made@ == session,
            Err(error) => r matches Err(e) && e@ == error,
        },
{
    match (access_token, did) {
        (Some(access_token), Some(did)) => Ok(Session { access_token, did }),
        _ => Err(AdapterError::MalformedSession),
    }
}

/// The client after the reply to a login: with the session that the reply
/// names, or, where the login failed, as it was.
pub open spec fn after_login(
    client: BlueskyClientView,
    reply: Result<HttpResponseView, Seq<char>>,
) -> BlueskyClientView {
    match login_result(reply) {
        Ok(session) => BlueskyClientView { session: Some(session), ..client },
        Err(_) => client,
    }
}

/// The post record: the text and the time it was created at.
pub open spec fn record_text(content: Seq<char>, created_at: Seq<char>) -> Seq<char> {
    "{"@ + member_text("$type"@, "\"app.bsky.feed.post\""@) + ","@ + member_text(
        "createdAt"@,
        json_string_literal(created_at),
    ) + ","@ + member_text("text"@, json_string_literal(content)) + "}"@
}

/// The request that creates a post record in the account's repository.
pub open spec fn record_request(
    base_url: Seq<char>,
    session: SessionView,
    content: Seq<char>,
    created_at: Seq<char>,
) -> HttpRequestView {
    HttpRequestView {
        url: base_url + "/xrpc/com.atproto.repo.createRecord"@,
        bearer: Some(session.access_token),
        body: "{"@ + member_text("collection"@, "\"app.bsky.feed.post\""@) + ","@ + member_text(
            "record"@,
            record_text(content, created_at),
        ) + ","@ + member_text("repo"@, json_string_literal(session.did)) + "}"@,
    }
}

/// What asking a client for a post request yields: `NotAuthenticated`
/// without a session, `InvalidTimestamp` where `now` cannot be written, and
/// otherwise the request that creates the record, stamped with `now`.
pub open spec fn post_record_result(
    client: BlueskyClientView,
    content: Seq<char>,
    now: i128,
) -> Result<HttpRequestView, AdapterErrorView> {
    stamped_record_result(client, content, rfc3339_text(now as int))
}

/// The same, for a timestamp that is already written, or could not be.
pub open spec fn stamped_record_result(
    client: BlueskyClientView,
    content: Seq<char>,
    created_at: Option<Seq<char>>,
) -> Result<HttpRequestView, AdapterErrorView> {
    match client.session {
        None => Err(AdapterErrorView::NotAuthenticated),
        Some(session) => match created_at {
            None => Err(AdapterErrorView::InvalidTimestamp),
            Some(created_at) => Ok(record_request(client.base_url, session, content, created_at)),
        },
    }
}

impl BlueskyClient {
    /// A client for the account `identifier` on the main server. It holds no
    /// session.
    pub fn new(identifier: String, password: String) -> (r: BlueskyClient)
        ensures
            r@ == (BlueskyClientView {
                identifier: identifier@,
                password: password@,
                base_url: "https://bsky.social"@,
                session: None,
            }),
    {
        BlueskyClient {
            identifier,
            password,
            base_url: String::from_str("https://bsky.social"),
            session: None,
        }
    }

    /// Whether a login has succeeded.
    pub fn is_logged_in(&self) -> (r: bool)
        ensures
            r == self@.session is Some,
    {
        self.session.is_some()
    }

    /// The request to send in order to log in.
    pub fn login(&self) -> (r: HttpRequest)
        ensures
            r@ == login_request(self@),
    {
        let mut url = self.base_url.clone();
        url.append("/xrpc/com.atproto.server.createSession");
        let identifier = string_literal(self.identifier.as_str());
        let password = string_literal(self.password.as_str());
        let first = member("identifier", identifier.as_str());
        let second = member("password", password.as_str());
        let mut body = String::from_str("{");
        body.append(first.as_str());
        body.append(",");
        body.append(second.as_str());
        body.append("}");
        HttpRequest { url, bearer: None, body }
    }

    /// Reads the reply to a login. On success the client holds the session
    /// that the reply names. On failure the client is as it was: one that
    /// held no session holds none.
    pub fn login_reply(&mut self, reply: Result<HttpResponse, String>) -> (r: Result<
        (),
        AdapterError,
    >)
        ensures
            final(self)@ == after_login(old(self)@, reply_view(reply)),
            match login_result(reply_view(reply)) {
                Ok(_) => r is Ok,
                Err(error) => r matches Err(e) && e@ == error,
            },
    {
        let body = match read_reply(reply, true) {
            Ok(body) => body,
            Err(error) => {
                return Err(error);
            },
        };
        let access_token = string_member(body.as_str(), "accessJwt");
        let did = string_member(body.as_str(), "did");
        match session_from(access_token, did) {
            Ok(session) => {
                self.session = Some(session);
                Ok(())
            },
            Err(error) => Err(error),
        }
    }

    /// The request to send in order to publish `content` at time `now`
    /// (nanoseconds since the Unix epoch). Fails with `NotAuthenticated`
    /// where no login has succeeded, and with `InvalidTimestamp` where `now`
    /// cannot be written as a timestamp.
    pub fn post_record(&self, content: &str, now: i128) -> (r: Result<HttpRequest, AdapterError>)
        ensures
            match post_record_result(self@, content@, now) {
                Ok(request) => r matches Ok(found) && found@ == request,
                Err(error) => r matches Err(e) && e@ == error,
            },
    {
        self.post_record_stamped(content, rfc3339(now))
    }

    /// The request to send in order to publish `content` with the creation
    /// time `created_at`. Fails with `NotAuthenticated` where no login has
    /// succeeded, and with `InvalidTimestamp` where there is no creation
    /// time.
    pub fn post_record_stamped(&self, content: &str, created_at: Option<String>) -> (r: Result<
        HttpRequest,
        AdapterError,
    >)
        ensures
            match stamped_record_result(self@, content@, opt_text(created_at)) {
                Ok(request) => r matches Ok(found) && found@ == request,
                Err(error) => r matches Err(e) && e@ == error,
            },
    {
        let session = match &self.session {
            Some(session) => session,
            None => {
                return Err(AdapterError::NotAuthenticated);
            },
        };
        let created_at = match created_at {
            Some(text) => text,
            None => {
                return Err(AdapterError::InvalidTimestamp);
            },
        };
        let mut url = self.base_url.clone();
        url.append("/xrpc/com.atproto.repo.createRecord");

        let stamp = string_literal(created_at.as_str());
        let text = string_literal(content);
        let kind = member("$type", "\"app.bsky.feed.post\"");
        let created = member("createdAt", stamp.as_str());
        let said = member("text", text.as_str());
        let mut record = String::from_str("{");
        record.append(kind.as_str());
        record.append(",");
        record.append(created.as_str());
        record.append(",");
        record.append(said.as_str());
        record.append("}");
        assert(record@ == record_text(content@, created_at@));

        let repo = string_literal(session.did.as_str());
        let collection = member("collection", "\"app.bsky.feed.post\"");
        let inner = member("record", record.as_str());
        let owner = member("repo", repo.as_str());
        let mut body = String::from_str("{");
        body.append(collection.as_str());
        body.append(",");
        body.append(inner.as_str());
        body.append(",");
        body.append(owner.as_str());
        body.append("}");
        Ok(HttpRequest { url, bearer: Some(session.access_token.clone()), body })
    }

    /// Reads the reply to a record request. On a 2xx response the body is the
    /// receipt. The attempt fails with `Api` on any other status, and with
    /// `Transport` where no response came.
    pub fn post_record_reply(reply: Result<HttpResponse, String>) -> (r: Result<
        String,
        AdapterError,
    >)
        ensures
            attempt_view(r) == reply_result(reply_view(reply), false),
    {
        read_reply(reply, false)
    }
}

/// Failure isolation: when the login of a client without a session fails,
/// the client still has no session afterwards, and asking it for a post
/// request yields `NotAuthenticated` and no request to send.
pub proof fn lemma_failed_login_blocks_publish(
    client: BlueskyClientView,
    reply: Result<HttpResponseView, Seq<char>>,
    content: Seq<char>,
    now: i128,
)
    requires
        client.session is None,
        login_result(reply) is Err,
    ensures
        after_login(client, reply).session is None,
        post_record_result(after_login(client, reply), content, now) == Err::<
            HttpRequestView,
            AdapterErrorView,
        >(AdapterErrorView::NotAuthenticated),
{
}

/// A login fails exactly when the reply is no 2xx response, or is one whose
/// body does not name both a token and an account.
pub proof fn lemma_login_fails_when(reply: Result<HttpResponseView, Seq<char>>)
    ensures
        login_result(reply) is Err <==> !(reply matches Ok(response) && 200 <= response.status
            < 300 && json_string_member(response.body, "accessJwt"@) is Some
            && json_string_member(response.body, "did"@) is Some),
{
}

} // verus!
