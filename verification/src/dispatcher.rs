//! The dispatcher: from the payload of a claimed job to a delivery attempt
//! and its outcome.
//!
//! A delivery is a short exchange. `begin` looks at the payload and either
//! ends the delivery at once or names the first request to send; `advance`
//! takes each reply and names the next request or the outcome.

use vstd::prelude::*;
use vstd::string::*;
use crate::http::{HttpRequest, HttpRequestView, HttpResponse, HttpResponseView, reply_view};
use crate::integrations::{error_text, reply_result, AdapterError, AdapterErrorView};
use crate::integrations::bluesky::{
    after_login, login_request, login_result, post_record_result, BlueskyClient, BlueskyClientView,
};
use crate::integrations::mastodon::{status_request, MastodonClient, MastodonClientView};
use crate::job_queue::{JobPayload, JobPayloadView};
use crate::json::{json_string_member, string_member};
use crate::text::opt_text;

verus! {

/// The platforms the dispatcher can deliver to.
#[derive(Clone, Copy, Debug, PartialEq, Eq, Structural)]
pub enum Platform {
    Mastodon,
    Bluesky,
}

/// The step of a delivery at which something went wrong.
#[derive(Clone, Copy, Debug, PartialEq, Eq, Structural)]
pub enum Stage {
    Login,
    Publish,
}

/// A member of the credentials document.
#[derive(Clone, Copy, Debug, PartialEq, Eq, Structural)]
pub enum Credential {
    AccessToken,
    Identifier,
    Password,
}

/// The registry: the platform that a target's name stands for, by exact
/// match.
pub open spec fn platform_of(name: Seq<char>) -> Option<Platform> {
    if name == "mastodon"@ || name == "test_platform"@ || name == "dummy_platform"@ {
        Some(Platform::Mastodon)
    } else if name == "bluesky"@ {
        Some(Platform::Bluesky)
    } else {
        None
    }
}

/// Looks a platform name up in the registry.
pub fn resolve_platform(name: &str) -> (r: Option<Platform>)
    ensures
        r == platform_of(name@),
{
    let given = String::from_str(name);
    if given == String::from_str("mastodon") || given == String::from_str("test_platform") || given
        == String::from_str("dummy_platform") {
        Some(Platform::Mastodon)
    } else if given == String::from_str("bluesky") {
        Some(Platform::Bluesky)
    } else {
        None
    }
}

/// The key under which a credential stands in the credentials document.
pub open spec fn credential_key(field: Credential) -> Seq<char> {
    match field {
        Credential::AccessToken => "access_token"@,
        Credential::Identifier => "identifier"@,
        Credential::Password => "password"@,
    }
}

impl Credential {
    /// The key under which this credential stands in the credentials
    /// document.
    pub fn key(&self) -> (r: &'static str)
        ensures
            r@ == credential_key(*self),
    {
        match self {
            Credential::AccessToken => "access_token",
            Credential::Identifier => "identifier",
            Credential::Password => "password",
        }
    }
}

/// The result of one dispatch attempt.
#[derive(Debug)]
pub enum Outcome {
    /// The platform took the post and answered with a receipt.
    Delivered { platform: Platform, receipt: String },
    /// The adapter failed; its error is kept as it was.
    DeliveryFailed { platform: Platform, stage: Stage, error: AdapterError },
    /// The target's name stands for no platform in the registry.
    UnknownPlatform { name: String },
    /// The credentials document lacks a member the adapter needs.
    MissingCredential { platform: Platform, field: Credential },
    /// The payload of the job could not be assembled.
    NotFound,
    /// The store could not be asked for the payload; the store's own words.
    StoreUnavailable { detail: String },
}

/// What an [`Outcome`] holds, as mathematical values.
pub enum OutcomeView {
    Delivered { platform: Platform, receipt: Seq<char> },
    DeliveryFailed { platform: Platform, stage: Stage, error: AdapterErrorView },
    UnknownPlatform { name: Seq<char> },
    MissingCredential { platform: Platform, field: Credential },
    NotFound,
    StoreUnavailable { detail: Seq<char> },
}

impl View for Outcome {
    type V = OutcomeView;

    open spec fn view(&self) -> OutcomeView {
        match self {
            Outcome::Delivered { platform, receipt } => OutcomeView::Delivered {
                platform: *platform,
                receipt: receipt@,
            },
            Outcome::DeliveryFailed { platform, stage, error } => OutcomeView::DeliveryFailed {
                platform: *platform,
                stage: *stage,
                error: error@,
            },
            Outcome::UnknownPlatform { name } => OutcomeView::UnknownPlatform { name: name@ },
            Outcome::MissingCredential { platform, field } => OutcomeView::MissingCredential {
                platform: *platform,
                field: *field,
            },
            Outcome::NotFound => OutcomeView::NotFound,
            Outcome::StoreUnavailable { detail } => OutcomeView::StoreUnavailable {
                detail: detail@,
            },
        }
    }
}

impl Clone for Outcome {
    fn clone(&self) -> (r: Outcome)
        ensures
            r@ == self@,
    {
        match self {
            Outcome::Delivered { platform, receipt } => Outcome::Delivered {
                platform: *platform,
                receipt: receipt.clone(),
            },
            Outcome::DeliveryFailed { platform, stage, error } => Outcome::DeliveryFailed {
                platform: *platform,
                stage: *stage,
                error: error.clone(),
            },
            Outcome::UnknownPlatform { name } => Outcome::UnknownPlatform { name: name.clone() },
            Outcome::MissingCredential { platform, field } => Outcome::MissingCredential {
                platform: *platform,
                field: *field,
            },
            Outcome::NotFound => Outcome::NotFound,
            Outcome::StoreUnavailable { detail } => Outcome::StoreUnavailable {
                detail: detail.clone(),
            },
        }
    }
}

/// The words that introduce an adapter's error.
pub open spec fn failure_prefix(platform: Platform, stage: Stage) -> Seq<char> {
    match (platform, stage) {
        (Platform::Mastodon, _) => "Mastodon Error: "@,
        (Platform::Bluesky, Stage::Login) => "Bluesky Login Error: "@,
        (Platform::Bluesky, Stage::Publish) => "Bluesky Post Error: "@,
    }
}

/// The diagnostic an outcome leaves on its job: none for a delivery, and for
/// a failure a text that names what failed and keeps the adapter's own detail
/// unchanged at its end.
pub open spec fn failure_text(outcome: OutcomeView) -> Option<Seq<char>> {
    match outcome {
        OutcomeView::Delivered { .. } => None,
        OutcomeView::DeliveryFailed { platform, stage, error } => Some(
            failure_prefix(platform, stage) + error_text(error),
        ),
        OutcomeView::UnknownPlatform { name } => Some("Unknown platform: "@ + name),
        OutcomeView::MissingCredential { platform, field } => Some(
            "Missing credential: "@ + credential_key(field),
        ),
        OutcomeView::NotFound => Some("Job details not found"@),
        OutcomeView::StoreUnavailable { detail } => Some("Job store error: "@ + detail),
    }
}

/// The line an outcome leaves in the activity feed.
pub open spec fn summary_text(outcome: OutcomeView) -> Seq<char> {
    match outcome {
        OutcomeView::Delivered { platform, .. } => match platform {
            Platform::Mastodon => "Job Success: Posted to Mastodon"@,
            Platform::Bluesky => "Job Success: Posted to Bluesky"@,
        },
        _ => "Job Failed: "@ + failure_text(outcome)->0,
    }
}

impl Outcome {
    /// Whether the post was delivered.
    pub fn is_delivered(&self) -> (r: bool)
        ensures
            r == self@ is Delivered,
    {
        match self {
            Outcome::Delivered { .. } => true,
            _ => false,
        }
    }

    /// The diagnostic this outcome leaves on its job, if it is a failure.
    pub fn failure(&self) -> (r: Option<String>)
        ensures
            opt_text(r) == failure_text(self@),
    {
        match self {
            Outcome::Delivered { .. } => None,
            Outcome::DeliveryFailed { platform, stage, error } => {
                let mut out = match (platform, stage) {
                    (Platform::Mastodon, _) => String::from_str("Mastodon Error: "),
                    (Platform::Bluesky, Stage::Login) => String::from_str("Bluesky Login Error: "),
                    (Platform::Bluesky, Stage::Publish) => String::from_str(
                        "Bluesky Post Error: ",
                    ),
                };
                let detail = error.describe();
                out.append(detail.as_str());
                Some(out)
            },
            Outcome::UnknownPlatform { name } => {
                let mut out = String::from_str("Unknown platform: ");
                out.append(name.as_str());
                Some(out)
            },
            Outcome::MissingCredential { platform, field } => {
                let mut out = String::from_str("Missing credential: ");
                out.append(field.key());
                Some(out)
            },
            Outcome::NotFound => Some(String::from_str("Job details not found")),
            Outcome::StoreUnavailable { detail } => {
                let mut out = String::from_str("Job store error: ");
                out.append(detail.as_str());
                Some(out)
            },
        }
    }

    /// The line this outcome leaves in the activity feed.
    pub fn summary(&self) -> (r: String)
        ensures
            r@ == summary_text(self@),
    {
        match self.failure() {
            Some(text) => {
                let mut out = String::from_str("Job Failed: ");
                out.append(text.as_str());
                out
            },
            None => match self {
                Outcome::Delivered { platform: Platform::Bluesky, .. } => String::from_str(
                    "Job Success: Posted to Bluesky",
                ),
                _ => String::from_str("Job Success: Posted to Mastodon"),
            },
        }
    }
}

/// A delivery that waits for a reply.
#[derive(Debug)]
pub enum Dispatch {
    /// The status request of the stateless-token adapter is out.
    AwaitingStatus,
    /// The login of the session-based adapter is out; `content` is still to
    /// be published.
    AwaitingLogin { client: BlueskyClient, content: String },
    /// The record request of the session-based adapter is out.
    AwaitingRecord,
}

/// What a [`Dispatch`] holds, as mathematical values.
pub enum DispatchView {
    AwaitingStatus,
    AwaitingLogin { client: BlueskyClientView, content: Seq<char> },
    AwaitingRecord,
}

impl View for Dispatch {
    type V = DispatchView;

    open spec fn view(&self) -> DispatchView {
        match self {
            Dispatch::AwaitingStatus => DispatchView::AwaitingStatus,
            Dispatch::AwaitingLogin { client, content } => DispatchView::AwaitingLogin {
                client: client@,
                content: content@,
            },
            Dispatch::AwaitingRecord => DispatchView::AwaitingRecord,
        }
    }
}

/// What the dispatcher asks for next.
#[derive(Debug)]
pub enum Step {
    /// Send `request`, and hand the reply to `advance` together with `then`.
    Send { request: HttpRequest, then: Dispatch },
    /// The delivery is over.
    Finished { outcome: Outcome },
}

/// What a [`Step`] holds, as mathematical values.
pub enum StepView {
    Send { request: HttpRequestView, then: DispatchView },
    Finished { outcome: OutcomeView },
}

impl View for Step {
    type V = StepView;

    open spec fn view(&self) -> StepView {
        match self {
            Step::Send { request, then } => StepView::Send { request: request@, then: then@ },
            Step::Finished { outcome } => StepView::Finished { outcome: outcome@ },
        }
    }
}

/// The server a Mastodon target is reached at: its own URL, or the main
/// server where it names none.
pub open spec fn mastodon_base_url(api_url: Option<Seq<char>>) -> Seq<char> {
    match api_url {
        Some(url) => url,
        None => "https://mastodon.social"@,
    }
}

/// What a credentials document holds for the adapters: each member is
/// there, as a string, or is not.
#[derive(Debug)]
pub struct Credentials {
    pub access_token: Option<String>,
    pub identifier: Option<String>,
    pub password: Option<String>,
}

/// What [`Credentials`] hold, as mathematical values.
pub struct CredentialsView {
    pub access_token: Option<Seq<char>>,
    pub identifier: Option<Seq<char>>,
    pub password: Option<Seq<char>>,
}

impl View for Credentials {
    type V = CredentialsView;

    open spec fn view(&self) -> CredentialsView {
        CredentialsView {
            access_token: opt_text(self.access_token),
            identifier: opt_text(self.identifier),
            password: opt_text(self.password),
        }
    }
}

/// The credentials that a JSON document holds.
pub open spec fn credentials_of(document: Seq<char>) -> CredentialsView {
    CredentialsView {
        access_token: json_string_member(document, credential_key(Credential::AccessToken)),
        identifier: json_string_member(document, credential_key(Credential::Identifier)),
        password: json_string_member(document, credential_key(Credential::Password)),
    }
}

/// Reads the credentials out of a JSON document.
pub fn read_credentials(document: &str) -> (r: Credentials)
    ensures
        r@ == credentials_of(document@),
{
    Credentials {
        access_token: string_member(document, Credential::AccessToken.key()),
        identifier: string_member(document, Credential::Identifier.key()),
        password: string_member(document, Credential::Password.key()),
    }
}

/// The first step of a delivery, for credentials that are already read.
///
/// A name that stands for no platform ends the delivery with
/// `UnknownPlatform`, which carries the name; no request is made. Credentials
/// that lack a member the adapter needs end it with `MissingCredential`.
/// Otherwise the first request of the adapter is to be sent: the status
/// request for Mastodon, the login for Bluesky.
pub open spec fn first_step_with(payload: JobPayloadView, credentials: CredentialsView) -> StepView {
    match platform_of(payload.platform_name) {
        None => StepView::Finished {
            outcome: OutcomeView::UnknownPlatform { name: payload.platform_name },
        },
        Some(Platform::Mastodon) => match credentials.access_token {
            None => StepView::Finished {
                outcome: OutcomeView::MissingCredential {
                    platform: Platform::Mastodon,
                    field: Credential::AccessToken,
                },
            },
            Some(access_token) => StepView::Send {
                request: status_request(
                    MastodonClientView {
                        base_url: mastodon_base_url(payload.api_url),
                        access_token,
                    },
                    payload.content,
                ),
                then: DispatchView::AwaitingStatus,
            },
        },
        Some(Platform::Bluesky) => match credentials.identifier {
            None => StepView::Finished {
                outcome: OutcomeView::MissingCredential {
                    platform: Platform::Bluesky,
                    field: Credential::Identifier,
                },
            },
            Some(identifier) => match credentials.password {
                None => StepView::Finished {
                    outcome: OutcomeView::MissingCredential {
                        platform: Platform::Bluesky,
                        field: Credential::Password,
                    },
                },
                Some(password) => {
                    let client = BlueskyClientView {
                        identifier,
                        password,
                        base_url: "https://bsky.social"@,
                        session: None,
                    };
                    StepView::Send {
                        request: login_request(client),
                        then: DispatchView::AwaitingLogin { client, content: payload.content },
                    }
                },
            },
        },
    }
}

/// The first step of a delivery: that for the credentials which the
/// payload's credentials document holds.
pub open spec fn first_step(payload: JobPayloadView) -> StepView {
    first_step_with(payload, credentials_of(payload.credentials))
}

/// The outcome of a publish request, from the adapter's reading of the
/// reply.
pub open spec fn publish_outcome(
    platform: Platform,
    result: Result<Seq<char>, AdapterErrorView>,
) -> OutcomeView {
    match result {
        Ok(receipt) => OutcomeView::Delivered { platform, receipt },
        Err(error) => OutcomeView::DeliveryFailed { platform, stage: Stage::Publish, error },
    }
}

/// The step that follows a reply.
///
/// The reply to a publish request ends the delivery: `Delivered` with the
/// receipt, or `DeliveryFailed` with the adapter's error. The reply to a
/// login either ends the delivery with the login's error, and then no
/// publish request is made, or is followed by the record request, stamped
/// with `now`.
pub open spec fn next_step(
    state: DispatchView,
    reply: Result<HttpResponseView, Seq<char>>,
    now: i128,
) -> StepView {
    match state {
        DispatchView::AwaitingStatus => StepView::Finished {
            outcome: publish_outcome(Platform::Mastodon, reply_result(reply, true)),
        },
        DispatchView::AwaitingLogin { client, content } => match login_result(reply) {
            Err(error) => StepView::Finished {
                outcome: OutcomeView::DeliveryFailed {
                    platform: Platform::Bluesky,
                    stage: Stage::Login,
                    error,
                },
            },
            Ok(_) => match post_record_result(after_login(client, reply), content, now) {
                Ok(request) => StepView::Send { request, then: DispatchView::AwaitingRecord },
                Err(error) => StepView::Finished {
                    outcome: OutcomeView::DeliveryFailed {
                        platform: Platform::Bluesky,
                        stage: Stage::Publish,
                        error,
                    },
                },
            },
        },
        DispatchView::AwaitingRecord => StepView::Finished {
            outcome: publish_outcome(Platform::Bluesky, reply_result(reply, false)),
        },
    }
}

/// Starts the delivery of a payload, as [`first_step`] says.
pub fn begin(payload: &JobPayload) -> (r: Step)
    ensures
        r@ == first_step(payload@),
{
    begin_with(payload, read_credentials(payload.credentials.as_str()))
}

/// Starts the delivery of a payload with credentials that are already read,
/// as [`first_step_with`] says.
pub fn begin_with(payload: &JobPayload, credentials: Credentials) -> (r: Step)
    ensures
        r@ == first_step_with(payload@, credentials@),
{
    match resolve_platform(payload.platform_name.as_str()) {
        None => Step::Finished {
            outcome: Outcome::UnknownPlatform { name: payload.platform_name.clone() },
        },
        Some(Platform::Mastodon) => {
            let access_token = match credentials.access_token {
                Some(token) => token,
                None => {
                    return Step::Finished {
                        outcome: Outcome::MissingCredential {
                            platform: Platform::Mastodon,
                            field: Credential::AccessToken,
                        },
                    };
                },
            };
            let base_url = match &payload.api_url {
                Some(url) => url.clone(),
                None => String::from_str("https://mastodon.social"),
            };
            let client = MastodonClient::new(base_url, access_token);
            Step::Send {
                request: client.post_status(payload.content.as_str()),
                then: Dispatch::AwaitingStatus,
            }
        },
        Some(Platform::Bluesky) => {
            let identifier = match credentials.identifier {
                Some(identifier) => identifier,
                None => {
                    return Step::Finished {
                        outcome: Outcome::MissingCredential {
                            platform: Platform::Bluesky,
                            field: Credential::Identifier,
                        },
                    };
                },
            };
            let password = match credentials.password {
                Some(password) => password,
                None => {
                    return Step::Finished {
                        outcome: Outcome::MissingCredential {
                            platform: Platform::Bluesky,
                            field: Credential::Password,
                        },
                    };
                },
            };
            let client = BlueskyClient::new(identifier, password);
            let request = client.login();
            Step::Send {
                request,
                then: Dispatch::AwaitingLogin { client, content: payload.content.clone() },
            }
        },
    }
}

/// Takes the reply to the request that is out, as [`next_step`] says. `now`
/// is the time of the call, in nanoseconds since the Unix epoch.
pub fn advance(state: Dispatch, reply: Result<HttpResponse, String>, now: i128) -> (r: Step)
    ensures
        r@ == next_step(state@, reply_view(reply), now),
{
    match state {
        Dispatch::AwaitingStatus => {
            let outcome = match MastodonClient::post_status_reply(reply) {
                Ok(receipt) => Outcome::Delivered { platform: Platform::Mastodon, receipt },
                Err(error) => Outcome::DeliveryFailed {
                    platform: Platform::Mastodon,
                    stage: Stage::Publish,
                    error,
                },
            };
            Step::Finished { outcome }
        },
        Dispatch::AwaitingLogin { client, content } => {
            let mut client = client;
            match client.login_reply(reply) {
                Err(error) => Step::Finished {
                    outcome: Outcome::DeliveryFailed {
                        platform: Platform::Bluesky,
                        stage: Stage::Login,
                        error,
                    },
                },
                Ok(()) => match client.post_record(content.as_str(), now) {
                    Ok(request) => Step::Send { request, then: Dispatch::AwaitingRecord },
                    Err(error) => Step::Finished {
                        outcome: Outcome::DeliveryFailed {
                            platform: Platform::Bluesky,
                            stage: Stage::Publish,
                            error,
                        },
                    },
                },
            }
        },
        Dispatch::AwaitingRecord => {
            let outcome = match BlueskyClient::post_record_reply(reply) {
                Ok(receipt) => Outcome::Delivered { platform: Platform::Bluesky, receipt },
                Err(error) => Outcome::DeliveryFailed {
                    platform: Platform::Bluesky,
                    stage: Stage::Publish,
                    error,
                },
            };
            Step::Finished { outcome }
        },
    }
}

/// An unknown platform is no crash and reaches no adapter: for a name that
/// is not in the registry the delivery is over at once, with an outcome that
/// carries the name, and nothing is to be sent.
pub proof fn lemma_unknown_platform_sends_nothing(payload: JobPayloadView)
    requires
        platform_of(payload.platform_name) is None,
    ensures
        first_step(payload) == (StepView::Finished {
            outcome: OutcomeView::UnknownPlatform { name: payload.platform_name },
        }),
        !(first_step(payload) is Send),
{
}

/// A failed login is where a delivery ends: the outcome is the login's own
/// error, and no publish request is to be sent.
pub proof fn lemma_failed_login_ends_delivery(
    client: BlueskyClientView,
    content: Seq<char>,
    reply: Result<HttpResponseView, Seq<char>>,
    now: i128,
)
    requires
        login_result(reply) is Err,
    ensures
        next_step(DispatchView::AwaitingLogin { client, content }, reply, now) == (
        StepView::Finished {
            outcome: OutcomeView::DeliveryFailed {
                platform: Platform::Bluesky,
                stage: Stage::Login,
                error: login_result(reply)->Err_0,
            },
        }),
        after_login(client, reply) == client,
{
}

/// A delivery takes at most two requests: after the reply to a request that
/// followed a login, it is over.
pub proof fn lemma_delivery_ends(
    state: DispatchView,
    first: Result<HttpResponseView, Seq<char>>,
    second: Result<HttpResponseView, Seq<char>>,
    now: i128,
    later: i128,
)
    ensures
        match next_step(state, first, now) {
            StepView::Finished { .. } => true,
            StepView::Send { then, .. } => next_step(then, second, later) is Finished,
        },
{
}

} // verus!
