use asocial::http::{HttpResponse, HttpStatus};
use asocial::integrations::bluesky::{session_from, BlueskyClient};
use asocial::integrations::mastodon::MastodonClient;
use asocial::integrations::{read_reply, AdapterError};
use asocial::json::member;

fn response(code: u16, body: &str) -> Result<HttpResponse, String> {
    Ok(HttpResponse { status: HttpStatus::new(code).unwrap(), body: body.to_string() })
}

#[test]
fn status_codes_run_from_100_to_999() {
    assert!(HttpStatus::new(0).is_none());
    assert!(HttpStatus::new(99).is_none());
    assert_eq!(HttpStatus::new(100).unwrap().code(), 100);
    assert_eq!(HttpStatus::new(999).unwrap().code(), 999);
    assert!(HttpStatus::new(1000).is_none());
    assert!(HttpStatus::new(u16::MAX).is_none());
}

#[test]
fn success_is_2xx() {
    assert!(!HttpStatus::new(199).unwrap().is_success());
    assert!(HttpStatus::new(200).unwrap().is_success());
    assert!(HttpStatus::new(201).unwrap().is_success());
    assert!(HttpStatus::new(299).unwrap().is_success());
    assert!(!HttpStatus::new(300).unwrap().is_success());
    assert!(!HttpStatus::new(401).unwrap().is_success());
    assert!(!HttpStatus::new(500).unwrap().is_success());
}

#[test]
fn auth_failures_are_401_and_403() {
    assert!(HttpStatus::new(401).unwrap().is_auth_failure());
    assert!(HttpStatus::new(403).unwrap().is_auth_failure());
    assert!(!HttpStatus::new(400).unwrap().is_auth_failure());
    assert!(!HttpStatus::new(404).unwrap().is_auth_failure());
    assert!(!HttpStatus::new(200).unwrap().is_auth_failure());
}

#[test]
fn status_line_holds_number_and_reason() {
    assert_eq!(HttpStatus::new(200).unwrap().line(), "200 OK");
    assert_eq!(HttpStatus::new(401).unwrap().line(), "401 Unauthorized");
    assert_eq!(HttpStatus::new(503).unwrap().line(), "503 Service Unavailable");
    assert_eq!(HttpStatus::new(799).unwrap().line(), "799 <unknown status code>");
}

#[test]
fn json_member_is_key_colon_value() {
    assert_eq!(member("status", "\"hi\""), "\"status\":\"hi\"");
    assert_eq!(member("n", "{}"), "\"n\":{}");
}

#[test]
fn mastodon_request_carries_token_and_status() {
    let client = MastodonClient::new("https://example.social".to_string(), "tok".to_string());
    let request = client.post_status("Hello world");
    assert_eq!(request.url, "https://example.social/api/v1/statuses");
    assert_eq!(request.bearer.as_deref(), Some("tok"));
    assert_eq!(request.body, "{\"status\":\"Hello world\"}");
    let parsed: serde_json::Value = serde_json::from_str(&request.body).unwrap();
    assert_eq!(parsed.get("status").and_then(|v| v.as_str()), Some("Hello world"));
}

#[test]
fn mastodon_request_escapes_the_content() {
    let client = MastodonClient::new("https://example.social".to_string(), "tok".to_string());
    let content = "say \"hi\"\n\\o/ \u{1F980}";
    let request = client.post_status(content);
    assert_eq!(request.body, "{\"status\":\"say \\\"hi\\\"\\n\\\\o/ \u{1F980}\"}");
    let parsed: serde_json::Value = serde_json::from_str(&request.body).unwrap();
    assert_eq!(parsed.get("status").and_then(|v| v.as_str()), Some(content));
}

#[test]
fn mastodon_reply_success_is_the_receipt() {
    let receipt = MastodonClient::post_status_reply(response(200, "{\"id\":\"1\"}")).unwrap();
    assert_eq!(receipt, "{\"id\":\"1\"}");
}

#[test]
fn mastodon_reply_tells_auth_from_api_errors() {
    match MastodonClient::post_status_reply(response(401, "no")) {
        Err(AdapterError::Auth { status }) => assert_eq!(status.code(), 401),
        other => panic!("{:?}", other),
    }
    match MastodonClient::post_status_reply(response(403, "no")) {
        Err(AdapterError::Auth { status }) => assert_eq!(status.code(), 403),
        other => panic!("{:?}", other),
    }
    match MastodonClient::post_status_reply(response(500, "down")) {
        Err(AdapterError::Api { status }) => assert_eq!(status.code(), 500),
        other => panic!("{:?}", other),
    }
    match MastodonClient::post_status_reply(response(302, "")) {
        Err(AdapterError::Api { status }) => assert_eq!(status.code(), 302),
        other => panic!("{:?}", other),
    }
}

#[test]
fn transport_failure_keeps_its_words() {
    match MastodonClient::post_status_reply(Err("connection refused".to_string())) {
        Err(AdapterError::Transport { detail }) => assert_eq!(detail, "connection refused"),
        other => panic!("{:?}", other),
    }
    match read_reply(Err("timed out".to_string()), false) {
        Err(AdapterError::Transport { detail }) => assert_eq!(detail, "timed out"),
        other => panic!("{:?}", other),
    }
}

#[test]
fn error_descriptions() {
    let auth = AdapterError::Auth { status: HttpStatus::new(401).unwrap() };
    assert_eq!(auth.describe(), "authentication refused: 401 Unauthorized");
    let api = AdapterError::Api { status: HttpStatus::new(502).unwrap() };
    assert_eq!(api.describe(), "API error: 502 Bad Gateway");
    assert_eq!(AdapterError::NotAuthenticated.describe(), "not logged in");
    let transport = AdapterError::Transport { detail: "dns failure".to_string() };
    assert_eq!(transport.describe(), "dns failure");
    assert_eq!(
        AdapterError::MalformedSession.describe(),
        "the session reply names no token or no account"
    );
    assert_eq!(AdapterError::InvalidTimestamp.describe(), "the time of the post is out of range");
}

#[test]
fn bluesky_login_request_posts_the_credentials() {
    let client = BlueskyClient::new("alice.bsky.social".to_string(), "p\"w".to_string());
    assert!(!client.is_logged_in());
    let request = client.login();
    assert_eq!(request.url, "https://bsky.social/xrpc/com.atproto.server.createSession");
    assert_eq!(request.bearer, None);
    assert_eq!(request.body, "{\"identifier\":\"alice.bsky.social\",\"password\":\"p\\\"w\"}");
}

#[test]
fn bluesky_publish_without_login_is_not_authenticated() {
    let client = BlueskyClient::new("alice".to_string(), "pw".to_string());
    assert!(matches!(client.post_record("hi", 0), Err(AdapterError::NotAuthenticated)));
    assert!(matches!(
        client.post_record_stamped("hi", Some("1970-01-01T00:00:00Z".to_string())),
        Err(AdapterError::NotAuthenticated)
    ));
    assert!(matches!(client.post_record_stamped("hi", None), Err(AdapterError::NotAuthenticated)));
}

#[test]
fn bluesky_failed_login_leaves_no_session() {
    let mut client = BlueskyClient::new("alice".to_string(), "wrong".to_string());
    match client.login_reply(response(401, "{\"error\":\"AuthenticationRequired\"}")) {
        Err(AdapterError::Auth { status }) => assert_eq!(status.code(), 401),
        other => panic!("{:?}", other),
    }
    assert!(!client.is_logged_in());
    assert!(matches!(client.post_record("hi", 0), Err(AdapterError::NotAuthenticated)));

    match client.login_reply(response(500, "")) {
        Err(AdapterError::Api { status }) => assert_eq!(status.code(), 500),
        other => panic!("{:?}", other),
    }
    assert!(!client.is_logged_in());

    assert!(matches!(
        client.login_reply(Err("offline".to_string())),
        Err(AdapterError::Transport { .. })
    ));
    assert!(!client.is_logged_in());
}

#[test]
fn bluesky_login_needs_token_and_account() {
    let mut client = BlueskyClient::new("alice".to_string(), "pw".to_string());
    assert!(matches!(
        client.login_reply(response(200, "{\"accessJwt\":\"jwt\"}")),
        Err(AdapterError::MalformedSession)
    ));
    assert!(matches!(
        client.login_reply(response(200, "{\"did\":\"did:plc:1\"}")),
        Err(AdapterError::MalformedSession)
    ));
    assert!(matches!(
        client.login_reply(response(200, "{\"accessJwt\":5,\"did\":\"did:plc:1\"}")),
        Err(AdapterError::MalformedSession)
    ));
    assert!(matches!(
        client.login_reply(response(200, "not json")),
        Err(AdapterError::MalformedSession)
    ));
    assert!(!client.is_logged_in());
    assert!(matches!(session_from(None, None), Err(AdapterError::MalformedSession)));
    assert!(matches!(
        session_from(Some("jwt".to_string()), None),
        Err(AdapterError::MalformedSession)
    ));
    let session = session_from(Some("jwt".to_string()), Some("did:plc:1".to_string())).unwrap();
    assert_eq!(session.access_token, "jwt");
    assert_eq!(session.did, "did:plc:1");
}

#[test]
fn bluesky_publish_after_login_builds_the_record() {
    let mut client = BlueskyClient::new("alice".to_string(), "pw".to_string());
    client
        .login_reply(response(200, "{\"accessJwt\":\"jwt-1\",\"did\":\"did:plc:abc\",\"x\":1}"))
        .unwrap();
    assert!(client.is_logged_in());
    let request = client.post_record("Hello world", 0).unwrap();
    assert_eq!(request.url, "https://bsky.social/xrpc/com.atproto.repo.createRecord");
    assert_eq!(request.bearer.as_deref(), Some("jwt-1"));
    assert_eq!(
        request.body,
        "{\"collection\":\"app.bsky.feed.post\",\"record\":{\"$type\":\"app.bsky.feed.post\",\
         \"createdAt\":\"1970-01-01T00:00:00Z\",\"text\":\"Hello world\"},\
         \"repo\":\"did:plc:abc\"}"
    );
    let parsed: serde_json::Value = serde_json::from_str(&request.body).unwrap();
    assert_eq!(parsed["record"]["text"].as_str(), Some("Hello world"));
    assert_eq!(parsed["repo"].as_str(), Some("did:plc:abc"));
}

#[test]
fn bluesky_record_is_stamped_with_the_time_given() {
    let mut client = BlueskyClient::new("alice".to_string(), "pw".to_string());
    client.login_reply(response(200, "{\"accessJwt\":\"j\",\"did\":\"d\"}")).unwrap();
    let at = 1_546_300_800_000_000_000i128 + 123_000_000;
    let request = client.post_record("x", at).unwrap();
    let parsed: serde_json::Value = serde_json::from_str(&request.body).unwrap();
    assert_eq!(parsed["record"]["createdAt"].as_str(), Some("2019-01-01T00:00:00.123Z"));
    let stamped = client.post_record_stamped("x", Some("then".to_string())).unwrap();
    let parsed: serde_json::Value = serde_json::from_str(&stamped.body).unwrap();
    assert_eq!(parsed["record"]["createdAt"].as_str(), Some("then"));
}

#[test]
fn bluesky_time_out_of_range_is_refused() {
    let mut client = BlueskyClient::new("alice".to_string(), "pw".to_string());
    client.login_reply(response(200, "{\"accessJwt\":\"j\",\"did\":\"d\"}")).unwrap();
    assert!(matches!(client.post_record("x", i128::MAX), Err(AdapterError::InvalidTimestamp)));
    assert!(matches!(client.post_record("x", i128::MIN), Err(AdapterError::InvalidTimestamp)));
    assert!(matches!(client.post_record_stamped("x", None), Err(AdapterError::InvalidTimestamp)));
}

#[test]
fn bluesky_session_is_kept_for_later_posts() {
    let mut client = BlueskyClient::new("alice".to_string(), "pw".to_string());
    client.login_reply(response(200, "{\"accessJwt\":\"j\",\"did\":\"d\"}")).unwrap();
    let first = client.post_record("one", 0).unwrap();
    let second = client.post_record("two", 0).unwrap();
    assert_eq!(first.bearer.as_deref(), Some("j"));
    assert_eq!(second.bearer.as_deref(), Some("j"));
    assert!(client.login_reply(response(401, "")).is_err());
    assert!(client.is_logged_in());
}

#[test]
fn bluesky_publish_reply_reports_every_failure_as_api_error() {
    assert_eq!(BlueskyClient::post_record_reply(response(200, "{\"uri\":\"at://x\"}")).unwrap(), "{\"uri\":\"at://x\"}");
    match BlueskyClient::post_record_reply(response(401, "")) {
        Err(AdapterError::Api { status }) => assert_eq!(status.code(), 401),
        other => panic!("{:?}", other),
    }
    match BlueskyClient::post_record_reply(response(429, "")) {
        Err(AdapterError::Api { status }) => assert_eq!(status.code(), 429),
        other => panic!("{:?}", other),
    }
}
