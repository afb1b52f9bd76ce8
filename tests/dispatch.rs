use ruma_client::dispatch::{Action, Dispatch, Event, Phase};
use ruma_client::target::{append_access_token, request_uri};
use ruma_client::{ErrorKind, InnerError};
use std::convert::TryFrom;

fn base() -> &'static str {
    "https://example.com:8448/ignored/path?old=1"
}

fn api_error() -> ruma_api::Error {
    let response = http::Response::builder().status(200).body(b"not json".to_vec()).unwrap();
    <ruma_client_api::r0::session::login::Response as ruma_api::Outgoing>::Incoming::try_from(response).unwrap_err()
}

fn encoded(path: &str, query: Option<&str>) -> Event {
    Event::Encoded { path: path.to_string(), query: query.map(|q| q.to_string()) }
}

fn sent_uri(a: Action) -> http::Uri {
    match a {
        Action::Send(uri) => uri,
        other => panic!("expected a send, got {:?}", other),
    }
}

fn failed_kind(a: Action) -> ErrorKind {
    match a {
        Action::Finish(Err(e)) => e.kind(),
        other => panic!("expected a failure, got {:?}", other),
    }
}

#[test]
fn unauthenticated_dispatch_never_reads_the_session() {
    let mut d = Dispatch::new(base(), false);
    let a = d.step(encoded("/_matrix/client/r0/login", None));
    let uri = sent_uri(a);
    assert_eq!(uri.to_string(), "https://example.com:8448/_matrix/client/r0/login");
    assert_eq!(d.phase(), Phase::Sending);
    assert!(matches!(d.step(Event::Responded), Action::Decode));
    assert!(matches!(d.step(Event::Decoded), Action::Finish(Ok(()))));
    assert_eq!(d.phase(), Phase::Done);
}

#[test]
fn unauthenticated_dispatch_keeps_the_endpoint_query() {
    let mut d = Dispatch::new(base(), false);
    let uri = sent_uri(d.step(encoded("/_matrix/client/r0/register", Some("kind=guest"))));
    assert_eq!(uri.path(), "/_matrix/client/r0/register");
    assert_eq!(uri.query(), Some("kind=guest"));
    assert_eq!(uri.host(), Some("example.com"));
    assert_eq!(uri.port_u16(), Some(8448));
}

#[test]
fn authenticated_dispatch_without_session_fails_before_the_transport() {
    let mut d = Dispatch::new(base(), true);
    assert!(matches!(d.step(encoded("/_matrix/client/r0/sync", None)), Action::ReadSession));
    assert_eq!(d.phase(), Phase::Authorizing);
    assert_eq!(failed_kind(d.step(Event::SessionRead(None))), ErrorKind::AuthenticationRequired);
    assert_eq!(d.phase(), Phase::Done);
    // nothing further is sent
    assert!(matches!(d.step(Event::Responded), Action::Idle));
    assert!(matches!(d.step(Event::SessionRead(Some("abc".to_string()))), Action::Idle));
}

#[test]
fn authenticated_dispatch_adds_the_token_once() {
    let mut d = Dispatch::new(base(), true);
    assert!(matches!(d.step(encoded("/_matrix/client/r0/sync", Some("since=s1"))), Action::ReadSession));
    let uri = sent_uri(d.step(Event::SessionRead(Some("abc".to_string()))));
    assert_eq!(uri.path(), "/_matrix/client/r0/sync");
    assert_eq!(uri.query(), Some("since=s1&access_token=abc"));
    let q = uri.query().unwrap();
    assert_eq!(q.split('&').filter(|p| p.starts_with("access_token=")).count(), 1);
}

#[test]
fn authenticated_dispatch_with_empty_query() {
    let mut d = Dispatch::new(base(), true);
    d.step(encoded("/_matrix/client/r0/account/whoami", Some("")));
    let uri = sent_uri(d.step(Event::SessionRead(Some("tok".to_string()))));
    assert_eq!(uri.query(), Some("access_token=tok"));
}

#[test]
fn transport_failure_is_an_http_error() {
    let mut d = Dispatch::new(base(), false);
    sent_uri(d.step(encoded("/_matrix/client/r0/login", None)));
    assert_eq!(failed_kind(d.step(Event::TransportFailed)), ErrorKind::HttpRequester);
    assert_eq!(d.phase(), Phase::Done);
}

#[test]
fn encoding_failure_is_a_conversion_error() {
    let mut d = Dispatch::new(base(), true);
    assert_eq!(failed_kind(d.step(Event::EncodeFailed(api_error()))), ErrorKind::RumaApi);
}

#[test]
fn decoding_failure_is_a_conversion_error() {
    let mut d = Dispatch::new(base(), false);
    sent_uri(d.step(encoded("/x", None)));
    d.step(Event::Responded);
    match d.step(Event::DecodeFailed(api_error())) {
        Action::Finish(Err(e)) => {
            assert_eq!(e.kind(), ErrorKind::RumaApi);
            assert!(matches!(e.0, InnerError::RumaApi(_)));
            assert_eq!(
                e.message(),
                "An error occurred converting between ruma_client_api and hyper types."
            );
        }
        other => panic!("unexpected {:?}", other),
    }
}

#[test]
fn out_of_phase_event_is_ignored() {
    let mut d = Dispatch::new(base(), false);
    assert!(matches!(d.step(Event::Decoded), Action::Idle));
    assert_eq!(d.phase(), Phase::Encoding);
}

#[test]
fn overlong_target_is_a_uri_error() {
    let path = format!("/{}", "a".repeat(70000));
    let mut d = Dispatch::new(base(), false);
    let a = d.step(encoded(&path, None));
    assert_eq!(failed_kind(a), ErrorKind::Uri);
    assert_eq!(d.phase(), Phase::Done);
}

#[test]
fn request_uri_replaces_path_and_query() {
    let uri = request_uri(base(), "/a/b", Some("x=1")).unwrap();
    assert_eq!(uri.to_string(), "https://example.com:8448/a/b?x=1");
    let uri = request_uri(base(), "/a", None).unwrap();
    assert_eq!(uri.to_string(), "https://example.com:8448/a");
}

#[test]
fn token_is_form_encoded() {
    assert_eq!(append_access_token(None, "a b&c=d"), "access_token=a+b%26c%3Dd");
    assert_eq!(append_access_token(Some("k=v"), "abc"), "k=v&access_token=abc");
    assert_eq!(append_access_token(Some(""), "abc"), "access_token=abc");
}

#[test]
fn unparsable_base_is_a_uri_error() {
    let mut d = Dispatch::new("not a url", false);
    assert_eq!(failed_kind(d.step(encoded("/x", None))), ErrorKind::Uri);
    assert!(request_uri("", "/x", None).is_err());
}

#[test]
fn session_step_keeps_path_and_base() {
    let mut d = Dispatch::new("http://localhost:8008", true);
    d.step(encoded("/_matrix/client/r0/joined_rooms", None));
    let uri = sent_uri(d.step(Event::SessionRead(Some("s e".to_string()))));
    assert_eq!(uri.to_string(), "http://localhost:8008/_matrix/client/r0/joined_rooms?access_token=s+e");
}
