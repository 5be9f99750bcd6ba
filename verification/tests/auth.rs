//! The token cache's single-acquisition discipline, the bearer header
//! encoding, and the credential fallback order.

use gcs_client::HeaderMap;
use gcs_client::Method;
use gcs_client::Request;
use gcs_client::middleware::yup_oauth2::Event;
use gcs_client::middleware::yup_oauth2::FuturePoll;
use gcs_client::middleware::yup_oauth2::Layer;
use gcs_client::token::AccessToken;
use gcs_client::token::Authenticator;
use gcs_client::token::CredentialSource;
use gcs_client::token::TokenAction;
use gcs_client::token::TokenError;
use gcs_client::token::bearer_value;
use gcs_client::token::choose_credential_source;

fn token(bytes: &[u8], expires_at: Option<u64>) -> AccessToken {
    AccessToken {
        token: Some(bytes.to_vec()),
        expires_at,
    }
}

#[test]
fn test_concurrent_requests_single_acquisition() {
    let mut cache = Authenticator::new();
    let now: u64 = 1000;
    let mut begins = 0;
    let mut awaits = 0;
    for _ in 0..5 {
        match cache.token(now) {
            TokenAction::Begin => begins += 1,
            TokenAction::Await => awaits += 1,
            TokenAction::Use(_) => panic!("nothing is cached yet"),
        }
    }
    assert_eq!(begins, 1);
    assert_eq!(awaits, 4);

    cache.fetch_resolved(Ok(token(b"tok-1", Some(2000))));
    for _ in 0..5 {
        match cache.token(now) {
            TokenAction::Use(t) => assert_eq!(t.token, Some(b"tok-1".to_vec())),
            _ => panic!("all requests proceed once the acquisition resolves"),
        }
    }
}

#[test]
fn test_expired_token_triggers_one_refresh() {
    let mut cache = Authenticator::new();
    match cache.token(10) {
        TokenAction::Begin => {}
        _ => panic!(),
    }
    cache.fetch_resolved(Ok(token(b"short", Some(20))));
    match cache.token(19) {
        TokenAction::Use(_) => {}
        _ => panic!("still valid just before expiry"),
    }
    match cache.token(20) {
        TokenAction::Begin => {}
        _ => panic!("expired at its instant, so a refresh begins"),
    }
    match cache.token(20) {
        TokenAction::Await => {}
        _ => panic!("the second request awaits the one refresh"),
    }
}

#[test]
fn test_failed_acquisition_does_not_poison() {
    let mut cache = Authenticator::new();
    match cache.token(0) {
        TokenAction::Begin => {}
        _ => panic!(),
    }
    cache.fetch_resolved(Err(TokenError::Backend("unreachable".to_string())));
    match cache.token(0) {
        TokenAction::Begin => {}
        _ => panic!("a failed acquisition empties the cache for a retry"),
    }
}

#[test]
fn test_bearer_value_encodes_prefix() {
    assert_eq!(bearer_value(b"abc123").unwrap(), b"Bearer abc123".to_vec());
}

#[test]
fn test_bearer_value_rejects_header_unsafe_bytes() {
    assert!(bearer_value(b"ab\ncd").is_err());
    assert!(bearer_value(&[0x7f]).is_err());
    assert!(bearer_value(b"ab\tcd").is_ok());
}

#[test]
fn test_future_attaches_bearer_header() {
    let authenticator = Authenticator::new();
    let layer = Layer { authenticator };
    let mut service = layer.layer(());
    let request: Request<()> = Request {
        method: Method::Get,
        uri: b"https://example".to_vec(),
        headers: HeaderMap::new(),
        body: (),
    };
    let future = service.call(request);
    match future.poll::<u16, String>(Event::TokenResolved(Ok(token(b"tok-9", None)))) {
        FuturePoll::Forward(_, forwarded) => {
            assert_eq!(
                forwarded.headers.get_all(b"authorization"),
                vec![b"Bearer tok-9".to_vec()]
            );
        }
        _ => panic!("a usable token forwards the request"),
    }
}

#[test]
fn test_future_missing_token_bytes_is_auth_error() {
    let future = gcs_client::middleware::yup_oauth2::Future(
        gcs_client::middleware::yup_oauth2::State::S0(Request {
            method: Method::Get,
            uri: b"https://example".to_vec(),
            headers: HeaderMap::new(),
            body: (),
        }),
    );
    let empty = AccessToken {
        token: None,
        expires_at: None,
    };
    match future.poll::<u16, String>(Event::TokenResolved(Ok(empty))) {
        FuturePoll::Ready(Err(gcs_client::middleware::yup_oauth2::Error::Authenticator(
            TokenError::MissingAccessToken,
        ))) => {}
        _ => panic!(),
    }
}

#[test]
fn test_future_unsafe_token_is_encoding_error() {
    let future = gcs_client::yup_oauth2::Future(gcs_client::yup_oauth2::State::S0(Request {
        method: Method::Get,
        uri: b"https://example".to_vec(),
        headers: HeaderMap::new(),
        body: (),
    }));
    match future.poll::<u16, String>(gcs_client::yup_oauth2::Event::TokenResolved(Ok(token(
        b"bad\x01token",
        None,
    )))) {
        gcs_client::yup_oauth2::FuturePoll::Ready(Err(
            gcs_client::yup_oauth2::Error::InvalidBearerToken(_),
        )) => {}
        _ => panic!(),
    }
}

#[test]
fn test_credential_fallback_order() {
    assert_eq!(
        choose_credential_source(true, true, true, true),
        CredentialSource::AuthorizedUser
    );
    assert_eq!(
        choose_credential_source(true, false, true, false),
        CredentialSource::ExternalAccount
    );
    assert_eq!(
        choose_credential_source(true, false, false, true),
        CredentialSource::AdcServiceAccount
    );
    assert_eq!(
        choose_credential_source(false, true, true, false),
        CredentialSource::AdcInstanceMetadata
    );
}
