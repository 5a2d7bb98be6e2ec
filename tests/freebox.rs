use custom_ddns::freebox::{
    FreeboxApiResponse, FreeboxConnection, FreeboxConnectionStatus, FreeboxLoginResult,
    FreeboxSessionResult, FreeboxSource, Reply,
};
use custom_ddns::sources::{IpVersion, SourceError};

fn source() -> FreeboxSource {
    FreeboxSource::new(Some("http://192.168.1.254".to_string()), "Jefe".to_string()).unwrap()
}

fn status(state: &str, ipv4: Option<&str>, ipv6: Option<&str>) -> FreeboxConnectionStatus {
    FreeboxConnectionStatus {
        state: state.to_string(),
        connection_type: "ethernet".to_string(),
        ipv4: ipv4.map(|s| s.to_string()),
        ipv6: ipv6.map(|s| s.to_string()),
    }
}

fn envelope<T>(success: bool, result: T) -> FreeboxApiResponse<T> {
    FreeboxApiResponse { success, result, error_code: None, msg: None }
}

#[test]
fn default_router_address() {
    let s = FreeboxSource::new(None, "t".to_string()).unwrap();
    assert_eq!(s.base_url, "http://mafreebox.freebox.fr");
    assert_eq!(s.login_url(), "http://mafreebox.freebox.fr/api/v13/login/");
    assert_eq!(source().session_url(), "http://192.168.1.254/api/v13/login/session/");
    assert_eq!(source().connection_url(), "http://192.168.1.254/api/v13/connection/");
    assert_eq!(custom_ddns::config::default_freebox_url(), Some("http://mafreebox.freebox.fr".to_string()));
}

#[test]
fn handshake_keeps_challenge_and_token() {
    let mut s = source();
    assert!(matches!(s.session_password(), Err(SourceError::ApiError(_))));
    let login = FreeboxLoginResult {
        logged_in: false,
        challenge: Some("what do ya want for nothing?".to_string()),
        password_salt: Some("salt".to_string()),
        password_set: true,
    };
    s.handle_login(Reply::Decoded(envelope(true, login))).unwrap();
    assert_eq!(s.challenge.as_deref(), Some("what do ya want for nothing?"));
    assert_eq!(s.password_salt.as_deref(), Some("salt"));
    assert_eq!(s.session_password().unwrap(), "effcdf6ae5eb2fa2d27416d5f184df9c259a7c79");
    let req = s.session_request().unwrap();
    assert_eq!(req.app_id, "fr.freebox.cddns");
    assert_eq!(req.password, "effcdf6ae5eb2fa2d27416d5f184df9c259a7c79");
    let session = FreeboxSessionResult { session_token: "tok".to_string(), challenge: None };
    s.handle_session(Reply::Decoded(envelope(true, session))).unwrap();
    assert_eq!(s.auth_token().unwrap(), "tok");
}

#[test]
fn handshake_failures() {
    let mut s = source();
    assert!(matches!(s.handle_login(Reply::Network("timeout".to_string())), Err(SourceError::NetworkError(_))));
    assert!(matches!(
        s.handle_login(Reply::Status(500, "oops".to_string())),
        Err(SourceError::ApiError(_))
    ));
    let login = FreeboxLoginResult { logged_in: false, challenge: Some("c".to_string()), password_salt: None, password_set: true };
    assert!(matches!(s.handle_login(Reply::Decoded(envelope(false, login))), Err(SourceError::ApiError(_))));
    assert!(s.challenge.is_none());
    let session = FreeboxSessionResult { session_token: "tok".to_string(), challenge: None };
    assert!(matches!(s.handle_session(Reply::Decoded(envelope(false, session))), Err(SourceError::ApiError(_))));
    assert!(matches!(s.auth_token(), Err(SourceError::ApiError(_))));
}

#[test]
fn connection_replies() {
    let r = FreeboxSource::handle_connection("tok".to_string(), Reply::Status(401, String::new()));
    assert!(matches!(r, Err(SourceError::AuthenticationError(_))));
    let r = FreeboxSource::handle_connection("tok".to_string(), Reply::Status(503, String::new()));
    assert!(matches!(r, Err(SourceError::ApiError(_))));
    let mut failed = envelope(false, status("up", None, None));
    failed.msg = Some("denied".to_string());
    match FreeboxSource::handle_connection("tok".to_string(), Reply::Decoded(failed)) {
        Err(SourceError::ApiError(m)) => assert_eq!(m, "denied"),
        other => panic!("unexpected {:?}", other),
    }
    let c = FreeboxSource::handle_connection(
        "tok".to_string(),
        Reply::Decoded(envelope(true, status("up", Some("198.51.100.7"), None))),
    )
    .unwrap();
    assert_eq!(c.session_token, "tok");
    assert_eq!(c.status.ipv4.as_deref(), Some("198.51.100.7"));
}

#[test]
fn link_down_is_a_connection_error() {
    let c = FreeboxConnection::new(status("down", Some("198.51.100.7"), None), "tok".to_string());
    let r = FreeboxSource::ip_from_connection(&c, IpVersion::IPv4, None);
    assert!(matches!(r, Err(SourceError::ConnectionError(_))));
}

#[test]
fn address_by_version() {
    let c = FreeboxConnection::new(status("up", Some("198.51.100.7"), None), "tok".to_string());
    let ip = FreeboxSource::ip_from_connection(&c, IpVersion::IPv4, Some(1700000000)).unwrap();
    assert_eq!(ip.address, "198.51.100.7");
    assert_eq!(ip.version, IpVersion::IPv4);
    assert_eq!(ip.last_updated, Some(1700000000));
    assert!(matches!(
        FreeboxSource::ip_from_connection(&c, IpVersion::IPv6, None),
        Err(SourceError::IpNotFoundError(_))
    ));
    let bad = FreeboxConnection::new(status("up", Some("198.51.100"), None), "tok".to_string());
    assert!(matches!(
        FreeboxSource::ip_from_connection(&bad, IpVersion::IPv4, None),
        Err(SourceError::ValidationError(_))
    ));
}

#[test]
fn session_request_without_challenge_fails_and_with_one_succeeds() {
    let mut s = source();
    assert!(matches!(s.session_request(), Err(SourceError::ApiError(_))));
    s.challenge = Some("what do ya want for nothing?".to_string());
    let req = s.session_request().unwrap();
    assert_eq!(req.password, "effcdf6ae5eb2fa2d27416d5f184df9c259a7c79");
}

#[test]
fn failed_status_without_message_is_unknown_error() {
    let failed = envelope(false, status("up", None, None));
    match FreeboxSource::handle_connection("tok".to_string(), Reply::Decoded(failed)) {
        Err(SourceError::ApiError(m)) => assert_eq!(m, "Unknown error"),
        other => panic!("unexpected {:?}", other),
    }
}
