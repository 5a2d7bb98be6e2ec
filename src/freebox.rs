//! The Freebox router's session handshake and connection status.
//!
//! A query runs four legs in order: `GET …/login/` gives a challenge, the
//! session password is the hex HMAC-SHA1 of the challenge keyed with the
//! application token, `POST …/login/session/` trades it for a session token,
//! and `GET …/connection/` with that token gives the addresses. The caller
//! performs each exchange and hands its outcome to the methods here, which
//! decide what it means.
use vstd::prelude::*;

use hmac::{Hmac, Mac};
use sha1::Sha1;

use crate::config::default_router_url;
use crate::sources::{ip_text_valid, validate_ip_address, IpAddress, IpVersion, SourceError};
use crate::text::hex_of;

verus! {

/// The envelope of every answer of the router.
#[derive(Debug)]
pub struct FreeboxApiResponse<T> {
    pub success: bool,
    pub result: T,
    pub error_code: Option<String>,
    pub msg: Option<String>,
}

#[derive(Debug)]
pub struct FreeboxConnectionStatus {
    pub state: String,
    pub connection_type: String,
    pub ipv4: Option<String>,
    pub ipv6: Option<String>,
}

#[derive(Debug)]
pub struct FreeboxConnection {
    pub status: FreeboxConnectionStatus,
    pub session_token: String,
}

impl FreeboxConnection {
    pub fn new(status: FreeboxConnectionStatus, session_token: String) -> (r: Self)
        ensures
            r.status == status,
            r.session_token == session_token,
    {
        FreeboxConnection { status, session_token }
    }
}

#[derive(Debug)]
pub struct FreeboxLoginResult {
    pub logged_in: bool,
    pub challenge: Option<String>,
    pub password_salt: Option<String>,
    pub password_set: bool,
}

#[derive(Debug)]
pub struct FreeboxSessionRequest {
    pub app_id: String,
    pub password: String,
}

#[derive(Debug)]
pub struct FreeboxSessionResult {
    pub session_token: String,
    pub challenge: Option<String>,
}

/// The outcome of one HTTP exchange with the router.
#[derive(Debug)]
pub enum Reply<T> {
    /// The request did not complete (timeout, name resolution, TLS, ...).
    Network(String),
    /// A status other than 200, with the body's text.
    Status(u16, String),
    /// Status 200, with the decoded body.
    Decoded(T),
    /// Status 200, with a body that could not be decoded.
    Malformed(String),
}

/// Session state of one client of the router. A new handshake starts from
/// `login` on every query: nothing is kept between queries but the last values.
#[derive(Debug, Clone)]
pub struct FreeboxSource {
    pub base_url: String,
    pub app_token: String,
    pub challenge: Option<String>,
    pub password_salt: Option<String>,
    pub session_token: Option<String>,
}

pub open spec fn api_path() -> Seq<char> {
    "/api/v13"@
}

pub open spec fn app_id_text() -> Seq<char> {
    "fr.freebox.cddns"@
}

/// What `Hmac<Sha1>` computes over the bytes of `message`, keyed with the bytes of `key`.
pub uninterp spec fn hmac_sha1_of(key: Seq<char>, message: Seq<char>) -> Seq<u8>;

/// Relies on hmac's `Hmac<Sha1>`: `new_from_slice` with the bytes of `key`,
/// `update` with the bytes of `message`, then `finalize`; SHA-1 codes are 20 bytes.
/// HMAC takes keys of any length, so `new_from_slice` does not fail.
#[verifier::external_body]
fn hmac_sha1(key: &str, message: &str) -> (r: Option<Vec<u8>>)
    ensures
        r is Some,
        r matches Some(code) ==> code@ == hmac_sha1_of(key@, message@) && code@.len() == 20,
{
    match Hmac::<Sha1>::new_from_slice(key.as_bytes()) {
        Ok(mut mac) => {
            mac.update(message.as_bytes());
            Some(mac.finalize().into_bytes().to_vec())
        },
        Err(_) => None,
    }
}

/// Relies on `hex::encode`: two lower-case hexadecimal digits per byte, in order.
#[verifier::external_body]
fn hex_encode(bytes: &Vec<u8>) -> (r: String)
    ensures
        r@ == hex_of(bytes@),
{
    hex::encode(bytes)
}

pub open spec fn address_of(status: FreeboxConnectionStatus, version: IpVersion) -> Option<
    String,
> {
    match version {
        IpVersion::IPv4 => status.ipv4,
        IpVersion::IPv6 => status.ipv6,
    }
}

impl FreeboxSource {
    pub fn new(url: Option<String>, app_token: String) -> (r: Result<Self, SourceError>)
        ensures
            r matches Ok(s) && {
                &&& s.base_url@ == (match url {
                    Some(u) => u@,
                    None => default_router_url(),
                })
                &&& s.app_token == app_token
                &&& s.challenge is None
                &&& s.password_salt is None
                &&& s.session_token is None
            },
    {
        let base_url = match url {
            Some(u) => u,
            None => String::from_str("http://mafreebox.freebox.fr"),
        };
        Ok(
            FreeboxSource {
                base_url,
                app_token,
                challenge: None,
                password_salt: None,
                session_token: None,
            },
        )
    }

    fn endpoint(&self, path: &str) -> (r: String)
        ensures
            r@ == self.base_url@ + api_path() + path@,
    {
        String::from_str(self.base_url.as_str()).concat("/api/v13").concat(path)
    }

    pub fn login_url(&self) -> (r: String)
        ensures
            r@ == self.base_url@ + api_path() + "/login/"@,
    {
        self.endpoint("/login/")
    }

    pub fn session_url(&self) -> (r: String)
        ensures
            r@ == self.base_url@ + api_path() + "/login/session/"@,
    {
        self.endpoint("/login/session/")
    }

    pub fn connection_url(&self) -> (r: String)
        ensures
            r@ == self.base_url@ + api_path() + "/connection/"@,
    {
        self.endpoint("/connection/")
    }

    /// Takes in the answer to `GET …/login/`. On success, when the router
    /// reports no session yet, its challenge and password salt are kept.
    pub fn handle_login(&mut self, reply: Reply<FreeboxApiResponse<FreeboxLoginResult>>) -> (r:
        Result<(), SourceError>)
        ensures
            final(self).base_url == old(self).base_url,
            final(self).app_token == old(self).app_token,
            final(self).session_token == old(self).session_token,
            match reply {
                Reply::Network(_) => r matches Err(e) && e is NetworkError,
                Reply::Status(_, _) | Reply::Malformed(_) => r matches Err(e) && e is ApiError,
                Reply::Decoded(resp) => if !resp.success {
                    r matches Err(e) && e is ApiError
                } else {
                    r is Ok
                },
            },
            match reply {
                Reply::Decoded(resp) => if resp.success && !resp.result.logged_in {
                    &&& final(self).challenge == resp.result.challenge
                    &&& final(self).password_salt == resp.result.password_salt
                } else {
                    &&& final(self).challenge == old(self).challenge
                    &&& final(self).password_salt == old(self).password_salt
                },
                _ => {
                    &&& final(self).challenge == old(self).challenge
                    &&& final(self).password_salt == old(self).password_salt
                },
            },
    {
        match reply {
            Reply::Network(m) => Err(SourceError::NetworkError(m)),
            Reply::Status(_, text) => Err(
                SourceError::ApiError(String::from_str("Freebox login error: ").concat(text.as_str())),
            ),
            Reply::Malformed(m) => Err(SourceError::ApiError(m)),
            Reply::Decoded(resp) => {
                if !resp.success {
                    return Err(SourceError::ApiError(String::from_str("Freebox login challenge failure")));
                }
                let result = resp.result;
                if !result.logged_in {
                    self.challenge = result.challenge;
                    self.password_salt = result.password_salt;
                }
                Ok(())
            },
        }
    }

    /// The session password: the lower-case hex HMAC-SHA1 of the challenge,
    /// keyed with the application token.
    pub fn session_password(&self) -> (r: Result<String, SourceError>)
        ensures
            self.challenge is None ==> (r matches Err(e) && e is ApiError),
            self.challenge is Some ==> r is Ok,
            r matches Ok(p) ==> (self.challenge matches Some(c) && p@ == hex_of(
                hmac_sha1_of(self.app_token@, c@),
            )),
            r matches Err(e) ==> e is ApiError,
    {
        let challenge = match &self.challenge {
            Some(c) => c,
            None => {
                return Err(
                    SourceError::ApiError(
                        String::from_str("No challenge available. Call login() first."),
                    ),
                );
            },
        };
        match hmac_sha1(self.app_token.as_str(), challenge.as_str()) {
            Some(code) => Ok(hex_encode(&code)),
            None => Err(SourceError::ApiError(String::from_str("HMAC creation failed"))),
        }
    }

    /// The body of `POST …/login/session/`.
    pub fn session_request(&self) -> (r: Result<FreeboxSessionRequest, SourceError>)
        ensures
            self.challenge is None ==> (r matches Err(e) && e is ApiError),
            self.challenge is Some ==> r is Ok,
            r matches Ok(q) ==> (self.challenge matches Some(c) && q.app_id@ == app_id_text()
                && q.password@ == hex_of(hmac_sha1_of(self.app_token@, c@))),
            r matches Err(e) ==> e is ApiError,
    {
        let password = self.session_password()?;
        Ok(FreeboxSessionRequest { app_id: String::from_str("fr.freebox.cddns"), password })
    }

    /// Takes in the answer to `POST …/login/session/`; on success its
    /// session token is kept.
    pub fn handle_session(&mut self, reply: Reply<FreeboxApiResponse<FreeboxSessionResult>>) -> (r:
        Result<(), SourceError>)
        ensures
            final(self).base_url == old(self).base_url,
            final(self).app_token == old(self).app_token,
            final(self).challenge == old(self).challenge,
            final(self).password_salt == old(self).password_salt,
            match reply {
                Reply::Network(_) => r matches Err(e) && e is NetworkError,
                Reply::Status(_, _) | Reply::Malformed(_) => r matches Err(e) && e is ApiError,
                Reply::Decoded(resp) => if !resp.success {
                    r matches Err(e) && e is ApiError
                } else {
                    r is Ok && final(self).session_token == Some(resp.result.session_token)
                },
            },
            r is Err ==> final(self).session_token == old(self).session_token,
    {
        match reply {
            Reply::Network(m) => Err(SourceError::NetworkError(m)),
            Reply::Status(_, text) => Err(
                SourceError::ApiError(String::from_str("Freebox session error: ").concat(text.as_str())),
            ),
            Reply::Malformed(m) => Err(SourceError::ApiError(m)),
            Reply::Decoded(resp) => {
                if !resp.success {
                    return Err(SourceError::ApiError(String::from_str("Freebox session failure")));
                }
                self.session_token = Some(resp.result.session_token);
                Ok(())
            },
        }
    }

    /// The value of the authentication header of `GET …/connection/`.
    pub fn auth_token(&self) -> (r: Result<String, SourceError>)
        ensures
            match self.session_token {
                Some(t) => r matches Ok(v) && v@ == t@,
                None => r matches Err(e) && e is ApiError,
            },
    {
        match &self.session_token {
            Some(t) => Ok(t.clone()),
            None => Err(
                SourceError::ApiError(
                    String::from_str("No session token available. Call open_session() first."),
                ),
            ),
        }
    }

    /// Takes in the answer to `GET …/connection/`, asked with `token`.
    pub fn handle_connection(
        token: String,
        reply: Reply<FreeboxApiResponse<FreeboxConnectionStatus>>,
    ) -> (r: Result<FreeboxConnection, SourceError>)
        ensures
            match reply {
                Reply::Network(_) => r matches Err(e) && e is NetworkError,
                Reply::Status(code, _) => if code == 401 {
                    r matches Err(e) && e is AuthenticationError
                } else {
                    r matches Err(e) && e is ApiError
                },
                Reply::Malformed(_) => r matches Err(e) && e is ApiError,
                Reply::Decoded(resp) => if !resp.success {
                    r matches Err(SourceError::ApiError(m)) && m@ == match resp.msg {
                        Some(x) => x@,
                        None => "Unknown error"@,
                    }
                } else {
                    r matches Ok(c) && c.status == resp.result && c.session_token == token
                },
            },
    {
        match reply {
            Reply::Network(m) => Err(SourceError::NetworkError(m)),
            Reply::Status(code, text) => {
                if code == 401 {
                    Err(SourceError::AuthenticationError(String::from_str("Invalid API key")))
                } else {
                    Err(
                        SourceError::ApiError(
                            String::from_str("Failed to get connection status: ").concat(
                                text.as_str(),
                            ),
                        ),
                    )
                }
            },
            Reply::Malformed(m) => Err(SourceError::ApiError(m)),
            Reply::Decoded(resp) => {
                if !resp.success {
                    let msg = match resp.msg {
                        Some(m) => m,
                        None => String::from_str("Unknown error"),
                    };
                    return Err(SourceError::ApiError(msg));
                }
                Ok(FreeboxConnection::new(resp.result, token))
            },
        }
    }

    /// The address of the requested version from a connection status: the
    /// link must be up, and the address present and well-formed.
    pub fn ip_from_connection(
        connection: &FreeboxConnection,
        version: IpVersion,
        observed_at: Option<u64>,
    ) -> (r: Result<IpAddress, SourceError>)
        ensures
            connection.status.state@ != "up"@ ==> (r matches Err(e) && e is ConnectionError),
            connection.status.state@ == "up"@ ==> match address_of(connection.status, version) {
                None => r matches Err(e) && e is IpNotFoundError,
                Some(a) => if ip_text_valid(a@, version) {
                    r matches Ok(ip) && ip.version == version && ip.address@ == a@
                        && ip.last_updated == observed_at
                } else {
                    r matches Err(e) && e is ValidationError
                },
            },
    {
        if connection.status.state != String::from_str("up") {
            return Err(
                SourceError::ConnectionError(
                    String::from_str("Connection is not up (state: ").concat(
                        connection.status.state.as_str(),
                    ).concat(")"),
                ),
            );
        }
        let address = match version {
            IpVersion::IPv4 => match &connection.status.ipv4 {
                Some(a) => a.clone(),
                None => {
                    return Err(SourceError::IpNotFoundError(String::from_str("No IPv4 address available")));
                },
            },
            IpVersion::IPv6 => match &connection.status.ipv6 {
                Some(a) => a.clone(),
                None => {
                    return Err(SourceError::IpNotFoundError(String::from_str("No IPv6 address available")));
                },
            },
        };
        validate_ip_address(address.as_str(), &version)?;
        Ok(IpAddress { version, address, last_updated: observed_at })
    }
}

} // verus!
