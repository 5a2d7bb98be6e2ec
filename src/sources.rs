//! Where the current public address comes from.
use vstd::prelude::*;

use crate::text::{chars_of, ipv4_text_ok, is_ipv4_text, split_on, split_ranges};

verus! {

#[derive(Debug)]
pub enum SourceError {
    AuthenticationError(String),
    ApiError(String),
    NetworkError(String),
    ValidationError(String),
    ConnectionError(String),
    IpNotFoundError(String),
}

impl SourceError {
    /// The error as a line of text, the way it is reported.
    pub fn to_text(&self) -> (r: String)
        ensures
            r@ == match *self {
                SourceError::AuthenticationError(m) => "Authentication error: "@ + m@,
                SourceError::ApiError(m) => "API error: "@ + m@,
                SourceError::NetworkError(m) => "Network error: "@ + m@,
                SourceError::ValidationError(m) => "Validation error: "@ + m@,
                SourceError::ConnectionError(m) => "Connection error: "@ + m@,
                SourceError::IpNotFoundError(m) => "IP not found: "@ + m@,
            },
    {
        match self {
            SourceError::AuthenticationError(m) => String::from_str("Authentication error: ").concat(
                m.as_str(),
            ),
            SourceError::ApiError(m) => String::from_str("API error: ").concat(m.as_str()),
            SourceError::NetworkError(m) => String::from_str("Network error: ").concat(m.as_str()),
            SourceError::ValidationError(m) => String::from_str("Validation error: ").concat(
                m.as_str(),
            ),
            SourceError::ConnectionError(m) => String::from_str("Connection error: ").concat(
                m.as_str(),
            ),
            SourceError::IpNotFoundError(m) => String::from_str("IP not found: ").concat(m.as_str()),
        }
    }
}

#[derive(Debug, Clone, Copy, PartialEq, Eq, Structural)]
pub enum IpVersion {
    IPv4,
    IPv6,
}

/// An address as the source reported it; `last_updated` is when, in seconds
/// since the Unix epoch, where known.
#[derive(Debug, Clone)]
pub struct IpAddress {
    pub version: IpVersion,
    pub address: String,
    pub last_updated: Option<u64>,
}

/// IPv4: four dot-separated numbers of at most 255. IPv6: at least one colon
/// and at most eight colon-separated groups.
pub open spec fn ip_text_valid(s: Seq<char>, version: IpVersion) -> bool {
    match version {
        IpVersion::IPv4 => is_ipv4_text(s),
        IpVersion::IPv6 => 2 <= split_on(s, ':').len() <= 8,
    }
}

/// Validate an IP address based on its version
pub fn validate_ip_address(ip: &str, version: &IpVersion) -> (r: Result<(), SourceError>)
    ensures
        r is Ok <==> ip_text_valid(ip@, *version),
        r matches Err(e) ==> e is ValidationError,
{
    let v = chars_of(ip);
    match version {
        IpVersion::IPv4 => {
            if !ipv4_text_ok(&v) {
                return Err(SourceError::ValidationError(String::from_str("Invalid IPv4 address format")));
            }
        },
        IpVersion::IPv6 => {
            let groups = split_ranges(&v, ':').len();
            if !(2 <= groups && groups <= 8) {
                return Err(SourceError::ValidationError(String::from_str("Invalid IPv6 address format")));
            }
        },
    }
    Ok(())
}

} // verus!
