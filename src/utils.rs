//! Which address a record type asks for.
use vstd::prelude::*;

use crate::config::RecordType;
use crate::dns::DnsError;
use crate::sources::IpVersion;

verus! {

/// The address version that a record type holds, for the types that hold one.
pub open spec fn version_of(t: RecordType) -> Option<IpVersion> {
    match t {
        RecordType::A => Some(IpVersion::IPv4),
        RecordType::Aaaa => Some(IpVersion::IPv6),
        _ => None,
    }
}

pub fn get_ip_version(record_type: &RecordType) -> (r: Result<IpVersion, DnsError>)
    ensures
        r is Ok <==> version_of(*record_type) is Some,
        r matches Ok(v) ==> version_of(*record_type) == Some(v),
        r matches Err(e) ==> e is ValidationError,
{
    match record_type {
        RecordType::A => Ok(IpVersion::IPv4),
        RecordType::Aaaa => Ok(IpVersion::IPv6),
        _ => Err(DnsError::ValidationError(String::from_str("Unsupported record type for IP retrieval"))),
    }
}

} // verus!
