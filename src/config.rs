//! Configuration values, as handed to the library once they have been loaded.
use vstd::prelude::*;

verus! {

#[derive(Debug, Clone, Copy, PartialEq, Eq, Structural)]
pub enum HttpMethod {
    Get,
    Post,
}

/// The kinds of DNS record that can be managed.
#[derive(Debug, Clone, Copy, PartialEq, Eq, Structural)]
pub enum RecordType {
    A,
    Aaaa,
    Cname,
    Mx,
    Txt,
    Srv,
}

/// The name a record type is written with.
pub open spec fn record_type_text(t: RecordType) -> Seq<char> {
    match t {
        RecordType::A => "A"@,
        RecordType::Aaaa => "AAAA"@,
        RecordType::Cname => "CNAME"@,
        RecordType::Mx => "MX"@,
        RecordType::Txt => "TXT"@,
        RecordType::Srv => "SRV"@,
    }
}

/// The record type whose name is exactly `s`, if any.
pub open spec fn type_named(s: Seq<char>) -> Option<RecordType> {
    if s == "A"@ {
        Some(RecordType::A)
    } else if s == "AAAA"@ {
        Some(RecordType::Aaaa)
    } else if s == "CNAME"@ {
        Some(RecordType::Cname)
    } else if s == "MX"@ {
        Some(RecordType::Mx)
    } else if s == "TXT"@ {
        Some(RecordType::Txt)
    } else if s == "SRV"@ {
        Some(RecordType::Srv)
    } else {
        None
    }
}

/// What `str::to_uppercase` gives for a text.
pub uninterp spec fn upper_of(s: Seq<char>) -> Seq<char>;

/// Relies on `str::to_uppercase`: the upper-case mapping of each character,
/// which depends on the text alone.
#[verifier::external_body]
fn to_upper(s: &str) -> (r: String)
    ensures
        r@ == upper_of(s@),
{
    s.to_uppercase()
}

fn same_text(a: &str, b: &str) -> (r: bool)
    ensures
        r == (a@ == b@),
{
    String::from_str(a) == String::from_str(b)
}

impl RecordType {
    /// The name of the record type (`"A"`, `"AAAA"`, ...).
    pub fn to_text(&self) -> (r: String)
        ensures
            r@ == record_type_text(*self),
    {
        match self {
            RecordType::A => String::from_str("A"),
            RecordType::Aaaa => String::from_str("AAAA"),
            RecordType::Cname => String::from_str("CNAME"),
            RecordType::Mx => String::from_str("MX"),
            RecordType::Txt => String::from_str("TXT"),
            RecordType::Srv => String::from_str("SRV"),
        }
    }

    /// The record type named exactly by `upper`, an already upper-cased text.
    pub fn from_upper(upper: &str) -> (r: Option<RecordType>)
        ensures
            r == type_named(upper@),
    {
        if same_text(upper, "A") {
            Some(RecordType::A)
        } else if same_text(upper, "AAAA") {
            Some(RecordType::Aaaa)
        } else if same_text(upper, "CNAME") {
            Some(RecordType::Cname)
        } else if same_text(upper, "MX") {
            Some(RecordType::Mx)
        } else if same_text(upper, "TXT") {
            Some(RecordType::Txt)
        } else if same_text(upper, "SRV") {
            Some(RecordType::Srv)
        } else {
            None
        }
    }

    /// Reads a record type name in any letter case.
    pub fn parse(s: &str) -> (r: Result<RecordType, String>)
        ensures
            r is Ok <==> type_named(upper_of(s@)) is Some,
            r matches Ok(t) ==> type_named(upper_of(s@)) == Some(t),
    {
        let upper = to_upper(s);
        match RecordType::from_upper(upper.as_str()) {
            Some(t) => Ok(t),
            None => Err(String::from_str("Invalid record type: ").concat(s)),
        }
    }
}

impl std::str::FromStr for RecordType {
    type Err = String;

    fn from_str(s: &str) -> Result<RecordType, String> {
        RecordType::parse(s)
    }
}

#[derive(Debug, Clone, Copy, PartialEq, Eq, Structural)]
pub enum ConfigDnsProvider {
    Cloudflare,
}

#[derive(Debug, Clone, Copy)]
pub struct RateLimit {
    pub requests_per_second: u32,
    pub burst_size: u32,
}

#[derive(Debug)]
pub struct Config {
    pub dns_records: Vec<DnsRecordConfig>,
}

#[derive(Debug)]
pub struct DnsRecordConfig {
    pub name: String,
    pub source: Source,
    pub domain: Domain,
}

#[derive(Debug)]
pub struct Source {
    pub freebox: Option<Freebox>,
    pub check_interval_in_seconds: u64,
}

#[derive(Debug, Clone)]
pub struct Freebox {
    pub url: Option<String>,
    pub token: String,
}

/// The router's address when the configuration names none.
pub open spec fn default_router_url() -> Seq<char> {
    "http://mafreebox.freebox.fr"@
}

pub fn default_freebox_url() -> (r: Option<String>)
    ensures
        r matches Some(u) && u@ == default_router_url(),
{
    Some(String::from_str("http://mafreebox.freebox.fr"))
}

#[derive(Debug)]
pub struct Domain {
    pub provider: ConfigDnsProvider,
    pub domain_name: String,
    pub record_name: String,
    pub record_type: RecordType,
    pub record_ttl: u32,
    pub api_key: Option<String>,
    pub email: Option<String>,
    pub zone_id: Option<String>,
}

} // verus!
