//! DNS records as the library handles them, and the validators that every
//! provider runs before it changes anything remotely.
use vstd::prelude::*;

use crate::cloudflare::CloudflareDns;
use crate::config::{ConfigDnsProvider, RecordType};
use crate::text::{
    chars_of, ends_with_char, ends_with_dot, ipv4_text_ok, is_hex_digit, is_hex_digit_char,
    is_ipv4_text, parse_uint, parses_uint, split_on, split_ranges, word_ranges, words,
};

verus! {

#[derive(Debug)]
pub enum DnsError {
    ApiError(String),
    ValidationError(String),
    ZoneNotFound(String),
}

impl DnsError {
    /// The error as a line of text, the way it is reported.
    pub fn to_text(&self) -> (r: String)
        ensures
            r@ == match *self {
                DnsError::ApiError(m) => "API error: "@ + m@,
                DnsError::ValidationError(m) => "Validation error: "@ + m@,
                DnsError::ZoneNotFound(m) => "Zone not found: "@ + m@,
            },
    {
        match self {
            DnsError::ApiError(m) => String::from_str("API error: ").concat(m.as_str()),
            DnsError::ValidationError(m) => String::from_str("Validation error: ").concat(
                m.as_str(),
            ),
            DnsError::ZoneNotFound(m) => String::from_str("Zone not found: ").concat(m.as_str()),
        }
    }
}

pub enum DnsClient {
    Cloudflare(CloudflareDns),
}

/// A record as it should be at the provider.
#[derive(Debug, Clone)]
pub struct DnsRecordCloudflare {
    pub id: Option<String>,
    pub name: String,
    pub content: String,
    pub record_type: RecordType,
    pub ttl: u32,
}

#[derive(Debug, Clone)]
pub struct DnsZone {
    pub name: String,
    pub provider: ConfigDnsProvider,
    pub records: Vec<DnsRecordCloudflare>,
}

/// A provider adapter: it checks a record before writing it.
pub trait DnsProvider {
    fn validate_record(&self, record: &DnsRecordCloudflare) -> (r: Result<(), DnsError>)
        ensures
            r is Ok <==> record_valid(*record),
            r matches Err(e) ==> e is ValidationError,
            !name_valid(record.name@) ==> (r matches Err(DnsError::ValidationError(m)) && m@
                == name_error(record.name@)),
            name_valid(record.name@) && !content_valid(record.content@, record.record_type) ==> (
            r matches Err(DnsError::ValidationError(m)) && m@ == content_error(
                record.content@,
                record.record_type,
            )),
            name_valid(record.name@) && content_valid(record.content@, record.record_type)
                && !ttl_valid(record.ttl) ==> (r matches Err(DnsError::ValidationError(m)) && m@
                == ttl_error()),
    ;
}

/// A record name is non-empty and fully qualified.
pub open spec fn name_valid(name: Seq<char>) -> bool {
    name.len() > 0 && ends_with_dot(name)
}

/// Colon-separated segments, each empty or of at most four hexadecimal digits.
pub open spec fn is_ipv6_text(s: Seq<char>) -> bool {
    let p = split_on(s, ':');
    forall|i: int|
        0 <= i < p.len() ==> (#[trigger] p[i]).len() == 0 || (p[i].len() <= 4 && forall|j: int|
            0 <= j < p[i].len() ==> is_hex_digit(p[i][j]))
}

/// Printable ASCII, no control characters.
pub open spec fn is_printable_text(s: Seq<char>) -> bool {
    forall|i: int| 0 <= i < s.len() ==> ' ' <= #[trigger] s[i] && s[i] <= '~'
}

/// `priority weight port target`: three numbers of at most 65535, then a
/// fully-qualified target, separated by whitespace.
pub open spec fn is_srv_text(s: Seq<char>) -> bool {
    let w = words(s);
    &&& w.len() == 4
    &&& parses_uint(w[0], 65535)
    &&& parses_uint(w[1], 65535)
    &&& parses_uint(w[2], 65535)
    &&& ends_with_dot(w[3])
}

/// Whether `s` is acceptable content for a record of type `t`.
pub open spec fn content_valid(s: Seq<char>, t: RecordType) -> bool {
    s.len() > 0 && match t {
        RecordType::A => is_ipv4_text(s),
        RecordType::Aaaa => is_ipv6_text(s),
        RecordType::Cname | RecordType::Mx => ends_with_dot(s),
        RecordType::Txt => is_printable_text(s),
        RecordType::Srv => is_srv_text(s),
    }
}

pub open spec fn ttl_valid(ttl: u32) -> bool {
    60 <= ttl <= 86400
}

/// A record that may be written: valid name, content for its type and TTL.
pub open spec fn record_valid(r: DnsRecordCloudflare) -> bool {
    name_valid(r.name@) && content_valid(r.content@, r.record_type) && ttl_valid(r.ttl)
}

/// The reason a record name is refused.
pub open spec fn name_error(name: Seq<char>) -> Seq<char> {
    if name.len() == 0 {
        "Record name cannot be empty"@
    } else {
        "Record name must end with a dot"@
    }
}

/// The reason service content is refused: the first of its checks that fails.
pub open spec fn srv_error(s: Seq<char>) -> Seq<char> {
    let w = words(s);
    if w.len() != 4 {
        "SRV record must have format: priority weight port target"@
    } else if !(parses_uint(w[0], 65535) && parses_uint(w[1], 65535) && parses_uint(w[2], 65535)) {
        "SRV record priority, weight, and port must be numbers"@
    } else {
        "SRV record target must end with a dot"@
    }
}

/// The reason content is refused for a record of type `t`.
pub open spec fn content_error(s: Seq<char>, t: RecordType) -> Seq<char> {
    if s.len() == 0 {
        "Record content cannot be empty"@
    } else {
        match t {
            RecordType::A => "Invalid IPv4 address format"@,
            RecordType::Aaaa => "Invalid IPv6 address format"@,
            RecordType::Cname | RecordType::Mx => "CNAME and MX records must end with a dot"@,
            RecordType::Txt => "TXT record contains invalid characters"@,
            RecordType::Srv => srv_error(s),
        }
    }
}

pub open spec fn ttl_error() -> Seq<char> {
    "TTL must be between 60 and 86400 seconds"@
}

pub fn validate_record_name(name: &str) -> (r: Result<(), DnsError>)
    ensures
        r is Ok <==> name_valid(name@),
        r matches Err(e) ==> (e matches DnsError::ValidationError(m) && m@ == name_error(name@)),
{
    if name.unicode_len() == 0 {
        return Err(DnsError::ValidationError(String::from_str("Record name cannot be empty")));
    }
    if !ends_with_char(name, '.') {
        return Err(DnsError::ValidationError(String::from_str("Record name must end with a dot")));
    }
    Ok(())
}

fn ipv6_text_ok(v: &Vec<char>) -> (b: bool)
    ensures
        b == is_ipv6_text(v@),
{
    let parts = split_ranges(v, ':');
    let ghost p = split_on(v@, ':');
    let mut k: usize = 0;
    while k < parts.len()
        invariant
            k <= parts@.len(),
            p == split_on(v@, ':'),
            parts@.len() == p.len(),
            forall|j: int|
                0 <= j < parts@.len() ==> {
                    &&& (#[trigger] parts@[j]).0 <= parts@[j].1 <= v@.len()
                    &&& v@.subrange(parts@[j].0 as int, parts@[j].1 as int) == p[j]
                },
            forall|i: int|
                0 <= i < k ==> (#[trigger] p[i]).len() == 0 || (p[i].len() <= 4 && forall|j: int|
                    0 <= j < p[i].len() ==> is_hex_digit(p[i][j])),
        decreases parts@.len() - k,
    {
        let (lo, hi) = parts[k];
        let ghost seg = p[k as int];
        assert(v@.subrange(lo as int, hi as int) == seg);
        if hi - lo > 4 {
            return false;
        }
        let mut i: usize = lo;
        while i < hi
            invariant
                lo <= i <= hi <= v@.len(),
                seg == v@.subrange(lo as int, hi as int),
                seg == p[k as int],
                p == split_on(v@, ':'),
                k < p.len(),
                forall|j: int| 0 <= j < i - lo ==> is_hex_digit(#[trigger] seg[j]),
            decreases hi - i,
        {
            if !is_hex_digit_char(v[i]) {
                assert(seg[i - lo] == v@[i as int]);
                assert(!is_hex_digit(seg[i - lo]));
                return false;
            }
            i += 1;
        }
        k += 1;
    }
    true
}

fn printable_text_ok(v: &Vec<char>) -> (b: bool)
    ensures
        b == is_printable_text(v@),
{
    let mut i: usize = 0;
    while i < v.len()
        invariant
            i <= v@.len(),
            forall|j: int| 0 <= j < i ==> ' ' <= #[trigger] v@[j] && v@[j] <= '~',
        decreases v.len() - i,
    {
        let c = v[i];
        if !(' ' <= c && c <= '~') {
            return false;
        }
        i += 1;
    }
    true
}

fn srv_text_ok(v: &Vec<char>) -> (b: bool)
    ensures
        b == is_srv_text(v@),
{
    let w = word_ranges(v);
    let ghost ws = words(v@);
    if w.len() != 4 {
        return false;
    }
    assert(v@.subrange(w@[0].0 as int, w@[0].1 as int) == ws[0]);
    assert(v@.subrange(w@[1].0 as int, w@[1].1 as int) == ws[1]);
    assert(v@.subrange(w@[2].0 as int, w@[2].1 as int) == ws[2]);
    assert(v@.subrange(w@[3].0 as int, w@[3].1 as int) == ws[3]);
    if parse_uint(v, w[0].0, w[0].1, 65535).is_none() {
        return false;
    }
    if parse_uint(v, w[1].0, w[1].1, 65535).is_none() {
        return false;
    }
    if parse_uint(v, w[2].0, w[2].1, 65535).is_none() {
        return false;
    }
    let (lo, hi) = w[3];
    if hi > lo {
        assert(ws[3].last() == v@[hi - 1]);
    }
    hi > lo && v[hi - 1] == '.'
}

fn srv_message(v: &Vec<char>) -> (m: String)
    requires
        !is_srv_text(v@),
    ensures
        m@ == srv_error(v@),
{
    let w = word_ranges(v);
    let ghost ws = words(v@);
    if w.len() != 4 {
        return String::from_str("SRV record must have format: priority weight port target");
    }
    assert(v@.subrange(w@[0].0 as int, w@[0].1 as int) == ws[0]);
    assert(v@.subrange(w@[1].0 as int, w@[1].1 as int) == ws[1]);
    assert(v@.subrange(w@[2].0 as int, w@[2].1 as int) == ws[2]);
    if parse_uint(v, w[0].0, w[0].1, 65535).is_none() || parse_uint(v, w[1].0, w[1].1, 65535).is_none()
        || parse_uint(v, w[2].0, w[2].1, 65535).is_none() {
        return String::from_str("SRV record priority, weight, and port must be numbers");
    }
    String::from_str("SRV record target must end with a dot")
}

pub fn validate_record_data(content: &str, record_type: &RecordType) -> (r: Result<(), DnsError>)
    ensures
        r is Ok <==> content_valid(content@, *record_type),
        r matches Err(e) ==> (e matches DnsError::ValidationError(m) && m@ == content_error(
            content@,
            *record_type,
        )),
{
    let v = chars_of(content);
    if v.len() == 0 {
        return Err(DnsError::ValidationError(String::from_str("Record content cannot be empty")));
    }
    match record_type {
        RecordType::A => {
            if !ipv4_text_ok(&v) {
                return Err(DnsError::ValidationError(String::from_str("Invalid IPv4 address format")));
            }
        },
        RecordType::Aaaa => {
            if !ipv6_text_ok(&v) {
                return Err(DnsError::ValidationError(String::from_str("Invalid IPv6 address format")));
            }
        },
        RecordType::Cname | RecordType::Mx => {
            if !ends_with_char(content, '.') {
                return Err(
                    DnsError::ValidationError(
                        String::from_str("CNAME and MX records must end with a dot"),
                    ),
                );
            }
        },
        RecordType::Txt => {
            if !printable_text_ok(&v) {
                return Err(
                    DnsError::ValidationError(String::from_str("TXT record contains invalid characters")),
                );
            }
        },
        RecordType::Srv => {
            if !srv_text_ok(&v) {
                return Err(DnsError::ValidationError(srv_message(&v)));
            }
        },
    }
    Ok(())
}

pub fn validate_ttl(ttl: u32) -> (r: Result<(), DnsError>)
    ensures
        r is Ok <==> 60 <= ttl <= 86400,
        r matches Err(e) ==> (e matches DnsError::ValidationError(m) && m@ == ttl_error()),
{
    if !(60 <= ttl && ttl <= 86400) {
        return Err(
            DnsError::ValidationError(String::from_str("TTL must be between 60 and 86400 seconds")),
        );
    }
    Ok(())
}

} // verus!
