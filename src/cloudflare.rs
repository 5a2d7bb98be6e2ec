//! Reconciliation of one desired record against a Cloudflare zone: find the
//! record of the same name and type, then plan a create or an update.
//! The provider calls themselves are made by the caller, which hands the
//! listings to these functions and performs the write they return.
use vstd::prelude::*;

use crate::config::{record_type_text, RecordType};
use crate::dns::{
    validate_record_data, validate_record_name, validate_ttl, DnsError,
    DnsProvider, DnsRecordCloudflare,
};
use crate::text::{
    chars_of, digits_value, ends_with_char, ends_with_dot, is_std_ipv4, is_std_ipv6, normalized,
    parse_uint, parses_uint, std_ipv4_ok, std_ipv6_ok, unsigned_body, word_ranges, words,
};

verus! {

/// A record's content as the provider types it.
#[derive(Debug, Clone)]
pub enum RecordContent {
    A { content: String },
    Aaaa { content: String },
    Cname { content: String },
    Mx { content: String, priority: u16 },
    Txt { content: String },
    Srv { content: String },
    /// A kind of record this library does not manage.
    Other,
}

/// A record as the provider lists it.
#[derive(Debug, Clone)]
pub struct RemoteRecord {
    pub id: String,
    pub name: String,
    pub content: RecordContent,
}

/// A zone as the provider lists it.
#[derive(Debug, Clone)]
pub struct ZoneEntry {
    pub id: String,
    pub name: String,
}

/// The write that brings a zone to a desired record: an update of the record
/// `target` names, or a creation where it is `None`.
#[derive(Debug, Clone)]
pub struct RecordWrite {
    pub target: Option<String>,
    pub name: String,
    pub content: RecordContent,
    pub ttl: u32,
}

pub struct CloudflareDns {
    pub api_token: String,
}

pub open spec fn content_kind(c: RecordContent) -> Option<RecordType> {
    match c {
        RecordContent::A { .. } => Some(RecordType::A),
        RecordContent::Aaaa { .. } => Some(RecordType::Aaaa),
        RecordContent::Cname { .. } => Some(RecordType::Cname),
        RecordContent::Mx { .. } => Some(RecordType::Mx),
        RecordContent::Txt { .. } => Some(RecordType::Txt),
        RecordContent::Srv { .. } => Some(RecordType::Srv),
        RecordContent::Other => None,
    }
}

/// The kind name of a listed record, `"UNKNOWN"` for kinds not managed here.
pub open spec fn content_kind_text(c: RecordContent) -> Seq<char> {
    match content_kind(c) {
        Some(t) => record_type_text(t),
        None => "UNKNOWN"@,
    }
}

pub open spec fn record_matches(r: RemoteRecord, name: Seq<char>, t: RecordType) -> bool {
    normalized(r.name@) == normalized(name) && content_kind(r.content) == Some(t)
}

pub open spec fn has_match(recs: Seq<RemoteRecord>, name: Seq<char>, t: RecordType) -> bool {
    exists|i: int| 0 <= i < recs.len() && record_matches(#[trigger] recs[i], name, t)
}

/// `i` is the first listed record with the normalized name and the type.
pub open spec fn is_first_match(
    recs: Seq<RemoteRecord>,
    name: Seq<char>,
    t: RecordType,
    i: int,
) -> bool {
    &&& 0 <= i < recs.len()
    &&& record_matches(recs[i], name, t)
    &&& forall|j: int| 0 <= j < i ==> !record_matches(#[trigger] recs[j], name, t)
}

/// Mail-exchange content as the provider takes it: `priority target`.
pub open spec fn is_mx_text(s: Seq<char>) -> bool {
    let w = words(s);
    w.len() == 2 && parses_uint(w[0], 65535)
}

/// The desired content can be put in the provider's typed form: address
/// records must read as addresses the way std's address parse reads them.
pub open spec fn translatable(rec: DnsRecordCloudflare) -> bool {
    match rec.record_type {
        RecordType::A => is_std_ipv4(rec.content@),
        RecordType::Aaaa => is_std_ipv6(rec.content@),
        RecordType::Mx => is_mx_text(rec.content@),
        _ => true,
    }
}

/// `c` is the provider's typed form of the desired content of `rec`.
pub open spec fn translated(rec: DnsRecordCloudflare, c: RecordContent) -> bool {
    let s = rec.content@;
    match rec.record_type {
        RecordType::A => c matches RecordContent::A { content } && content@ == s,
        RecordType::Aaaa => c matches RecordContent::Aaaa { content } && content@ == s,
        RecordType::Cname => c matches RecordContent::Cname { content } && content@
            == normalized(s),
        RecordType::Mx => c matches RecordContent::Mx { content, priority } && content@
            == normalized(words(s)[1]) && priority as nat == digits_value(
            unsigned_body(words(s)[0]),
        ),
        RecordType::Txt => c matches RecordContent::Txt { content } && content@ == s,
        RecordType::Srv => c matches RecordContent::Srv { content } && content@
            == normalized(s),
    }
}

/// `w` is the write that brings `listing` (absent where it could not be had)
/// to the desired record `rec`.
pub open spec fn write_planned(
    listing: Option<Seq<RemoteRecord>>,
    rec: DnsRecordCloudflare,
    w: RecordWrite,
) -> bool {
    &&& w.name@ == normalized(rec.name@)
    &&& translated(rec, w.content)
    &&& w.ttl == rec.ttl
    &&& match w.target {
        None => listing is None || !has_match(listing->0, rec.name@, rec.record_type),
        Some(id) => listing matches Some(recs) && exists|i: int|
            is_first_match(recs, rec.name@, rec.record_type, i) && id@ == (#[trigger] recs[i]).id@,
    }
}

pub open spec fn listing_view(listing: Option<Vec<RemoteRecord>>) -> Option<Seq<RemoteRecord>> {
    match listing {
        Some(l) => Some(l@),
        None => None,
    }
}

pub open spec fn digit_char(n: nat) -> char {
    seq!['0', '1', '2', '3', '4', '5', '6', '7', '8', '9'][n as int]
}

/// Decimal text of a number, without leading zeros.
pub open spec fn decimal(n: nat) -> Seq<char>
    decreases n,
{
    if n < 10 {
        seq![digit_char(n)]
    } else {
        decimal(n / 10).push(digit_char(n % 10))
    }
}

/// The text of a listed record's content: mail exchanges as `priority target`.
pub open spec fn content_text(c: RecordContent) -> Seq<char> {
    match c {
        RecordContent::A { content } => content@,
        RecordContent::Aaaa { content } => content@,
        RecordContent::Cname { content } => content@,
        RecordContent::Mx { content, priority } => decimal(priority as nat) + " "@ + content@,
        RecordContent::Txt { content } => content@,
        RecordContent::Srv { content } => content@,
        RecordContent::Other => Seq::empty(),
    }
}

/// Relies on `u16`'s `Display`, through `to_string`: the decimal digits of the number.
#[verifier::external_body]
fn decimal_text(n: u16) -> (r: String)
    ensures
        r@ == decimal(n as nat),
{
    n.to_string()
}

/// The zone after the provider performs `w`: a creation appends a record
/// under the new id `fresh_id`, an update rewrites the record with the target id.
pub open spec fn apply_write(zone: Seq<RemoteRecord>, w: RecordWrite, fresh_id: String) -> Seq<
    RemoteRecord,
> {
    match w.target {
        None => zone.push(RemoteRecord { id: fresh_id, name: w.name, content: w.content }),
        Some(id) => zone.map_values(
            |r: RemoteRecord|
                if r.id@ == id@ {
                    RemoteRecord { id: r.id, name: w.name, content: w.content }
                } else {
                    r
                },
        ),
    }
}

pub open spec fn ids_unique(zone: Seq<RemoteRecord>) -> bool {
    forall|i: int, j: int|
        0 <= i < zone.len() && 0 <= j < zone.len() && i != j ==> (#[trigger] zone[i]).id@
            != (#[trigger] zone[j]).id@
}

pub open spec fn id_fresh(zone: Seq<RemoteRecord>, id: String) -> bool {
    forall|i: int| 0 <= i < zone.len() ==> (#[trigger] zone[i]).id@ != id@
}

pub open spec fn at_most_one_match(zone: Seq<RemoteRecord>, name: Seq<char>, t: RecordType) -> bool {
    forall|i: int, j: int|
        0 <= i < zone.len() && 0 <= j < zone.len() && record_matches(#[trigger] zone[i], name, t)
            && record_matches(#[trigger] zone[j], name, t) ==> i == j
}

/// Exactly one record of the zone has the name and type, and it holds the
/// desired content of `rec`.
pub open spec fn holds_once(zone: Seq<RemoteRecord>, rec: DnsRecordCloudflare) -> bool {
    exists|m: int|
        0 <= m < zone.len() && record_matches(#[trigger] zone[m], rec.name@, rec.record_type)
            && translated(rec, zone[m].content) && forall|j: int|
            0 <= j < zone.len() && record_matches(#[trigger] zone[j], rec.name@, rec.record_type)
                ==> j == m
}

/// Normalizing a name twice is normalizing it once; a name and the same name
/// with a final dot normalize alike.
pub proof fn lemma_normalize_idempotent(s: Seq<char>)
    ensures
        normalized(normalized(s)) == normalized(s),
        ends_with_dot(s) ==> normalized(s) == s,
        !ends_with_dot(s) ==> normalized(s.push('.')) == normalized(s),
{
}

proof fn lemma_translated_kind(rec: DnsRecordCloudflare, c: RecordContent)
    requires
        translated(rec, c),
    ensures
        content_kind(c) == Some(rec.record_type),
{
}

/// A write planned on a zone with unique ids and at most one record of the
/// name and type leaves unique ids and exactly one such record, with the
/// desired content.
pub proof fn lemma_apply_planned(
    zone: Seq<RemoteRecord>,
    rec: DnsRecordCloudflare,
    w: RecordWrite,
    fresh_id: String,
)
    requires
        ids_unique(zone),
        at_most_one_match(zone, rec.name@, rec.record_type),
        w.target is None ==> id_fresh(zone, fresh_id),
        write_planned(Some(zone), rec, w),
    ensures
        ids_unique(apply_write(zone, w, fresh_id)),
        at_most_one_match(apply_write(zone, w, fresh_id), rec.name@, rec.record_type),
        holds_once(apply_write(zone, w, fresh_id), rec),
        w.target is None ==> apply_write(zone, w, fresh_id).last().id == fresh_id,
{
    let z = apply_write(zone, w, fresh_id);
    let nr = RemoteRecord { id: fresh_id, name: w.name, content: w.content };
    lemma_normalize_idempotent(rec.name@);
    lemma_translated_kind(rec, w.content);
    match w.target {
        None => {
            assert(!has_match(zone, rec.name@, rec.record_type));
            let m = zone.len() as int;
            assert(z[m] == nr);
            assert(record_matches(z[m], rec.name@, rec.record_type));
            assert forall|j: int|
                0 <= j < z.len() && record_matches(#[trigger] z[j], rec.name@, rec.record_type)
                    implies j == m by {
                if j < m {
                    assert(z[j] == zone[j]);
                    assert(record_matches(zone[j], rec.name@, rec.record_type));
                }
            }
            assert forall|i: int, j: int|
                0 <= i < z.len() && 0 <= j < z.len() && i != j implies (#[trigger] z[i]).id@
                    != (#[trigger] z[j]).id@ by {
                if i < m && j < m {
                    assert(z[i] == zone[i] && z[j] == zone[j]);
                } else if i < m {
                    assert(z[i] == zone[i]);
                } else {
                    assert(z[j] == zone[j]);
                }
            }
            assert(holds_once(z, rec));
        },
        Some(id) => {
            let m = choose|i: int|
                is_first_match(zone, rec.name@, rec.record_type, i) && id@ == (
                #[trigger] zone[i]).id@;
            assert(z[m].name == w.name && z[m].content == w.content);
            assert(record_matches(z[m], rec.name@, rec.record_type));
            assert forall|j: int| 0 <= j < z.len() && j != m implies #[trigger] z[j] == zone[j] by {
                assert(zone[j].id@ != zone[m].id@);
            }
            assert forall|j: int|
                0 <= j < z.len() && record_matches(#[trigger] z[j], rec.name@, rec.record_type)
                    implies j == m by {
                if j != m {
                    assert(z[j] == zone[j]);
                    assert(record_matches(zone[j], rec.name@, rec.record_type));
                    assert(record_matches(zone[m], rec.name@, rec.record_type));
                }
            }
            assert forall|i: int, j: int|
                0 <= i < z.len() && 0 <= j < z.len() && i != j implies (#[trigger] z[i]).id@
                    != (#[trigger] z[j]).id@ by {
                assert(z[i].id == zone[i].id);
                assert(z[j].id == zone[j].id);
            }
            assert(holds_once(z, rec));
        },
    }
}

/// Upserting the same desired record twice in a row: the second write is an
/// update (of the record the first one created, where it created one), and
/// the zone ends with exactly one record of the name and type, holding the
/// desired content.
pub proof fn lemma_upsert_twice(
    zone: Seq<RemoteRecord>,
    rec: DnsRecordCloudflare,
    first: RecordWrite,
    second: RecordWrite,
    fresh1: String,
    fresh2: String,
)
    requires
        ids_unique(zone),
        id_fresh(zone, fresh1),
        at_most_one_match(zone, rec.name@, rec.record_type),
        write_planned(Some(zone), rec, first),
        write_planned(Some(apply_write(zone, first, fresh1)), rec, second),
    ensures
        second.target is Some,
        first.target is None ==> (second.target matches Some(id) && id@ == fresh1@),
        holds_once(apply_write(apply_write(zone, first, fresh1), second, fresh2), rec),
{
    let z1 = apply_write(zone, first, fresh1);
    lemma_apply_planned(zone, rec, first, fresh1);
    let m = choose|m: int|
        0 <= m < z1.len() && record_matches(#[trigger] z1[m], rec.name@, rec.record_type)
            && translated(rec, z1[m].content) && forall|j: int|
            0 <= j < z1.len() && record_matches(#[trigger] z1[j], rec.name@, rec.record_type)
                ==> j == m;
    assert(has_match(z1, rec.name@, rec.record_type));
    if first.target is None {
        let last = z1.len() - 1;
        assert(z1[last] == RemoteRecord { id: fresh1, name: first.name, content: first.content });
        lemma_normalize_idempotent(rec.name@);
        lemma_translated_kind(rec, first.content);
        assert(record_matches(z1[last], rec.name@, rec.record_type));
        assert(m == last);
        let id = second.target->0;
        let i = choose|i: int|
            is_first_match(z1, rec.name@, rec.record_type, i) && id@ == (#[trigger] z1[i]).id@;
        assert(i == m);
    }
    lemma_apply_planned(z1, rec, second, fresh2);
}

impl CloudflareDns {
    pub fn new(api_token: String) -> (r: Result<CloudflareDns, DnsError>)
        ensures
            r matches Ok(c) && c.api_token@ == api_token@,
    {
        Ok(CloudflareDns { api_token })
    }

    /// The fully-qualified form of a name: it gains a final dot if it has none.
    pub fn ensure_trailing_dot(domain: &str) -> (r: String)
        ensures
            r@ == normalized(domain@),
    {
        if ends_with_char(domain, '.') {
            String::from_str(domain)
        } else {
            proof {
                reveal_strlit(".");
            }
            let r = String::from_str(domain).concat(".");
            assert(r@ =~= domain@.push('.'));
            r
        }
    }

    pub fn record_type_to_string(record_type: &RecordType) -> (r: String)
        ensures
            r@ == record_type_text(*record_type),
    {
        record_type.to_text()
    }

    pub fn content_kind_of(content: &RecordContent) -> (r: Option<RecordType>)
        ensures
            r == content_kind(*content),
    {
        match content {
            RecordContent::A { .. } => Some(RecordType::A),
            RecordContent::Aaaa { .. } => Some(RecordType::Aaaa),
            RecordContent::Cname { .. } => Some(RecordType::Cname),
            RecordContent::Mx { .. } => Some(RecordType::Mx),
            RecordContent::Txt { .. } => Some(RecordType::Txt),
            RecordContent::Srv { .. } => Some(RecordType::Srv),
            RecordContent::Other => None,
        }
    }

    pub fn get_record_type_from_content(content: &RecordContent) -> (r: String)
        ensures
            r@ == content_kind_text(*content),
    {
        match CloudflareDns::content_kind_of(content) {
            Some(t) => t.to_text(),
            None => String::from_str("UNKNOWN"),
        }
    }

    /// The id of the zone named exactly `zone_name`, among the provider's zones.
    pub fn get_zone_id(zones: &Vec<ZoneEntry>, zone_name: &str) -> (r: Result<String, DnsError>)
        ensures
            r is Ok <==> exists|i: int| 0 <= i < zones@.len() && (#[trigger] zones@[i]).name@ == zone_name@,
            r matches Ok(id) ==> exists|i: int|
                0 <= i < zones@.len() && (#[trigger] zones@[i]).name@ == zone_name@ && id@ == zones@[i].id@
                    && forall|j: int| 0 <= j < i ==> zones@[j].name@ != zone_name@,
            r matches Err(e) ==> e is ZoneNotFound,
    {
        let wanted = String::from_str(zone_name);
        let mut i: usize = 0;
        while i < zones.len()
            invariant
                i <= zones@.len(),
                wanted@ == zone_name@,
                forall|j: int| 0 <= j < i ==> (#[trigger] zones@[j]).name@ != zone_name@,
            decreases zones@.len() - i,
        {
            if zones[i].name == wanted {
                return Ok(zones[i].id.clone());
            }
            i += 1;
        }
        Err(DnsError::ZoneNotFound(String::from_str("Zone '").concat(zone_name).concat("' not found")))
    }

    /// The position of the first listed record with the normalized name and the type.
    pub fn find_matching_index(recs: &Vec<RemoteRecord>, record_name: &str, record_type: &RecordType) -> (r: Option<usize>)
        ensures
            match r {
                Some(i) => is_first_match(recs@, record_name@, *record_type, i as int),
                None => !has_match(recs@, record_name@, *record_type),
            },
    {
        let normalized_name = CloudflareDns::ensure_trailing_dot(record_name);
        let mut i: usize = 0;
        while i < recs.len()
            invariant
                i <= recs@.len(),
                normalized_name@ == normalized(record_name@),
                forall|j: int| 0 <= j < i ==> !record_matches(#[trigger] recs@[j], record_name@, *record_type),
            decreases recs@.len() - i,
        {
            let rec_name = CloudflareDns::ensure_trailing_dot(recs[i].name.as_str());
            if rec_name == normalized_name {
                let kind_matches = match CloudflareDns::content_kind_of(&recs[i].content) {
                    Some(k) => k == *record_type,
                    None => false,
                };
                if kind_matches {
                    return Some(i);
                }
            }
            i += 1;
        }
        None
    }

    /// The id of the record that an upsert updates. A listing that could not be
    /// had (`None`) counts as one with no such record.
    pub fn find_matching_record(
        listing: &Option<Vec<RemoteRecord>>,
        record_name: &str,
        record_type: &RecordType,
    ) -> (r: Option<String>)
        ensures
            match *listing {
                None => r is None,
                Some(recs) => {
                    &&& r is None <==> !has_match(recs@, record_name@, *record_type)
                    &&& r matches Some(id) ==> exists|i: int|
                        is_first_match(recs@, record_name@, *record_type, i) && id@ == (#[trigger] recs@[i]).id@
                },
            },
    {
        match listing {
            None => None,
            Some(recs) => match CloudflareDns::find_matching_index(recs, record_name, record_type) {
                Some(i) => Some(recs[i].id.clone()),
                None => None,
            },
        }
    }

    /// The provider's typed form of the desired content: address records are
    /// checked, a mail exchange is split into priority and target, alias and
    /// service targets are made fully qualified.
    pub fn create_dns_content(&self, record: &DnsRecordCloudflare) -> (r: Result<RecordContent, DnsError>)
        ensures
            r is Ok <==> translatable(*record),
            r matches Ok(c) ==> translated(*record, c),
            r matches Err(e) ==> e is ValidationError,
    {
        match record.record_type {
            RecordType::A => {
                let v = chars_of(record.content.as_str());
                if !std_ipv4_ok(&v) {
                    return Err(DnsError::ValidationError(String::from_str("Invalid IPv4 address")));
                }
                Ok(RecordContent::A { content: record.content.clone() })
            },
            RecordType::Aaaa => {
                let v = chars_of(record.content.as_str());
                if !std_ipv6_ok(&v) {
                    return Err(DnsError::ValidationError(String::from_str("Invalid IPv6 address")));
                }
                Ok(RecordContent::Aaaa { content: record.content.clone() })
            },
            RecordType::Cname => Ok(
                RecordContent::Cname {
                    content: CloudflareDns::ensure_trailing_dot(record.content.as_str()),
                },
            ),
            RecordType::Mx => {
                let v = chars_of(record.content.as_str());
                let w = word_ranges(&v);
                let ghost ws = words(v@);
                if w.len() != 2 {
                    return Err(
                        DnsError::ValidationError(
                            String::from_str("MX record must have format: priority target"),
                        ),
                    );
                }
                assert(v@.subrange(w@[0].0 as int, w@[0].1 as int) == ws[0]);
                assert(v@.subrange(w@[1].0 as int, w@[1].1 as int) == ws[1]);
                let priority = match parse_uint(&v, w[0].0, w[0].1, 65535) {
                    Some(p) => p as u16,
                    None => {
                        return Err(DnsError::ValidationError(String::from_str("Invalid MX priority")));
                    },
                };
                let target = record.content.as_str().substring_char(w[1].0, w[1].1);
                Ok(
                    RecordContent::Mx {
                        content: CloudflareDns::ensure_trailing_dot(target),
                        priority,
                    },
                )
            },
            RecordType::Txt => Ok(RecordContent::Txt { content: record.content.clone() }),
            RecordType::Srv => Ok(
                RecordContent::Srv {
                    content: CloudflareDns::ensure_trailing_dot(record.content.as_str()),
                },
            ),
        }
    }

    /// The write that brings the zone to `record`: an update of the first listed
    /// record with the same normalized name and type, else a creation. A listing
    /// that could not be had counts as one without such a record.
    pub fn plan_upsert(&self, record: &DnsRecordCloudflare, listing: &Option<Vec<RemoteRecord>>) -> (r: Result<RecordWrite, DnsError>)
        ensures
            r is Ok <==> translatable(*record),
            r matches Ok(w) ==> write_planned(listing_view(*listing), *record, w),
            r matches Err(e) ==> e is ValidationError,
    {
        let target = CloudflareDns::find_matching_record(listing, record.name.as_str(), &record.record_type);
        let content = self.create_dns_content(record)?;
        Ok(
            RecordWrite {
                target,
                name: CloudflareDns::ensure_trailing_dot(record.name.as_str()),
                content,
                ttl: record.ttl,
            },
        )
    }

    /// The text of the first listed record with the normalized name and type.
    /// A listing that could not be had gives none.
    pub fn get_record_content_impl(
        listing: &Option<Vec<RemoteRecord>>,
        record_name: &str,
        record_type: &RecordType,
    ) -> (r: Option<String>)
        ensures
            match *listing {
                None => r is None,
                Some(recs) => {
                    &&& r is None <==> !has_match(recs@, record_name@, *record_type)
                    &&& r matches Some(text) ==> exists|i: int|
                        is_first_match(recs@, record_name@, *record_type, i) && text@ == content_text(
                            (#[trigger] recs@[i]).content,
                        )
                },
            },
    {
        match listing {
            None => None,
            Some(recs) => match CloudflareDns::find_matching_index(recs, record_name, record_type) {
                Some(i) => Some(CloudflareDns::content_to_text(&recs[i].content)),
                None => None,
            },
        }
    }

    pub fn content_to_text(content: &RecordContent) -> (r: String)
        ensures
            r@ == content_text(*content),
    {
        match content {
            RecordContent::A { content } => content.clone(),
            RecordContent::Aaaa { content } => content.clone(),
            RecordContent::Cname { content } => content.clone(),
            RecordContent::Mx { content, priority } => {
                proof {
                    reveal_strlit(" ");
                }
                decimal_text(*priority).concat(" ").concat(content.as_str())
            },
            RecordContent::Txt { content } => content.clone(),
            RecordContent::Srv { content } => content.clone(),
            RecordContent::Other => String::new(),
        }
    }
}

impl DnsProvider for CloudflareDns {
    fn validate_record(&self, record: &DnsRecordCloudflare) -> (r: Result<(), DnsError>) {
        validate_record_name(record.name.as_str())?;
        validate_record_data(record.content.as_str(), &record.record_type)?;
        validate_ttl(record.ttl)?;
        Ok(())
    }
}

} // verus!
