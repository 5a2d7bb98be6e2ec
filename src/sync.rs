//! The decisions of one record's synchronisation loop. Each tick the caller
//! resolves the address version (`utils::get_ip_version`), asks the source for
//! the address and hands the outcome to `on_ip`; where that asks for it, it
//! reads the record's current content from the provider and hands that to
//! `after_remote_check`; it performs the upsert an action carries.
use vstd::prelude::*;

use crate::config::Domain;
use crate::dns::{DnsError, DnsRecordCloudflare};
use crate::sources::{IpAddress, SourceError};

verus! {

/// What a tick does next.
#[derive(Debug)]
pub enum TickAction {
    /// Nothing more this tick: the address could not be had.
    Skip,
    /// The record is already right.
    NoUpdate,
    /// First tick: compare with the provider's current content before deciding.
    CheckRemote,
    /// Write this record at the provider.
    Upsert(DnsRecordCloudflare),
}

/// The memory of one record's loop: the address seen last, none before the first tick.
#[derive(Debug)]
pub struct RecordSync {
    pub last_known: Option<String>,
}

/// `record_name.domain_name.`
pub open spec fn full_name(d: Domain) -> Seq<char> {
    d.record_name@ + "."@ + d.domain_name@ + "."@
}

/// `r` is the record that puts `address` under the configured name, type and TTL,
/// with no provider id, so that the reconciler decides between create and update.
pub open spec fn is_desired(d: Domain, address: Seq<char>, r: DnsRecordCloudflare) -> bool {
    &&& r.id is None
    &&& r.name@ == full_name(d)
    &&& r.content@ == address
    &&& r.record_type == d.record_type
    &&& r.ttl == d.record_ttl
}

impl RecordSync {
    pub fn new() -> (r: Self)
        ensures
            r.last_known is None,
    {
        RecordSync { last_known: None }
    }

    pub fn full_record_name(domain: &Domain) -> (r: String)
        ensures
            r@ == full_name(*domain),
    {
        String::from_str(domain.record_name.as_str()).concat(".").concat(
            domain.domain_name.as_str(),
        ).concat(".")
    }

    pub fn desired_record(domain: &Domain, address: &str) -> (r: DnsRecordCloudflare)
        ensures
            is_desired(*domain, address@, r),
    {
        DnsRecordCloudflare {
            id: None,
            name: RecordSync::full_record_name(domain),
            content: String::from_str(address),
            record_type: domain.record_type,
            ttl: domain.record_ttl,
        }
    }

    /// Takes in the address the source gave this tick (or its error).
    pub fn on_ip(&mut self, domain: &Domain, resolved: Result<IpAddress, SourceError>) -> (a:
        TickAction)
        ensures
            match resolved {
                Err(_) => a is Skip && final(self).last_known == old(self).last_known,
                Ok(ip) => match old(self).last_known {
                    None => a is CheckRemote && (final(self).last_known matches Some(l) && l@
                        == ip.address@),
                    Some(prev) => if prev@ == ip.address@ {
                        a is NoUpdate && final(self).last_known == old(self).last_known
                    } else {
                        (a matches TickAction::Upsert(rec) && is_desired(
                            *domain,
                            ip.address@,
                            rec,
                        )) && (final(self).last_known matches Some(l) && l@ == ip.address@)
                    },
                },
            },
    {
        match resolved {
            Err(_) => TickAction::Skip,
            Ok(ip) => {
                let first = self.last_known.is_none();
                if first {
                    self.last_known = Some(ip.address);
                    return TickAction::CheckRemote;
                }
                let unchanged = match &self.last_known {
                    Some(prev) => *prev == ip.address,
                    None => false,
                };
                if unchanged {
                    TickAction::NoUpdate
                } else {
                    let rec = RecordSync::desired_record(domain, ip.address.as_str());
                    self.last_known = Some(ip.address);
                    TickAction::Upsert(rec)
                }
            },
        }
    }

    /// First tick: decides from the provider's current content of the record
    /// (absent where there is none) whether `address` must be written.
    pub fn after_remote_check(
        domain: &Domain,
        address: &str,
        remote: &Result<Option<String>, DnsError>,
    ) -> (a: TickAction)
        ensures
            match *remote {
                Ok(Some(c)) => if c@ == address@ {
                    a is NoUpdate
                } else {
                    a matches TickAction::Upsert(rec) && is_desired(*domain, address@, rec)
                },
                Ok(None) => a matches TickAction::Upsert(rec) && is_desired(*domain, address@, rec),
                Err(_) => a is NoUpdate,
            },
    {
        match remote {
            Ok(Some(c)) => {
                if *c == String::from_str(address) {
                    TickAction::NoUpdate
                } else {
                    TickAction::Upsert(RecordSync::desired_record(domain, address))
                }
            },
            Ok(None) => TickAction::Upsert(RecordSync::desired_record(domain, address)),
            Err(_) => TickAction::NoUpdate,
        }
    }
}

} // verus!
