use custom_ddns::cloudflare::{CloudflareDns, RecordContent, RecordWrite, RemoteRecord, ZoneEntry};
use custom_ddns::config::RecordType;
use custom_ddns::dns::{DnsError, DnsProvider, DnsRecordCloudflare};

fn remote(id: &str, name: &str, content: RecordContent) -> RemoteRecord {
    RemoteRecord { id: id.to_string(), name: name.to_string(), content }
}

fn a(addr: &str) -> RecordContent {
    RecordContent::A { content: addr.to_string() }
}

fn desired(name: &str, content: &str, t: RecordType) -> DnsRecordCloudflare {
    DnsRecordCloudflare {
        id: None,
        name: name.to_string(),
        content: content.to_string(),
        record_type: t,
        ttl: 300,
    }
}

fn dns() -> CloudflareDns {
    CloudflareDns::new("SECRET-REDACTED".to_string()).unwrap()
}

/// Performs a write on an in-memory zone, as the provider would.
fn apply(zone: &mut Vec<RemoteRecord>, w: &RecordWrite, fresh_id: &str, creates: &mut u32) {
    match &w.target {
        None => {
            *creates += 1;
            zone.push(RemoteRecord {
                id: fresh_id.to_string(),
                name: w.name.clone(),
                content: w.content.clone(),
            });
        }
        Some(id) => {
            for r in zone.iter_mut() {
                if &r.id == id {
                    r.name = w.name.clone();
                    r.content = w.content.clone();
                }
            }
        }
    }
}

#[test]
fn trailing_dot_normalization() {
    assert_eq!(CloudflareDns::ensure_trailing_dot("host.example.com"), "host.example.com.");
    assert_eq!(CloudflareDns::ensure_trailing_dot("host.example.com."), "host.example.com.");
    let once = CloudflareDns::ensure_trailing_dot("host.example.com");
    assert_eq!(CloudflareDns::ensure_trailing_dot(&once), once);
    assert_eq!(CloudflareDns::ensure_trailing_dot(""), ".");
}

#[test]
fn type_names() {
    assert_eq!(CloudflareDns::record_type_to_string(&RecordType::Cname), "CNAME");
    assert_eq!(CloudflareDns::get_record_type_from_content(&a("1.2.3.4")), "A");
    assert_eq!(CloudflareDns::get_record_type_from_content(&RecordContent::Other), "UNKNOWN");
}

#[test]
fn zone_lookup() {
    let zones = vec![
        ZoneEntry { id: "z1".to_string(), name: "other.com".to_string() },
        ZoneEntry { id: "z2".to_string(), name: "example.com".to_string() },
    ];
    assert_eq!(CloudflareDns::get_zone_id(&zones, "example.com").unwrap(), "z2");
    assert!(matches!(CloudflareDns::get_zone_id(&zones, "example.org"), Err(DnsError::ZoneNotFound(_))));
    assert!(matches!(CloudflareDns::get_zone_id(&vec![], "example.com"), Err(DnsError::ZoneNotFound(_))));
}

#[test]
fn matching_skips_other_kinds_and_names() {
    let listing = Some(vec![
        remote("t1", "home.example.com", RecordContent::Other),
        remote("t2", "home.example.com", RecordContent::Txt { content: "x".to_string() }),
        remote("t3", "away.example.com.", a("198.51.100.1")),
        remote("t4", "home.example.com", a("198.51.100.7")),
        remote("t5", "home.example.com.", a("198.51.100.9")),
    ]);
    assert_eq!(
        CloudflareDns::find_matching_record(&listing, "home.example.com.", &RecordType::A),
        Some("t4".to_string())
    );
    assert_eq!(CloudflareDns::find_matching_record(&listing, "home.example.com", &RecordType::Aaaa), None);
    assert_eq!(CloudflareDns::find_matching_record(&None, "home.example.com.", &RecordType::A), None);
    assert_eq!(
        CloudflareDns::get_record_content_impl(&listing, "home.example.com", &RecordType::A),
        Some("198.51.100.7".to_string())
    );
    assert_eq!(CloudflareDns::get_record_content_impl(&None, "home.example.com", &RecordType::A), None);
}

#[test]
fn mail_exchange_content_text() {
    let listing = Some(vec![remote(
        "m1",
        "example.com.",
        RecordContent::Mx { content: "mail.example.com.".to_string(), priority: 10 },
    )]);
    assert_eq!(
        CloudflareDns::get_record_content_impl(&listing, "example.com.", &RecordType::Mx),
        Some("10 mail.example.com.".to_string())
    );
    let mx = RecordContent::Mx { content: "mx.example.com.".to_string(), priority: 65535 };
    assert_eq!(CloudflareDns::content_to_text(&mx), "65535 mx.example.com.");
    let mx0 = RecordContent::Mx { content: "mx.example.com.".to_string(), priority: 0 };
    assert_eq!(CloudflareDns::content_to_text(&mx0), "0 mx.example.com.");
}

#[test]
fn typed_content() {
    let d = dns();
    match d.create_dns_content(&desired("example.com.", "10 mail.example.com", RecordType::Mx)).unwrap() {
        RecordContent::Mx { content, priority } => {
            assert_eq!(content, "mail.example.com.");
            assert_eq!(priority, 10);
        }
        other => panic!("unexpected content {:?}", other),
    }
    assert!(matches!(
        d.create_dns_content(&desired("example.com.", "mail.example.com.", RecordType::Mx)),
        Err(DnsError::ValidationError(_))
    ));
    assert!(matches!(
        d.create_dns_content(&desired("example.com.", "70000 mail.example.com.", RecordType::Mx)),
        Err(DnsError::ValidationError(_))
    ));
    match d.create_dns_content(&desired("www.example.com.", "example.com", RecordType::Cname)).unwrap() {
        RecordContent::Cname { content } => assert_eq!(content, "example.com."),
        other => panic!("unexpected content {:?}", other),
    }
    match d.create_dns_content(&desired("h.example.com.", "203.0.113.5", RecordType::A)).unwrap() {
        RecordContent::A { content } => assert_eq!(content, "203.0.113.5"),
        other => panic!("unexpected content {:?}", other),
    }
    assert!(d.create_dns_content(&desired("h.example.com.", "203.0.113", RecordType::A)).is_err());
}

#[test]
fn validate_whole_record() {
    let d = dns();
    assert!(d.validate_record(&desired("home.example.com.", "198.51.100.7", RecordType::A)).is_ok());
    assert!(d.validate_record(&desired("home.example.com", "198.51.100.7", RecordType::A)).is_err());
    let mut r = desired("home.example.com.", "198.51.100.7", RecordType::A);
    r.ttl = 30;
    assert!(matches!(d.validate_record(&r), Err(DnsError::ValidationError(_))));
}

#[test]
fn upsert_twice_creates_once() {
    let d = dns();
    let rec = desired("home.example.com.", "198.51.100.7", RecordType::A);
    let mut zone = vec![remote("other", "mail.example.com.", a("198.51.100.2"))];
    let mut creates = 0u32;

    let first = d.plan_upsert(&rec, &Some(zone.clone())).unwrap();
    assert!(first.target.is_none());
    assert_eq!(first.name, "home.example.com.");
    assert_eq!(first.ttl, 300);
    apply(&mut zone, &first, "rec-1", &mut creates);

    let second = d.plan_upsert(&rec, &Some(zone.clone())).unwrap();
    assert_eq!(second.target, Some("rec-1".to_string()));
    apply(&mut zone, &second, "rec-2", &mut creates);

    assert_eq!(creates, 1);
    let matching: Vec<&RemoteRecord> = zone
        .iter()
        .filter(|r| r.name == "home.example.com." && matches!(r.content, RecordContent::A { .. }))
        .collect();
    assert_eq!(matching.len(), 1);
    match &matching[0].content {
        RecordContent::A { content } => assert_eq!(content, "198.51.100.7"),
        other => panic!("unexpected content {:?}", other),
    }
}

#[test]
fn failed_listing_plans_a_create() {
    let d = dns();
    let rec = desired("home.example.com.", "198.51.100.7", RecordType::A);
    let w = d.plan_upsert(&rec, &None).unwrap();
    assert!(w.target.is_none());
}

fn typed_ok(content: &str, t: RecordType) -> bool {
    match dns().create_dns_content(&desired("h.example.com.", content, t)) {
        Ok(_) => true,
        Err(DnsError::ValidationError(_)) => false,
        Err(e) => panic!("unexpected error kind: {:?}", e),
    }
}

#[test]
fn address_content_reads_as_std_address() {
    assert!(typed_ok("0.0.0.0", RecordType::A));
    assert!(typed_ok("203.0.113.5", RecordType::A));
    assert!(!typed_ok("+1.2.3.4", RecordType::A));
    assert!(!typed_ok("01.2.3.4", RecordType::A));
    assert!(!typed_ok("1.2.3.0004", RecordType::A));
    assert!(!typed_ok("1.2.3.256", RecordType::A));
    for ok in [
        "2001:db8::1",
        "::",
        "::1",
        "1::",
        "1:2:3:4:5:6:7:8",
        "::ffff:192.0.2.1",
        "1:2:3:4:5:6:192.0.2.1",
        "1:2:3:4:5::192.0.2.1",
        "FE80::abcd",
    ] {
        assert!(typed_ok(ok, RecordType::Aaaa), "{}", ok);
    }
    for bad in [
        "zzz",
        "1:2:3:4:5:6:7:8:9",
        "1:2:3:4:5:6:7",
        "1::2::3",
        "12345::",
        ":::",
        "1:2:3:4:5:6::192.0.2.1",
        "192.0.2.1::",
        "::192.0.2.1:1",
        "1:2:3:4:5:6:7:8::",
        ":1::",
    ] {
        assert!(!typed_ok(bad, RecordType::Aaaa), "{}", bad);
    }
}

#[test]
fn first_failing_check_is_reported() {
    let d = dns();
    let mut r = desired("home.example.com", "not an address", RecordType::A);
    r.ttl = 5;
    match d.validate_record(&r) {
        Err(DnsError::ValidationError(m)) => assert_eq!(m, "Record name must end with a dot"),
        other => panic!("unexpected {:?}", other),
    }
    r.name = "home.example.com.".to_string();
    match d.validate_record(&r) {
        Err(DnsError::ValidationError(m)) => assert_eq!(m, "Invalid IPv4 address format"),
        other => panic!("unexpected {:?}", other),
    }
    r.content = "198.51.100.7".to_string();
    match d.validate_record(&r) {
        Err(DnsError::ValidationError(m)) => assert_eq!(m, "TTL must be between 60 and 86400 seconds"),
        other => panic!("unexpected {:?}", other),
    }
}
