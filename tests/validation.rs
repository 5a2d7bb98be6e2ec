use custom_ddns::config::RecordType;
use custom_ddns::dns::{validate_record_data, validate_record_name, validate_ttl, DnsError};
use custom_ddns::sources::{validate_ip_address, IpVersion, SourceError};
use custom_ddns::utils::get_ip_version;

fn data_ok(content: &str, t: RecordType) -> bool {
    match validate_record_data(content, &t) {
        Ok(()) => true,
        Err(DnsError::ValidationError(_)) => false,
        Err(e) => panic!("unexpected error kind: {:?}", e),
    }
}

#[test]
fn ttl_bounds() {
    assert!(validate_ttl(60).is_ok());
    assert!(validate_ttl(3600).is_ok());
    assert!(validate_ttl(86400).is_ok());
    assert!(matches!(validate_ttl(59), Err(DnsError::ValidationError(_))));
    assert!(matches!(validate_ttl(86401), Err(DnsError::ValidationError(_))));
    assert!(validate_ttl(0).is_err());
    assert!(validate_ttl(u32::MAX).is_err());
}

#[test]
fn ipv4_record_content() {
    assert!(data_ok("203.0.113.5", RecordType::A));
    assert!(data_ok("0.0.0.0", RecordType::A));
    assert!(data_ok("255.255.255.255", RecordType::A));
    assert!(!data_ok("203.0.113.256", RecordType::A));
    assert!(!data_ok("203.0.113", RecordType::A));
    assert!(!data_ok("203.0.113.5.7", RecordType::A));
    assert!(!data_ok("203.0..5", RecordType::A));
    assert!(!data_ok("203.0.113.x", RecordType::A));
    assert!(!data_ok("", RecordType::A));
}

#[test]
fn ipv6_record_content() {
    assert!(data_ok("2001:db8::1", RecordType::Aaaa));
    assert!(data_ok("::1", RecordType::Aaaa));
    assert!(data_ok("FE80::ABCD", RecordType::Aaaa));
    assert!(!data_ok("2001:db8::12345", RecordType::Aaaa));
    assert!(!data_ok("2001:zz8::1", RecordType::Aaaa));
    assert!(!data_ok("", RecordType::Aaaa));
}

#[test]
fn alias_and_mail_content() {
    assert!(data_ok("target.example.com.", RecordType::Cname));
    assert!(!data_ok("target.example.com", RecordType::Cname));
    assert!(data_ok("10 mail.example.com.", RecordType::Mx));
    assert!(!data_ok("10 mail.example.com", RecordType::Mx));
}

#[test]
fn text_content() {
    assert!(data_ok("v=spf1 include:example.com ~all", RecordType::Txt));
    assert!(!data_ok("bell\u{7}", RecordType::Txt));
    assert!(!data_ok("caf\u{e9}", RecordType::Txt));
    assert!(!data_ok("tab\there", RecordType::Txt));
}

#[test]
fn service_content() {
    assert!(data_ok("10 5 5060 sip.example.com.", RecordType::Srv));
    assert!(data_ok("  0\t0  65535 sip.example.com. ", RecordType::Srv));
    assert!(!data_ok("10 5 sip.example.com.", RecordType::Srv));
    assert!(!data_ok("10 5 70000 sip.example.com.", RecordType::Srv));
    assert!(!data_ok("10 five 5060 sip.example.com.", RecordType::Srv));
    assert!(!data_ok("10 5 5060 sip.example.com", RecordType::Srv));
    assert!(!data_ok("10 5 5060 sip.example.com. extra", RecordType::Srv));
}

#[test]
fn record_names() {
    assert!(matches!(validate_record_name(""), Err(DnsError::ValidationError(_))));
    assert!(matches!(validate_record_name("host.example.com"), Err(DnsError::ValidationError(_))));
    assert!(validate_record_name("host.example.com.").is_ok());
    assert!(validate_record_name(".").is_ok());
}

#[test]
fn source_addresses() {
    assert!(validate_ip_address("198.51.100.7", &IpVersion::IPv4).is_ok());
    assert!(matches!(
        validate_ip_address("198.51.100", &IpVersion::IPv4),
        Err(SourceError::ValidationError(_))
    ));
    assert!(validate_ip_address("198.51.100.300", &IpVersion::IPv4).is_err());
    assert!(validate_ip_address("2001:db8::1", &IpVersion::IPv6).is_ok());
    assert!(matches!(
        validate_ip_address("2001", &IpVersion::IPv6),
        Err(SourceError::ValidationError(_))
    ));
    assert!(validate_ip_address("1:2:3:4:5:6:7:8:9", &IpVersion::IPv6).is_err());
}

#[test]
fn ip_version_from_record_type() {
    assert_eq!(get_ip_version(&RecordType::A).unwrap(), IpVersion::IPv4);
    assert_eq!(get_ip_version(&RecordType::Aaaa).unwrap(), IpVersion::IPv6);
    assert!(matches!(get_ip_version(&RecordType::Cname), Err(DnsError::ValidationError(_))));
    assert!(matches!(get_ip_version(&RecordType::Mx), Err(DnsError::ValidationError(_))));
}

#[test]
fn record_type_names() {
    assert_eq!(RecordType::parse("aaaa").unwrap(), RecordType::Aaaa);
    assert_eq!(RecordType::parse("Cname").unwrap(), RecordType::Cname);
    assert_eq!("srv".parse::<RecordType>().unwrap(), RecordType::Srv);
    assert_eq!(RecordType::parse("bogus").unwrap_err(), "Invalid record type: bogus");
    assert_eq!(RecordType::from_upper("MX"), Some(RecordType::Mx));
    assert_eq!(RecordType::from_upper("mx"), None);
    assert_eq!(RecordType::Aaaa.to_text(), "AAAA");
    assert_eq!(RecordType::Txt.to_text(), "TXT");
}

#[test]
fn error_texts() {
    assert_eq!(
        DnsError::ValidationError("bad ttl".to_string()).to_text(),
        "Validation error: bad ttl"
    );
    assert_eq!(DnsError::ZoneNotFound("example.com".to_string()).to_text(), "Zone not found: example.com");
    assert_eq!(
        SourceError::ConnectionError("down".to_string()).to_text(),
        "Connection error: down"
    );
    assert_eq!(SourceError::IpNotFoundError("v6".to_string()).to_text(), "IP not found: v6");
}

#[test]
fn service_error_messages() {
    let msg = |c: &str| match validate_record_data(c, &RecordType::Srv) {
        Err(DnsError::ValidationError(m)) => m,
        other => panic!("unexpected {:?}", other),
    };
    assert_eq!(msg("10 5 sip.example.com."), "SRV record must have format: priority weight port target");
    assert_eq!(msg("10 x 5060 sip.example.com."), "SRV record priority, weight, and port must be numbers");
    assert_eq!(msg("10 5 5060 sip.example.com"), "SRV record target must end with a dot");
}
