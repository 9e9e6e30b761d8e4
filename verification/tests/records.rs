use dyndns::record::{Record, RecordType};
use dyndns::text::{chars_end_with, chars_of, str_eq};

fn record(ttl: Option<u64>) -> Record {
    Record {
        record_type: RecordType::AAAA,
        id: "1a2b3c".to_string(),
        zone_id: "zone1".to_string(),
        name: "home".to_string(),
        value: "2001:db8::1".to_string(),
        ttl,
    }
}

#[test]
fn record_types_have_their_dns_names() {
    let names = [
        (RecordType::A, "A"),
        (RecordType::AAAA, "AAAA"),
        (RecordType::NS, "NS"),
        (RecordType::MX, "MX"),
        (RecordType::CNAME, "CNAME"),
        (RecordType::RP, "RP"),
        (RecordType::TXT, "TXT"),
        (RecordType::SOA, "SOA"),
        (RecordType::HINFO, "HINFO"),
        (RecordType::SRV, "SRV"),
        (RecordType::DANE, "DANE"),
        (RecordType::TLSA, "TLSA"),
        (RecordType::DS, "DS"),
        (RecordType::CAA, "CAA"),
    ];
    for (record_type, name) in names {
        assert_eq!(record_type.as_str(), name);
        assert_eq!(record_type.to_string(), name);
    }
}

#[test]
fn a_record_reads_as_one_line() {
    assert_eq!(record(Some(300)).to_string(), "home 300 AAAA 2001:db8::1");
    assert_eq!(record(Some(86400)).to_string(), "home 86400 AAAA 2001:db8::1");
    assert_eq!(record(Some(7)).to_string(), "home 7 AAAA 2001:db8::1");
    assert_eq!(record(Some(10)).to_string(), "home 10 AAAA 2001:db8::1");
    assert_eq!(record(Some(9)).to_string(), "home 9 AAAA 2001:db8::1");
    assert_eq!(record(Some(1234567890)).to_string(), "home 1234567890 AAAA 2001:db8::1");
    assert_eq!(
        record(Some(u64::MAX)).to_string(),
        "home 18446744073709551615 AAAA 2001:db8::1"
    );
}

#[test]
fn a_record_without_ttl_reads_as_zero() {
    assert_eq!(record(None).to_string(), "home 0 AAAA 2001:db8::1");
    assert_eq!(record(Some(0)).to_string(), "home 0 AAAA 2001:db8::1");
}

#[test]
fn with_value_keeps_the_identity() {
    let updated = record(Some(300)).with_value("2001:db8::2".to_string());
    assert_eq!(updated.value, "2001:db8::2");
    assert_eq!(updated.id, "1a2b3c");
    assert_eq!(updated.zone_id, "zone1");
    assert_eq!(updated.name, "home");
    assert_eq!(updated.record_type, RecordType::AAAA);
    assert_eq!(updated.ttl, Some(300));
}

#[test]
fn record_clones_hold_the_same() {
    let copy = record(None).clone();
    assert_eq!(copy.value, "2001:db8::1");
    assert_eq!(copy.id, "1a2b3c");
    assert_eq!(copy.zone_id, "zone1");
    assert_eq!(copy.name, "home");
    assert_eq!(copy.record_type, RecordType::AAAA);
    assert_eq!(copy.ttl, None);
}

#[test]
fn strings_compare_by_character() {
    assert!(str_eq("", ""));
    assert!(str_eq("home", "home"));
    assert!(str_eq("bücher", "bücher"));
    assert!(!str_eq("home", "Home"));
    assert!(!str_eq("home", "hom"));
    assert!(!str_eq("hom", "home"));
    assert!(!str_eq("", "a"));
}

#[test]
fn chars_of_lists_the_characters() {
    assert_eq!(chars_of(""), Vec::<char>::new());
    assert_eq!(chars_of("a.b"), vec!['a', '.', 'b']);
    assert_eq!(chars_of("bü"), vec!['b', 'ü']);
}

#[test]
fn chars_end_with_looks_at_the_tail() {
    let chars = |text: &str| chars_of(text);
    assert!(chars_end_with(&chars("sub.example.com"), &chars("example.com")));
    assert!(chars_end_with(&chars("example.com"), &chars("example.com")));
    assert!(chars_end_with(&chars("example.com"), &chars("")));
    assert!(chars_end_with(&chars(""), &chars("")));
    assert!(!chars_end_with(&chars("com"), &chars("example.com")));
    assert!(!chars_end_with(&chars("example.org"), &chars("example.com")));
    assert!(!chars_end_with(&chars(""), &chars("a")));
}
