use std::cell::RefCell;

use libdnscheck::{
    classify_primary, classify_secondary, lookup, lookup_dbus, lookup_dns, DnsCheckError,
    IpAddress, PrimaryReply, Query, ResolveFailure, SecondaryReply,
};

const LIST: &str = "zen.spamhaus.org";
const NXDOMAIN: &str = "org.freedesktop.resolve1.DnsError.NXDOMAIN";

fn domain() -> Query<'static> {
    Query::Domain("example.com")
}

fn failed(name: &str, description: &str) -> PrimaryReply {
    PrimaryReply::Failed { name: name.to_string(), description: description.to_string() }
}

fn refused(kind: ResolveFailure, message: &str) -> SecondaryReply {
    SecondaryReply::Failed { kind, message: message.to_string() }
}

const OTHER_FAILURES: [ResolveFailure; 11] = [
    ResolveFailure::Again,
    ResolveFailure::Badflags,
    ResolveFailure::NoData,
    ResolveFailure::Fail,
    ResolveFailure::Family,
    ResolveFailure::Socktype,
    ResolveFailure::Service,
    ResolveFailure::Memory,
    ResolveFailure::System,
    ResolveFailure::Unknown,
    ResolveFailure::IO,
];

#[test]
fn primary_records_mean_found() {
    let m = classify_primary(LIST, &domain(), PrimaryReply::Resolved { records: 1 }).unwrap();
    assert!(m.found);
    assert_eq!(m.name, "example.com");
    assert_eq!(m.list, LIST);
    let m = classify_primary(LIST, &domain(), PrimaryReply::Resolved { records: 7 }).unwrap();
    assert!(m.found);
}

#[test]
fn primary_answer_without_records_means_not_found() {
    let m = classify_primary(LIST, &domain(), PrimaryReply::Resolved { records: 0 }).unwrap();
    assert!(!m.found);
    assert_eq!(m.name, "example.com");
    assert_eq!(m.list, LIST);
}

#[test]
fn primary_nxdomain_means_not_found() {
    let m = classify_primary(LIST, &domain(), failed(NXDOMAIN, "not found")).unwrap();
    assert!(!m.found);
    assert_eq!(m.name, "example.com");
    assert_eq!(m.list, LIST);
}

#[test]
fn primary_failure_is_an_error() {
    let r = classify_primary(
        LIST,
        &domain(),
        failed("org.freedesktop.DBus.Error.NoReply", "timed out"),
    );
    match r {
        Err(DnsCheckError::DBus(name, description)) => {
            assert_eq!(name, "org.freedesktop.DBus.Error.NoReply");
            assert_eq!(description, "timed out");
        }
        other => panic!("{:?}", other),
    }
}

#[test]
fn primary_absence_is_told_apart() {
    let r = classify_primary(LIST, &domain(), PrimaryReply::Unsupported);
    assert!(matches!(r, Err(DnsCheckError::NoDBus)));
    let r = classify_primary(LIST, &domain(), PrimaryReply::Unreachable("no bus".to_string()));
    match r {
        Err(DnsCheckError::NoResolved(reason)) => assert_eq!(reason, "no bus"),
        other => panic!("{:?}", other),
    }
}

#[test]
fn secondary_addresses_mean_found() {
    let query = Query::Address(IpAddress::V4([127, 0, 0, 2]));
    let m = classify_secondary(LIST, &query, SecondaryReply::Resolved { records: 2 }).unwrap();
    assert!(m.found);
    assert_eq!(m.name, "127.0.0.2");
    assert_eq!(m.list, LIST);
    let m = classify_secondary(LIST, &query, SecondaryReply::Resolved { records: 0 }).unwrap();
    assert!(!m.found);
}

#[test]
fn secondary_unknown_name_means_not_found() {
    let m = classify_secondary(LIST, &domain(), refused(ResolveFailure::NoName, "unknown")).unwrap();
    assert!(!m.found);
    assert_eq!(m.name, "example.com");
    assert_eq!(m.list, LIST);
}

#[test]
fn secondary_failure_is_an_error() {
    for kind in OTHER_FAILURES {
        let r = classify_secondary(LIST, &domain(), refused(kind, "failed to look up"));
        match r {
            Err(DnsCheckError::Unknown(message)) => assert_eq!(message, "failed to look up"),
            other => panic!("{:?}: {:?}", kind, other),
        }
    }
}

#[test]
fn lookup_dbus_asks_for_the_lookup_name() {
    let asked = RefCell::new(Vec::new());
    let primary = |name: &str| {
        asked.borrow_mut().push(name.to_string());
        PrimaryReply::Resolved { records: 1 }
    };
    let m = lookup_dbus(LIST, &Query::Address(IpAddress::V4([1, 2, 3, 4])), &primary).unwrap();
    assert!(m.found);
    assert_eq!(m.name, "1.2.3.4");
    assert_eq!(*asked.borrow(), vec!["4.3.2.1.zen.spamhaus.org.".to_string()]);
}

#[test]
fn lookup_dbus_reports_absence() {
    let r = lookup_dbus(LIST, &domain(), &|_: &str| PrimaryReply::Unsupported);
    assert!(matches!(r, Err(DnsCheckError::NoDBus)));
    let r = lookup_dbus(LIST, &domain(), &|_: &str| PrimaryReply::Unreachable("x".to_string()));
    assert!(matches!(r, Err(DnsCheckError::NoResolved(_))));
}

#[test]
fn lookup_dns_asks_for_the_lookup_name() {
    let asked = RefCell::new(Vec::new());
    let secondary = |name: &str| {
        asked.borrow_mut().push(name.to_string());
        SecondaryReply::Failed { kind: ResolveFailure::NoName, message: String::new() }
    };
    let m = lookup_dns(LIST, &domain(), &secondary).unwrap();
    assert!(!m.found);
    assert_eq!(*asked.borrow(), vec!["example.com.zen.spamhaus.org.".to_string()]);
}

#[test]
fn lookup_returns_the_answer_of_the_service() {
    let secondary_calls = RefCell::new(0);
    let primary = |_: &str| PrimaryReply::Resolved { records: 1 };
    let secondary = |_: &str| {
        *secondary_calls.borrow_mut() += 1;
        SecondaryReply::Resolved { records: 0 }
    };
    let m = lookup(LIST, &domain(), &primary, &secondary).unwrap();
    assert!(m.found);
    assert_eq!(m.name, "example.com");
    assert_eq!(m.list, LIST);
    assert_eq!(*secondary_calls.borrow(), 0);
}

#[test]
fn lookup_falls_back_when_the_service_is_out_of_reach() {
    let asked = RefCell::new(Vec::new());
    let primary = |_: &str| PrimaryReply::Unreachable("no bus".to_string());
    let secondary = |name: &str| {
        asked.borrow_mut().push(name.to_string());
        SecondaryReply::Resolved { records: 1 }
    };
    let m = lookup(LIST, &domain(), &primary, &secondary).unwrap();
    assert!(m.found);
    assert_eq!(m.name, "example.com");
    assert_eq!(m.list, LIST);
    assert_eq!(*asked.borrow(), vec!["example.com.zen.spamhaus.org.".to_string()]);
}

#[test]
fn lookup_falls_back_when_the_service_is_not_built_in() {
    let primary = |_: &str| PrimaryReply::Unsupported;
    let secondary = |_: &str| SecondaryReply::Resolved { records: 3 };
    assert!(lookup(LIST, &domain(), &primary, &secondary).unwrap().found);
}

#[test]
fn lookup_hands_on_an_error_of_the_service_without_falling_back() {
    let secondary_calls = RefCell::new(0);
    let primary = |_: &str| failed("org.freedesktop.resolve1.DnsError.SERVFAIL", "server failure");
    let secondary = |_: &str| {
        *secondary_calls.borrow_mut() += 1;
        SecondaryReply::Resolved { records: 1 }
    };
    let r = lookup(LIST, &domain(), &primary, &secondary);
    assert!(matches!(r, Err(DnsCheckError::DBus(_, _))));
    assert_eq!(*secondary_calls.borrow(), 0);
}

#[test]
fn lookup_hands_on_an_error_of_the_fallback() {
    let primary = |_: &str| PrimaryReply::Unreachable("no bus".to_string());
    let secondary = |_: &str| refused(ResolveFailure::Again, "temporary failure");
    match lookup(LIST, &domain(), &primary, &secondary) {
        Err(DnsCheckError::Unknown(message)) => assert_eq!(message, "temporary failure"),
        other => panic!("{:?}", other),
    }
}

#[test]
fn lookup_reports_not_found_from_the_fallback() {
    let primary = |_: &str| PrimaryReply::Unreachable("no bus".to_string());
    let secondary = |_: &str| refused(ResolveFailure::NoName, "unknown name");
    let m = lookup(LIST, &domain(), &primary, &secondary).unwrap();
    assert!(!m.found);
    assert_eq!(m.name, "example.com");
    assert_eq!(m.list, LIST);
}

#[test]
fn lookup_reports_not_found_on_nxdomain() {
    let secondary_calls = RefCell::new(0);
    let primary = |_: &str| failed(NXDOMAIN, "not found");
    let secondary = |_: &str| {
        *secondary_calls.borrow_mut() += 1;
        SecondaryReply::Resolved { records: 1 }
    };
    let m = lookup(LIST, &domain(), &primary, &secondary).unwrap();
    assert!(!m.found);
    assert_eq!(*secondary_calls.borrow(), 0);
}

#[test]
fn lookup_is_an_error_on_timeout_or_malformed_response() {
    let fallback = |_: &str| SecondaryReply::Resolved { records: 0 };
    let timeout = |_: &str| failed("org.freedesktop.DBus.Error.NoReply", "timed out");
    assert!(lookup(LIST, &domain(), &timeout, &fallback).is_err());
    let malformed = |_: &str| failed("org.freedesktop.DBus.Error.InvalidArgs", "bad reply");
    assert!(lookup(LIST, &domain(), &malformed, &fallback).is_err());
    let absent = |_: &str| PrimaryReply::Unsupported;
    for kind in OTHER_FAILURES {
        let failing = |_: &str| refused(kind, "failure");
        assert!(lookup(LIST, &domain(), &absent, &failing).is_err());
    }
}
