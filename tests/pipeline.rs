use dns_override::authority::{Mutation, OverrideAuthority};
use dns_override::handler::{
    begin, classify_failure, finish, LookupFailure, is_supported, MessageType, OpCode, Query, Response, ResponseCode, Step, UpstreamError,
};
use dns_override::name::{DnsName, MAX_NAME_TEXT};
use dns_override::record::{RData, Record, RecordSet, RecordType, CLASS_IN};
use dns_override::store::{check_set, RecordStore, StoreError};

fn name(s: &str) -> DnsName {
    DnsName::parse(s).expect("valid name")
}

fn rec(owner: &str, ttl: u32, data: RData) -> Record {
    Record { name: name(owner), class: CLASS_IN, ttl, data }
}

fn query(s: &str, t: RecordType) -> Query {
    Query { name: name(s), query_type: t, op_code: OpCode::Query, message_type: MessageType::Query }
}

fn zone_with(origin: &str, owner: &str, data: RData) -> OverrideAuthority {
    let mut auth = OverrideAuthority::new(name(origin));
    auth.apply(Mutation::Add { name: name(owner), ttl: 60, data, serial: 1 }).expect("in zone");
    auth
}

fn respond(auth: &OverrideAuthority, q: &Query, upstream: impl FnOnce() -> Result<Vec<Record>, UpstreamError>) -> Response {
    match begin(auth, q) {
        Step::Respond(r) => r,
        Step::Forward => finish(upstream()),
    }
}

#[test]
fn example_end_to_end() {
    let auth = zone_with("example.com.", "example.com.", RData::ipv4(93, 184, 216, 34));
    let r = respond(&auth, &query("example.com.", RecordType::A), || panic!("forwarder called"));
    assert_eq!(r.code, ResponseCode::NoError);
    assert_eq!(r.answers, vec![rec("example.com.", 60, RData::A(0x5DB8_D822))]);

    let r = respond(&auth, &query("other.org.", RecordType::A), || {
        Ok(vec![rec("other.org.", 300, RData::ipv4(1, 2, 3, 4))])
    });
    assert_eq!(r.code, ResponseCode::NoError);
    assert_eq!(r.answers, vec![rec("other.org.", 300, RData::A(0x0102_0304))]);
}

#[test]
fn override_hit_never_forwards() {
    let mut auth = OverrideAuthority::new(name("example.com."));
    let mut set = RecordSet::single(name("www.example.com."), 30, RData::ipv4(10, 0, 0, 1));
    set.records.push(rec("www.example.com.", 30, RData::ipv4(10, 0, 0, 2)));
    assert_eq!(auth.upsert(set, 7), Ok(()));
    let r = respond(&auth, &query("www.example.com.", RecordType::A), || panic!("forwarder called"));
    assert_eq!(r.code, ResponseCode::NoError);
    assert_eq!(
        r.answers,
        vec![rec("www.example.com.", 30, RData::ipv4(10, 0, 0, 1)), rec("www.example.com.", 30, RData::ipv4(10, 0, 0, 2))]
    );
    assert_eq!(auth.version(), 7);
}

#[test]
fn override_miss_forwards_once() {
    let auth = zone_with("example.com.", "example.com.", RData::ipv4(93, 184, 216, 34));
    let mut calls = 0;
    let r = respond(&auth, &query("example.com.", RecordType::Aaaa), || {
        calls += 1;
        Ok(vec![rec("example.com.", 5, RData::Aaaa(1))])
    });
    assert_eq!(calls, 1);
    assert_eq!(r.code, ResponseCode::NoError);
    assert_eq!(r.answers, vec![rec("example.com.", 5, RData::Aaaa(1))]);

    let mut calls = 0;
    let r = respond(&auth, &query("missing.example.com.", RecordType::A), || {
        calls += 1;
        Err(UpstreamError::NotFound)
    });
    assert_eq!(calls, 1);
    assert_eq!(r.code, ResponseCode::NXDomain);
    assert!(r.answers.is_empty());
}

#[test]
fn add_then_query_returns_exactly_the_record() {
    let mut auth = OverrideAuthority::new(name("example.com."));
    let add = || Mutation::Add { name: name("api.example.com."), ttl: 60, data: RData::ipv4(192, 0, 2, 7), serial: 3 };
    assert_eq!(auth.apply(add()), Ok(()));
    assert_eq!(auth.apply(add()), Ok(()));
    assert_eq!(auth.len(), 1);
    let r = respond(&auth, &query("api.example.com.", RecordType::A), || panic!("forwarder called"));
    assert_eq!(r.answers, vec![rec("api.example.com.", 60, RData::ipv4(192, 0, 2, 7))]);

    assert_eq!(
        auth.apply(Mutation::Add { name: name("api.example.com."), ttl: 60, data: RData::ipv4(192, 0, 2, 8), serial: 4 }),
        Ok(())
    );
    let r = respond(&auth, &query("api.example.com.", RecordType::A), || panic!("forwarder called"));
    assert_eq!(r.answers, vec![rec("api.example.com.", 60, RData::ipv4(192, 0, 2, 8))]);
    assert_eq!(auth.version(), 4);
}

#[test]
fn unsupported_requests_fail_without_lookup() {
    let auth = zone_with("example.com.", "example.com.", RData::ipv4(93, 184, 216, 34));
    for (op, mt) in [
        (OpCode::Update, MessageType::Query),
        (OpCode::Notify, MessageType::Query),
        (OpCode::Status, MessageType::Query),
        (OpCode::Unknown(9), MessageType::Query),
        (OpCode::Query, MessageType::Response),
    ] {
        assert!(!is_supported(op, mt));
        let q = Query { name: name("example.com."), query_type: RecordType::A, op_code: op, message_type: mt };
        let r = respond(&auth, &q, || panic!("forwarder called"));
        assert_eq!(r.code, ResponseCode::ServFail);
        assert!(r.answers.is_empty());
    }
    assert!(is_supported(OpCode::Query, MessageType::Query));
}

#[test]
fn queries_before_and_after_an_add() {
    let mut auth = OverrideAuthority::new(name("example.com."));
    for _ in 0..100 {
        let r = respond(&auth, &query("late.example.com.", RecordType::A), || Err(UpstreamError::NotFound));
        assert_eq!(r.code, ResponseCode::NXDomain);
    }
    auth.apply(Mutation::Add { name: name("late.example.com."), ttl: 60, data: RData::ipv4(198, 51, 100, 1), serial: 1 })
        .unwrap();
    for _ in 0..100 {
        let r = respond(&auth, &query("late.example.com.", RecordType::A), || panic!("forwarder called"));
        assert_eq!(r.code, ResponseCode::NoError);
        assert_eq!(r.answers, vec![rec("late.example.com.", 60, RData::ipv4(198, 51, 100, 1))]);
    }
}

#[test]
fn upstream_errors_map_to_codes() {
    let r = finish(Err(UpstreamError::Timeout));
    assert_eq!(r.code, ResponseCode::ServFail);
    assert!(r.answers.is_empty());
    let r = finish(Err(UpstreamError::TransportFailure));
    assert_eq!(r.code, ResponseCode::ServFail);
    let r = finish(Err(UpstreamError::NotFound));
    assert_eq!(r.code, ResponseCode::NXDomain);
    assert_ne!(r.code, ResponseCode::ServFail);
    let r = finish(Ok(vec![]));
    assert_eq!(r.code, ResponseCode::NoError);
    assert!(r.answers.is_empty());
}

#[test]
fn names_compare_case_insensitively() {
    let n = name("WWW.Example.COM.");
    assert_eq!(n.as_bytes().as_slice(), b"www.example.com.");
    assert!(n.same_name(&name("www.example.com.")));
    assert!(!n.same_name(&name("www.example.com")));
    let auth = zone_with("Example.com.", "Mail.EXAMPLE.com.", RData::ipv4(10, 1, 1, 1));
    let r = respond(&auth, &query("mail.example.COM.", RecordType::A), || panic!("forwarder called"));
    assert_eq!(r.answers, vec![rec("mail.example.com.", 60, RData::ipv4(10, 1, 1, 1))]);
}

#[test]
fn invalid_names_are_refused() {
    let long_label = "a".repeat(64);
    assert!(DnsName::parse(&format!("{}.com.", long_label)).is_none());
    assert!(DnsName::parse(&format!("{}.com.", "a".repeat(63))).is_some());
}

#[test]
fn zone_membership() {
    let origin = name("example.com.");
    assert!(name("example.com.").is_within(&origin));
    assert!(name("a.b.example.com.").is_within(&origin));
    assert!(!name("badexample.com.").is_within(&origin));
    assert!(!name("com.").is_within(&origin));
    assert!(name("anything.org.").is_within(&name(".")));
}

#[test]
fn refused_updates_leave_the_zone_unchanged() {
    let mut auth = OverrideAuthority::new(name("example.com."));
    let r = auth.apply(Mutation::Add { name: name("other.org."), ttl: 60, data: RData::ipv4(1, 1, 1, 1), serial: 2 });
    assert_eq!(r, Err(StoreError::OutOfZone));
    assert_eq!(auth.len(), 0);
    assert_eq!(auth.version(), 0);

    let empty = RecordSet { name: name("x.example.com."), rtype: RecordType::A, records: vec![] };
    assert_eq!(auth.upsert(empty, 3), Err(StoreError::EmptySet));
    let mixed = RecordSet {
        name: name("x.example.com."),
        rtype: RecordType::A,
        records: vec![rec("x.example.com.", 1, RData::ipv4(1, 1, 1, 1)), rec("x.example.com.", 1, RData::Aaaa(1))],
    };
    assert_eq!(auth.upsert(mixed, 3), Err(StoreError::TypeMismatch));
    assert_eq!(auth.len(), 0);
    assert!(auth.lookup(&name("x.example.com."), RecordType::A).is_none());
}

#[test]
fn store_keys_by_name_and_type() {
    let mut store = RecordStore::new();
    assert_eq!(store.upsert(RecordSet::single(name("a.test."), 10, RData::ipv4(1, 0, 0, 1)), 1), Ok(()));
    assert_eq!(store.upsert(RecordSet::single(name("a.test."), 10, RData::Aaaa(5)), 2), Ok(()));
    assert_eq!(store.upsert(RecordSet::single(name("b.test."), 10, RData::ipv4(1, 0, 0, 2)), 3), Ok(()));
    assert_eq!(store.len(), 3);
    let s = store.lookup(&name("a.test."), RecordType::Aaaa).unwrap();
    assert_eq!(s.records, vec![rec("a.test.", 10, RData::Aaaa(5))]);
    assert!(store.lookup(&name("b.test."), RecordType::Aaaa).is_none());
    assert!(store.lookup(&name("a.test."), RecordType::Other(15)).is_none());
    assert_eq!(store.version(), 3);
    assert_eq!(check_set(&name("a.test."), RecordType::Aaaa, &vec![rec("a.test.", 1, RData::Aaaa(2))]), None);
    assert_eq!(check_set(&name("a.test."), RecordType::Other(16), &vec![rec("a.test.", 1, RData::Aaaa(2))]), Some(StoreError::TypeMismatch));
}

#[test]
fn ipv4_packs_in_network_order() {
    assert_eq!(RData::ipv4(93, 184, 216, 34), RData::A(0x5DB8_D822));
    assert_eq!(RData::ipv4(255, 255, 255, 255), RData::A(u32::MAX));
    assert_eq!(RData::ipv4(1, 2, 3, 4).record_type(), RecordType::A);
    assert_eq!(RData::Aaaa(0).record_type(), RecordType::Aaaa);
}

#[test]
fn forwarded_answers_keep_every_type_and_owner() {
    let auth = zone_with("example.com.", "example.com.", RData::ipv4(93, 184, 216, 34));
    let mx = RData::Other { rtype: 15, wire: vec![0, 10, 4, b'm', b'a', b'i', b'l', 0] };
    let r = respond(&auth, &query("example.com.", RecordType::Other(15)), || Ok(vec![rec("example.com.", 300, mx)]));
    assert_eq!(r.code, ResponseCode::NoError);
    assert_eq!(r.answers.len(), 1);
    assert_eq!(r.answers[0].data, RData::Other { rtype: 15, wire: vec![0, 10, 4, b'm', b'a', b'i', b'l', 0] });
    assert_eq!(r.answers[0].data.record_type(), RecordType::Other(15));

    let cname = RData::Other { rtype: 5, wire: vec![3, b'c', b'd', b'n', 0] };
    let r = respond(&auth, &query("www.other.org.", RecordType::A), || {
        Ok(vec![rec("www.other.org.", 60, cname), rec("cdn.", 20, RData::ipv4(5, 6, 7, 8))])
    });
    assert_eq!(r.answers, vec![
        rec("www.other.org.", 60, RData::Other { rtype: 5, wire: vec![3, b'c', b'd', b'n', 0] }),
        rec("cdn.", 20, RData::ipv4(5, 6, 7, 8)),
    ]);
}

#[test]
fn override_holds_other_types() {
    let mut auth = OverrideAuthority::new(name("example.com."));
    let txt = RData::Other { rtype: 16, wire: vec![2, b'h', b'i'] };
    assert_eq!(auth.apply(Mutation::Add { name: name("example.com."), ttl: 60, data: txt, serial: 1 }), Ok(()));
    let r = respond(&auth, &query("example.com.", RecordType::Other(16)), || panic!("forwarder called"));
    assert_eq!(r.answers, vec![rec("example.com.", 60, RData::Other { rtype: 16, wire: vec![2, b'h', b'i'] })]);
    let set = auth.lookup(&name("example.com."), RecordType::Other(16)).unwrap();
    assert_eq!(set.records.len(), 1);
    assert_eq!(set.records[0].class, CLASS_IN);
}

#[test]
fn records_of_another_owner_are_refused() {
    let mut auth = OverrideAuthority::new(name("example.com."));
    let set = RecordSet {
        name: name("a.example.com."),
        rtype: RecordType::A,
        records: vec![rec("a.example.com.", 5, RData::ipv4(1, 1, 1, 1)), rec("b.example.com.", 5, RData::ipv4(2, 2, 2, 2))],
    };
    assert_eq!(auth.upsert(set, 1), Err(StoreError::NameMismatch));
    assert_eq!(auth.len(), 0);
}

#[test]
fn escaped_dots_do_not_separate_labels() {
    let origin = name("example.com.");
    let escaped = name("x\\.example.com.");
    assert_eq!(escaped.as_bytes().as_slice(), b"x\\.example.com.");
    assert!(!escaped.is_within(&origin));
    let mut auth = OverrideAuthority::new(name("example.com."));
    let r = auth.apply(Mutation::Add { name: escaped, ttl: 60, data: RData::ipv4(1, 1, 1, 1), serial: 1 });
    assert_eq!(r, Err(StoreError::OutOfZone));
    assert!(DnsName::parse("a\\\\.example.com.").is_none());
    assert!(name("x.y\\.example.com.").is_within(&name("y\\.example.com.")));
}

#[test]
fn overlong_text_is_no_name() {
    let long = format!("{}\u{FFF80}", "a".repeat(4096));
    assert!(DnsName::parse(&long).is_none());
    let just_over = "a".repeat(MAX_NAME_TEXT + 1);
    assert!(DnsName::parse(&just_over).is_none());
    let labels = vec!["abcdefghi"; 25].join(".") + ".";
    assert!(labels.len() <= MAX_NAME_TEXT);
    assert!(DnsName::parse(&labels).is_some());
}

#[test]
fn type_codes_have_one_spelling() {
    assert_eq!(RecordType::from_code(1), RecordType::A);
    assert_eq!(RecordType::from_code(28), RecordType::Aaaa);
    assert_eq!(RecordType::from_code(15), RecordType::Other(15));
    assert_eq!(RecordType::Other(1).canonical(), RecordType::A);
    assert_eq!(RecordType::Other(28).canonical(), RecordType::Aaaa);
    assert_eq!(RecordType::Other(16).canonical(), RecordType::Other(16));
    assert_eq!(RData::Other { rtype: 1, wire: vec![1, 2, 3, 4] }.record_type(), RecordType::A);

    let auth = zone_with("example.com.", "example.com.", RData::ipv4(93, 184, 216, 34));
    let r = respond(&auth, &query("example.com.", RecordType::Other(1)), || panic!("forwarder called"));
    assert_eq!(r.answers, vec![rec("example.com.", 60, RData::ipv4(93, 184, 216, 34))]);
    assert!(auth.lookup(&name("example.com."), RecordType::Other(1)).is_some());

    let mut auth = OverrideAuthority::new(name("example.com."));
    let aliased = RecordSet {
        name: name("example.com."),
        rtype: RecordType::Other(1),
        records: vec![rec("example.com.", 60, RData::ipv4(1, 1, 1, 1))],
    };
    assert_eq!(auth.upsert(aliased, 1), Err(StoreError::TypeMismatch));
}

#[test]
fn lookup_failures_are_sorted() {
    assert_eq!(classify_failure(LookupFailure::NoRecords(0)), Ok(vec![]));
    assert_eq!(classify_failure(LookupFailure::NoRecords(3)), Err(UpstreamError::NotFound));
    assert_eq!(classify_failure(LookupFailure::NoRecords(2)), Err(UpstreamError::TransportFailure));
    assert_eq!(classify_failure(LookupFailure::NoRecords(5)), Err(UpstreamError::TransportFailure));
    assert_eq!(classify_failure(LookupFailure::Timeout), Err(UpstreamError::Timeout));
    assert_eq!(classify_failure(LookupFailure::Transport), Err(UpstreamError::TransportFailure));
    assert_eq!(finish(classify_failure(LookupFailure::NoRecords(2))).code, ResponseCode::ServFail);
    assert_eq!(finish(classify_failure(LookupFailure::NoRecords(3))).code, ResponseCode::NXDomain);
    let r = finish(classify_failure(LookupFailure::NoRecords(0)));
    assert_eq!(r.code, ResponseCode::NoError);
    assert!(r.answers.is_empty());
}
