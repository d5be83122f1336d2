use std::collections::HashSet;

use sip_transaction::key::{KeyParseError, TransactionId, TransactionKey};
use sip_transaction::message::{CSeqInfo, Party, RequestInfo, ResponseInfo};
use sip_transaction::method::Method;

fn party(uri: &str) -> Party {
    Party { display_name: None, uri: uri.to_string(), tag: None }
}

/// A request as the original tests build it: a Via with the branch (or none
/// when the branch is empty), From, To, Call-ID and CSeq.
fn create_test_request_custom(method: Method, branch_opt: Option<&str>, add_via: bool) -> RequestInfo {
    let mut via_branches = Vec::new();
    if add_via {
        match branch_opt {
            Some(b) if !b.is_empty() => via_branches.push(Some(b.to_string())),
            _ => via_branches.push(None),
        }
    }
    RequestInfo {
        method: method.clone(),
        uri: "sip:test@example.com".to_string(),
        via_branches,
        call_id: Some("callid-test-key".to_string()),
        from: Some(party("sip:alice@localhost")),
        to: Some(party("sip:bob@localhost")),
        cseq: Some(CSeqInfo { seq: 1, method }),
        has_max_forwards: false,
        has_contact: false,
        routes: Vec::new(),
        via_headers: Vec::new(),
        from_header: None,
        to_header: None,
    }
}

fn create_test_response_custom(
    method_for_cseq: Method,
    branch_opt: Option<&str>,
    add_via: bool,
    add_cseq: bool,
) -> ResponseInfo {
    let mut via_branches = Vec::new();
    if add_via {
        match branch_opt {
            Some(b) if !b.is_empty() => via_branches.push(Some(b.to_string())),
            _ => via_branches.push(None),
        }
    }
    ResponseInfo {
        status: 200,
        via_branches,
        call_id: Some("callid-test-key".to_string()),
        from: Some(party("sip:alice@localhost")),
        to: Some(party("sip:bob@localhost")),
        cseq: if add_cseq { Some(CSeqInfo { seq: 1, method: method_for_cseq }) } else { None },
    }
}

#[test]
fn test_transaction_key_new() {
    let key = TransactionKey::new("branch1".to_string(), Method::Invite, true);
    assert_eq!(key.branch(), "branch1");
    assert_eq!(*key.method(), Method::Invite);
    assert!(key.is_server());
}

#[test]
fn test_from_request_success() {
    let req = create_test_request_custom(Method::Invite, Some("branch2"), true);
    let key = TransactionKey::from_request(&req).unwrap();
    assert_eq!(key.branch(), "branch2");
    assert_eq!(*key.method(), Method::Invite);
    assert!(key.is_server());
}

#[test]
fn test_from_request_no_via() {
    let req = create_test_request_custom(Method::Invite, None, false);
    assert!(TransactionKey::from_request(&req).is_none());
}

#[test]
fn test_from_request_via_no_branch() {
    let req = create_test_request_custom(Method::Invite, Some(""), true);
    assert!(TransactionKey::from_request(&req).is_none());
}

#[test]
fn test_from_request_via_empty_branch() {
    let req = create_test_request_custom(Method::Invite, Some(""), true);
    assert!(TransactionKey::from_request(&req).is_none());
}

#[test]
fn test_from_response_success() {
    let res = create_test_response_custom(Method::Invite, Some("branch3"), true, true);
    let key = TransactionKey::from_response(&res).unwrap();
    assert_eq!(key.branch(), "branch3");
    assert_eq!(*key.method(), Method::Invite);
    assert!(!key.is_server());
}

#[test]
fn test_from_response_no_via() {
    let res = create_test_response_custom(Method::Invite, None, false, true);
    assert!(TransactionKey::from_response(&res).is_none());
}

#[test]
fn test_from_response_via_no_branch() {
    let res = create_test_response_custom(Method::Invite, Some(""), true, true);
    assert!(TransactionKey::from_response(&res).is_none());
}

#[test]
fn test_from_response_via_empty_branch() {
    let res = create_test_response_custom(Method::Invite, Some(""), true, true);
    assert!(TransactionKey::from_response(&res).is_none());
}

#[test]
fn test_from_response_no_cseq() {
    let res = create_test_response_custom(Method::Invite, Some("branch4"), true, false);
    assert!(TransactionKey::from_response(&res).is_none());
}

#[test]
fn test_transaction_key_equality() {
    let key1 = TransactionKey::new("b1".to_string(), Method::Invite, true);
    let key2 = TransactionKey::new("b1".to_string(), Method::Invite, true);
    let key3 = TransactionKey::new("b2".to_string(), Method::Invite, true);
    let key4 = TransactionKey::new("b1".to_string(), Method::Register, true);
    let key5 = TransactionKey::new("b1".to_string(), Method::Invite, false);

    assert_eq!(key1, key2);
    assert_ne!(key1, key3);
    assert_ne!(key1, key4);
    assert_ne!(key1, key5);
}

#[test]
fn test_transaction_key_hashing() {
    let key1 = TransactionKey::new("hash_branch".to_string(), Method::Ack, false);
    let key2 = TransactionKey::new("hash_branch".to_string(), Method::Ack, false);
    let key3 = TransactionKey::new("other_branch".to_string(), Method::Ack, false);

    let mut set = HashSet::new();
    assert!(set.insert(key1.clone()));
    assert!(!set.insert(key2.clone()));
    assert!(set.insert(key3.clone()));
    assert_eq!(set.len(), 2);
}

#[test]
fn test_transaction_key_display_debug_format() {
    let key_server = TransactionKey::new("z9hG4bKalpha".to_string(), Method::Invite, true);
    let key_client = TransactionKey::new("z9hG4bKbeta".to_string(), Method::Message, false);

    assert_eq!(key_server.to_display_text(), "Key(z9hG4bKalpha:INVITE:server)");
    assert_eq!(key_server.to_text(), "z9hG4bKalpha:INVITE:server");

    assert_eq!(key_client.to_display_text(), "Key(z9hG4bKbeta:MESSAGE:client)");
    assert_eq!(key_client.to_text(), "z9hG4bKbeta:MESSAGE:client");

    let key_ack = TransactionKey::new("z9hG4bKgamma".to_string(), Method::Ack, true);
    assert_eq!(key_ack.to_text(), "z9hG4bKgamma:ACK:server");
}

#[test]
fn transaction_id_type_alias() {
    let key = TransactionKey::new("id_branch".to_string(), Method::Info, true);
    let id: TransactionId = key.clone();
    assert_eq!(key, id);
}

#[test]
fn test_transaction_key_from_str() {
    let debug_str = "z9hG4bKalpha:INVITE:server";
    let key1 = TransactionKey::parse(debug_str).unwrap();
    assert_eq!(key1.branch(), "z9hG4bKalpha");
    assert_eq!(*key1.method(), Method::Invite);
    assert!(key1.is_server());

    let display_str = "Key(z9hG4bKbeta:MESSAGE:client)";
    let key2 = TransactionKey::parse(display_str).unwrap();
    assert_eq!(key2.branch(), "z9hG4bKbeta");
    assert_eq!(*key2.method(), Method::Message);
    assert!(!key2.is_server());

    let old_debug_str = "z9hG4bKgamma:INVITE:server:INVITE_LIKE";
    let key3 = TransactionKey::parse(old_debug_str).unwrap();
    assert_eq!(key3.branch(), "z9hG4bKgamma");
    assert_eq!(*key3.method(), Method::Invite);
    assert!(key3.is_server());

    let old_debug_str2 = "z9hG4bKdelta:MESSAGE:client:NON_INVITE_LIKE";
    let key4 = TransactionKey::parse(old_debug_str2).unwrap();
    assert_eq!(key4.branch(), "z9hG4bKdelta");
    assert_eq!(*key4.method(), Method::Message);
    assert!(!key4.is_server());
}

#[test]
fn test_transaction_key_from_str_error() {
    let invalid_str = "z9hG4bKalpha:INVITE";
    assert!(TransactionKey::parse(invalid_str).is_err());

    let empty_method = "z9hG4bKalpha::server";
    assert!(TransactionKey::parse(empty_method).is_err());

    let invalid_side = "z9hG4bKalpha:INVITE:invalid";
    assert!(TransactionKey::parse(invalid_side).is_err());
}

#[test]
fn key_parse_errors_are_specific() {
    assert_eq!(TransactionKey::parse("a:INVITE").unwrap_err(), KeyParseError::WrongFieldCount);
    assert_eq!(TransactionKey::parse("a::server").unwrap_err(), KeyParseError::InvalidMethod);
    assert_eq!(TransactionKey::parse("a:INVITE:x").unwrap_err(), KeyParseError::InvalidSide);
}

#[test]
fn key_text_roundtrip_on_examples() {
    let keys = vec![
        TransactionKey::new("z9hG4bK776asdhds".to_string(), Method::Invite, false),
        TransactionKey::new("z9hG4bKabc".to_string(), Method::Cancel, true),
        TransactionKey::new("b".to_string(), Method::Extension("FOO".to_string()), true),
    ];
    for k in keys {
        assert_eq!(TransactionKey::parse(&k.to_text()).unwrap(), k);
        assert_eq!(TransactionKey::parse(&k.to_display_text()).unwrap(), k);
    }
}

#[test]
fn with_method_keeps_branch_and_side() {
    let k = TransactionKey::new("z9hG4bKx".to_string(), Method::Invite, false);
    let c = k.with_method(Method::Cancel);
    assert_eq!(c.branch(), "z9hG4bKx");
    assert_eq!(*c.method(), Method::Cancel);
    assert!(!c.is_server());
}
