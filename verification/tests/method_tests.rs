use sip_transaction::cancel::{
    create_cancel_request, find_invite_transaction_for_cancel, find_matching_invite_transaction,
    is_cancel_for_invite, validate_cancel_request,
};
use sip_transaction::error::{Error, HeaderField};
use sip_transaction::key::TransactionKey;
use sip_transaction::message::{CSeqInfo, Party, RequestInfo};
use sip_transaction::method::Method;
use sip_transaction::state::TransactionKind;
use sip_transaction::update::{create_update_request, validate_update_request};
use sip_transaction::cancel::{cancel_ok_response, request_terminated_response, stray_cancel_response};
use sip_transaction::drafts::{cancel_request_draft, update_request_draft};
use sip_transaction::request_builders::RequestPart;
use sip_transaction::response_builders::ResponsePart;
use rvoip_sip_core::types::{Address, From, To};
use rvoip_sip_core::{TypedHeader, Uri};

fn with_headers(mut r: RequestInfo) -> RequestInfo {
    let from_uri: Uri = r.from.as_ref().unwrap().uri.parse().unwrap();
    let mut from = From::new(Address::new(from_uri));
    if let Some(t) = &r.from.as_ref().unwrap().tag {
        from.set_tag(t.clone());
    }
    let to_uri: Uri = r.to.as_ref().unwrap().uri.parse().unwrap();
    let mut to = To::new(Address::new(to_uri));
    if let Some(t) = &r.to.as_ref().unwrap().tag {
        to.set_tag(t.clone());
    }
    r.from_header = Some(TypedHeader::From(from));
    r.to_header = Some(TypedHeader::To(to));
    let via = |host: &str, branch: &str| {
        let params = vec![rvoip_sip_core::types::Param::branch(branch.to_string())];
        TypedHeader::Via(rvoip_sip_core::types::via::Via::new("SIP", "2.0", "UDP", host, Some(5060), params).unwrap())
    };
    r.via_headers = vec![via("10.0.0.1", "z9hG4bKtop"), via("10.0.0.2", "z9hG4bKlow")];
    r
}

fn party(display: &str, uri: &str, tag: Option<&str>) -> Party {
    Party {
        display_name: Some(display.to_string()),
        uri: uri.to_string(),
        tag: tag.map(|t| t.to_string()),
    }
}

fn request(
    method: Method,
    uri: &str,
    from: Party,
    to: Party,
    call_id: &str,
    seq: u32,
    branch: &str,
    max_forwards: bool,
) -> RequestInfo {
    RequestInfo {
        method: method.clone(),
        uri: uri.to_string(),
        via_branches: vec![Some(branch.to_string())],
        call_id: Some(call_id.to_string()),
        from: Some(from),
        to: Some(to),
        cseq: Some(CSeqInfo { seq, method }),
        has_max_forwards: max_forwards,
        has_contact: false,
        routes: Vec::new(),
        via_headers: Vec::new(),
        from_header: None,
        to_header: None,
    }
}

fn create_test_invite() -> RequestInfo {
    request(
        Method::Invite,
        "sip:bob@example.com",
        party("Alice", "sip:alice@example.com", Some("alice-tag")),
        party("Bob", "sip:bob@example.com", None),
        "test-call-id-1234",
        101,
        "z9hG4bK.originalbranchvalue",
        true,
    )
}

#[test]
fn transaction_kind_creation() {
    let _invite_client = TransactionKind::InviteClient;
    let _non_invite_client = TransactionKind::NonInviteClient;
    let _invite_server = TransactionKind::InviteServer;
    let _non_invite_server = TransactionKind::NonInviteServer;
}

#[test]
fn test_create_cancel_request() {
    let invite = create_test_invite();
    let cancel = create_cancel_request(&invite).expect("Failed to create CANCEL");

    assert_eq!(cancel.method, Method::Cancel);
    assert_eq!(cancel.uri, invite.uri);
    assert_eq!(cancel.from.as_ref().unwrap().tag, invite.from.as_ref().unwrap().tag);
    assert_eq!(cancel.to.as_ref().unwrap().uri, invite.to.as_ref().unwrap().uri);
    assert_eq!(cancel.call_id.as_ref().unwrap(), invite.call_id.as_ref().unwrap());

    let cancel_cseq = cancel.cseq.as_ref().unwrap();
    let invite_cseq = invite.cseq.as_ref().unwrap();
    assert_eq!(cancel_cseq.seq, invite_cseq.seq);
    assert_eq!(cancel_cseq.method, Method::Cancel);

    assert_eq!(cancel.via_branches[0].as_ref().unwrap(), invite.via_branches[0].as_ref().unwrap());
}

#[test]
fn test_create_cancel_for_non_invite() {
    let register = request(
        Method::Register,
        "sip:registrar.example.com",
        party("Alice", "sip:alice@example.com", Some("alice-tag")),
        party("Registrar", "sip:registrar.example.com", None),
        "test-call-id-1234",
        1,
        "z9hG4bK.branchvalue",
        false,
    );
    let result = create_cancel_request(&register);
    assert!(result.is_err(), "Should error when creating CANCEL for non-INVITE");
    assert_eq!(result.unwrap_err(), Error::WrongMethod);
}

#[test]
fn test_validate_cancel_request() {
    let invite = create_test_invite();
    let cancel = create_cancel_request(&invite).expect("Failed to create CANCEL");
    assert!(validate_cancel_request(&cancel).is_ok());

    let mut invalid_cancel = create_cancel_request(&invite).unwrap();
    invalid_cancel.call_id = None;
    assert!(validate_cancel_request(&invalid_cancel).is_err(), "Should fail with missing Call-ID");

    let mut invalid_cancel = create_cancel_request(&invite).unwrap();
    invalid_cancel.from = None;
    assert!(validate_cancel_request(&invalid_cancel).is_err(), "Should fail with missing From");

    let mut invalid_cancel = create_cancel_request(&invite).unwrap();
    invalid_cancel.to = None;
    assert!(validate_cancel_request(&invalid_cancel).is_err(), "Should fail with missing To");

    let mut invalid_cancel = create_cancel_request(&invite).unwrap();
    invalid_cancel.cseq = None;
    assert!(validate_cancel_request(&invalid_cancel).is_err(), "Should fail with missing CSeq");

    let mut invalid_cancel = create_cancel_request(&invite).unwrap();
    invalid_cancel.via_branches.clear();
    assert!(validate_cancel_request(&invalid_cancel).is_err(), "Should fail with missing Via");

    let mut invalid_cancel = create_cancel_request(&invite).unwrap();
    invalid_cancel.has_max_forwards = false;
    assert!(validate_cancel_request(&invalid_cancel).is_err(), "Should fail with missing Max-Forwards");
}

#[test]
fn cancel_validation_reports_each_defect() {
    let invite = create_test_invite();
    let mut c = create_cancel_request(&invite).unwrap();
    c.via_branches.push(Some("z9hG4bK.second".to_string()));
    assert_eq!(validate_cancel_request(&c), Err(Error::TooManyVias));
    assert_eq!(validate_cancel_request(&invite), Err(Error::WrongMethod));
    let mut c = create_cancel_request(&invite).unwrap();
    c.has_max_forwards = false;
    assert_eq!(validate_cancel_request(&c), Err(Error::MissingHeader(HeaderField::MaxForwards)));
}

#[test]
fn test_is_cancel_for_invite() {
    let invite = create_test_invite();
    let cancel = create_cancel_request(&invite).expect("Failed to create CANCEL");
    assert!(is_cancel_for_invite(&cancel, &invite));

    let other_invite = request(
        Method::Invite,
        "sip:alice@example.com",
        party("Bob", "sip:bob@example.com", Some("bob-tag")),
        party("Alice", "sip:alice@example.com", None),
        "different-call-id",
        101,
        "z9hG4bK.other",
        false,
    );
    assert!(!is_cancel_for_invite(&cancel, &other_invite));

    let register = request(
        Method::Register,
        "sip:registrar.example.com",
        party("Alice", "sip:alice@example.com", Some("alice-tag")),
        party("Registrar", "sip:registrar.example.com", None),
        "test-call-id-1234",
        101,
        "z9hG4bK.branch",
        false,
    );
    assert!(!is_cancel_for_invite(&cancel, &register));
}

#[test]
fn test_find_invite_transaction_for_cancel() {
    let invite = create_test_invite();
    let cancel = create_cancel_request(&invite).expect("Failed to create CANCEL");

    let invite_branch = invite.via_branches[0].clone().unwrap();
    let invite_key = TransactionKey::new(invite_branch.clone(), Method::Invite, false);

    let result = find_invite_transaction_for_cancel(&cancel, &vec![invite_key.clone()]);
    assert!(result.is_some());

    let other_key = TransactionKey::new("z9hG4bK.otherkey".to_string(), Method::Invite, false);
    let result = find_invite_transaction_for_cancel(&cancel, &vec![other_key]);
    assert!(result.is_none());

    let cancel_branch = cancel.via_branches[0].clone().unwrap();
    assert_eq!(cancel_branch, invite_branch);

    let result = find_matching_invite_transaction(&cancel, &vec![invite_key.clone()]);
    assert!(result.is_some());
    assert_eq!(result.unwrap().branch(), invite_branch);
}

fn update_request(to_tag: Option<&str>) -> RequestInfo {
    let mut r = request(
        Method::Update,
        "sip:alice@example.com",
        party("Alice", "sip:alice@example.com", Some("alice-tag")),
        party("Bob", "sip:bob@example.com", to_tag),
        "test-call-id",
        1,
        "z9hG4bK.u",
        false,
    );
    r.has_contact = true;
    r
}

#[test]
fn test_validate_update_request() {
    let request = update_request(Some("bob-tag"));
    assert!(validate_update_request(&request).is_ok());

    let mut method_request = update_request(Some("bob-tag"));
    method_request.method = Method::Info;
    assert!(validate_update_request(&method_request).is_err(),
        "Request with non-UPDATE method should fail validation");

    let no_tag_request = update_request(None);
    let result = validate_update_request(&no_tag_request);
    assert!(result.is_err(), "UPDATE request without To tag should fail validation");

    let empty_tag_request = update_request(Some(""));
    let result2 = validate_update_request(&empty_tag_request);
    assert!(result2.is_err(), "UPDATE request with empty To tag should fail validation");

    let mut request_no_contact = update_request(Some("bob-tag"));
    request_no_contact.has_contact = false;
    assert!(validate_update_request(&request_no_contact).is_ok(),
        "Missing Contact should issue a warning but pass validation according to RFC 3311");
}

#[test]
fn test_create_update_invalid_input() {
    let out_of_dialog_invite = request(
        Method::Invite,
        "sip:bob@example.com",
        party("Alice", "sip:alice@example.com", Some("alice-tag")),
        party("Bob", "sip:bob@example.com", None),
        "test-call-id-1234",
        101,
        "z9hG4bK.branch",
        false,
    );
    let result = create_update_request(&out_of_dialog_invite);
    assert!(result.is_err());
    assert_eq!(result.unwrap_err(), Error::MissingToTag);
}

#[test]
fn update_follows_the_dialog() {
    let invite = request(
        Method::Invite,
        "sip:bob@example.com",
        party("Alice", "sip:alice@example.com", Some("alice-tag")),
        party("Bob", "sip:bob@example.com", Some("bob-tag")),
        "test-call-id-1234",
        101,
        "z9hG4bK.originalbranchvalue",
        true,
    );
    let update = create_update_request(&invite).unwrap();
    assert_eq!(update.method, Method::Update);
    assert_eq!(update.call_id, invite.call_id);
    assert_eq!(update.from.as_ref().unwrap().tag, invite.from.as_ref().unwrap().tag);
    assert_eq!(update.to.as_ref().unwrap().tag, invite.to.as_ref().unwrap().tag);
    assert_eq!(update.cseq.as_ref().unwrap().seq, 102);
    assert_eq!(update.cseq.as_ref().unwrap().method, Method::Update);
    let branch = update.via_branches[0].clone().unwrap();
    assert!(branch.starts_with("z9hG4bK"));
    assert_ne!(branch, "z9hG4bK.originalbranchvalue");
    assert!(update.has_contact);
    assert!(update.has_max_forwards);
    assert!(validate_update_request(&update).is_ok());
}

#[test]
fn cancel_carries_and_matches_the_route_set() {
    let mut invite = create_test_invite();
    invite.routes = vec!["sip:p1.example.com;lr".to_string(), "sip:p2.example.com;lr".to_string()];
    let cancel = create_cancel_request(&invite).unwrap();
    assert_eq!(cancel.routes, invite.routes);
    assert!(is_cancel_for_invite(&cancel, &invite));
    let mut reordered = create_cancel_request(&invite).unwrap();
    reordered.routes.reverse();
    assert!(!is_cancel_for_invite(&reordered, &invite));
    let mut fewer = create_cancel_request(&invite).unwrap();
    fewer.routes.pop();
    assert!(!is_cancel_for_invite(&fewer, &invite));
}

#[test]
fn cancel_answers_copy_to_from_call_id_cseq_and_first_via() {
    let invite = with_headers(create_test_invite());
    let mut cancel = create_cancel_request(&invite).unwrap();
    cancel.via_headers = invite.via_headers.clone();
    for (r, status) in [(cancel_ok_response(&cancel), 200u16), (stray_cancel_response(&cancel), 481), (request_terminated_response(&invite), 487)] {
        assert_eq!(r.status, status);
        assert_eq!(r.reason_phrase, None);
        match &r.parts[..] {
            [ResponsePart::To { header: to, tag: None }, ResponsePart::From(from), ResponsePart::CallId(c), ResponsePart::CSeq { seq, .. }, ResponsePart::Via(v), ResponsePart::ContentLength(0)] => {
                assert_eq!(Some(to), invite.to_header.as_ref());
                assert_eq!(Some(from), invite.from_header.as_ref());
                assert_eq!(c, "test-call-id-1234");
                assert_eq!(*seq, 101);
                assert_eq!(v, &invite.via_headers[0]);
            }
            other => panic!("unexpected parts {:?}", other),
        }
    }
}

#[test]
fn cancel_draft_has_max_forwards_length_routes_and_local_via() {
    let mut invite = with_headers(create_test_invite());
    invite.routes = vec!["sip:p1.example.com;lr".to_string(), "sip:p2.example.com;lr".to_string()];
    let cancel = create_cancel_request(&invite).unwrap();
    let d = cancel_request_draft(&cancel, "192.0.2.1:5060");
    assert_eq!(d.method, Method::Cancel);
    assert_eq!(d.request_uri, "sip:bob@example.com");
    match &d.parts[..] {
        [RequestPart::Custom(f), RequestPart::Custom(t), RequestPart::CallId(c), RequestPart::CSeq(101), RequestPart::MaxForwardsHeader(70), RequestPart::ContentLength(0), RequestPart::RouteText(r1), RequestPart::RouteText(r2), RequestPart::Via { host, transport, branch }] => {
            assert_eq!(Some(f), invite.from_header.as_ref());
            assert_eq!(Some(t), invite.to_header.as_ref());
            assert_eq!(c, "test-call-id-1234");
            assert_eq!(r1, "sip:p1.example.com;lr");
            assert_eq!(r2, "sip:p2.example.com;lr");
            assert_eq!(host, "192.0.2.1:5060");
            assert_eq!(transport, "UDP");
            assert_eq!(branch, "z9hG4bK.originalbranchvalue");
        }
        other => panic!("unexpected parts {:?}", other),
    }
}

#[test]
fn update_draft_carries_the_sdp_body() {
    let base = with_headers(update_request(Some("bob-tag")));
    let update = create_update_request(&base).unwrap();
    let sdp = "v=0\r\no=alice 1 2 IN IP4 127.0.0.1\r\n".to_string();
    let d = update_request_draft(&update, "127.0.0.1:5060", Some(sdp.clone()));
    assert_eq!(d.method, Method::Update);
    let n = d.parts.len();
    assert!(matches!(&d.parts[n - 3], RequestPart::ContentType { media_type, subtype } if media_type == "application" && subtype == "sdp"));
    assert!(matches!(&d.parts[n - 2], RequestPart::ContentLength(len) if *len as usize == sdp.len()));
    assert!(matches!(&d.parts[n - 1], RequestPart::Body(b) if *b == sdp));
    assert!(d.parts.iter().any(|p| matches!(p, RequestPart::ContactUri(c) if c == "sip:127.0.0.1:5060")));
    assert!(d.parts.iter().any(|p| matches!(p, RequestPart::MaxForwardsHeader(70))));
    assert!(d.parts.iter().any(|p| matches!(p, RequestPart::CSeq(n) if *n == base.cseq.as_ref().unwrap().seq + 1)));
    let empty = update_request_draft(&update, "127.0.0.1:5060", None);
    assert!(matches!(empty.parts.last(), Some(RequestPart::ContentLength(0))));
}
