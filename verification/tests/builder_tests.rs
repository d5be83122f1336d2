use sip_transaction::client_quick;
use sip_transaction::dialog::{
    create_dialog_transaction_context, extract_dialog_template_from_request,
    request_builder_from_dialog_template, response_builder_for_dialog_transaction,
    DialogRequestTemplate,
};
use sip_transaction::error::Error;
use sip_transaction::message::{CSeqInfo, Party, RequestInfo};
use sip_transaction::method::Method;
use sip_transaction::request_builders::{
    sdp_body_parts, BuildError, ByeBuilder, InDialogRequestBuilder, InviteBuilder, RegisterBuilder, RequestDraft, RequestPart,
};
use sip_transaction::response_builders::{
    InviteResponseBuilder, ResponseBuildError, ResponseBuilder, ResponseDraft, ResponsePart,
};
use sip_transaction::server_quick;
use rvoip_sip_core::types::{Address, From, To};
use rvoip_sip_core::{TypedHeader, Uri};

/// What the original tests read of a built request, taken from a draft.
fn summary(d: &RequestDraft) -> RequestInfo {
    let mut info = RequestInfo {
        method: d.method.clone(),
        uri: d.request_uri.clone(),
        via_branches: Vec::new(),
        call_id: None,
        from: None,
        to: None,
        cseq: None,
        has_max_forwards: false,
        has_contact: false,
        routes: Vec::new(),
        via_headers: Vec::new(),
        from_header: None,
        to_header: None,
    };
    for p in &d.parts {
        match p {
            RequestPart::From { display_name, uri, tag } => {
                info.from = Some(Party { display_name: Some(display_name.clone()), uri: uri.clone(), tag: tag.clone() });
                let mut from = From::new(Address::new(uri.parse::<Uri>().unwrap()));
                if let Some(t) = tag {
                    from.set_tag(t.clone());
                }
                info.from_header = Some(TypedHeader::From(from));
            }
            RequestPart::To { display_name, uri, tag } => {
                info.to = Some(Party { display_name: Some(display_name.clone()), uri: uri.clone(), tag: tag.clone() });
                let mut to = To::new(Address::new(uri.parse::<Uri>().unwrap()));
                if let Some(t) = tag {
                    to.set_tag(t.clone());
                }
                info.to_header = Some(TypedHeader::To(to));
            }
            RequestPart::CallId(c) => info.call_id = Some(c.clone()),
            RequestPart::CSeq(n) => info.cseq = Some(CSeqInfo { seq: *n, method: d.method.clone() }),
            RequestPart::Via { branch, .. } => info.via_branches.push(Some(branch.clone())),
            RequestPart::MaxForwards(_) | RequestPart::MaxForwardsHeader(_) => info.has_max_forwards = true,
            RequestPart::Contact(_) | RequestPart::ContactUri(_) => info.has_contact = true,
            _ => {}
        }
    }
    info
}

fn body_of(d: &RequestDraft) -> Option<String> {
    d.parts.iter().find_map(|p| match p {
        RequestPart::Body(b) => Some(b.clone()),
        _ => None,
    })
}

fn content_length_of(d: &RequestDraft) -> Option<u32> {
    d.parts.iter().find_map(|p| match p {
        RequestPart::ContentLength(n) => Some(*n),
        _ => None,
    })
}

fn to_header(uri: &str) -> TypedHeader {
    TypedHeader::To(To::new(Address::new(uri.parse::<Uri>().unwrap())))
}

fn via_header(host: &str, branch: &str) -> TypedHeader {
    let params = vec![rvoip_sip_core::types::Param::branch(branch.to_string())];
    TypedHeader::Via(rvoip_sip_core::types::via::Via::new("SIP", "2.0", "UDP", host, Some(5060), params).unwrap())
}

fn response_to_tag(r: &ResponseDraft) -> Option<String> {
    r.parts.iter().find_map(|p| match p {
        ResponsePart::To { tag, .. } => tag.clone(),
        _ => None,
    })
}

fn response_body(r: &ResponseDraft) -> Option<String> {
    r.parts.iter().find_map(|p| match p {
        ResponsePart::Body(b) => Some(b.clone()),
        _ => None,
    })
}

fn template() -> DialogRequestTemplate {
    DialogRequestTemplate {
        call_id: "test-call-123".to_string(),
        from_uri: "sip:alice@example.com".to_string(),
        from_tag: "alice-tag".to_string(),
        to_uri: "sip:bob@example.com".to_string(),
        to_tag: "bob-tag".to_string(),
        request_uri: "sip:bob@example.com".to_string(),
        cseq: 2,
        local_address: "127.0.0.1:5060".to_string(),
        route_set: vec![],
        contact: None,
    }
}

#[test]
fn test_dialog_template_creation() {
    let template = template();
    let bye_draft = request_builder_from_dialog_template(&template, Method::Bye, None, None)
        .expect("Failed to create BYE from template");
    let bye_request = summary(&bye_draft);

    assert_eq!(bye_request.method, Method::Bye);
    assert_eq!(bye_request.call_id.unwrap(), template.call_id);
    assert_eq!(bye_request.from.unwrap().tag.unwrap(), template.from_tag);
    assert_eq!(bye_request.to.unwrap().tag.unwrap(), template.to_tag);
    assert_eq!(bye_request.cseq.unwrap().seq, template.cseq);
}

#[test]
fn test_dialog_transaction_context() {
    let local_addr = "127.0.0.1:5060";
    let original_draft = InviteBuilder::new()
        .from_to("sip:alice@example.com", "sip:bob@example.com")
        .local_address(local_addr)
        .build()
        .expect("Failed to create INVITE");
    let original_request = summary(&original_draft);

    let context = create_dialog_transaction_context(
        "txn-123",
        original_request,
        Some("dialog-456".to_string()),
        local_addr,
    );

    assert_eq!(context.transaction_id, "txn-123");
    assert_eq!(context.dialog_id, Some("dialog-456".to_string()));
    assert!(context.is_dialog_creating);
    assert_eq!(context.local_address, local_addr);

    let response = response_builder_for_dialog_transaction(
        &context,
        200,
        Some(local_addr),
        Some("v=0\r\no=server 456 789 IN IP4 127.0.0.1\r\n".to_string()),
    )
    .expect("Failed to build response from context");

    assert_eq!(response.status, 200);
    assert!(response_to_tag(&response).is_some());
    assert!(response_body(&response).unwrap().len() > 0);
}

#[test]
fn invite_builder_reports_missing_fields_in_order() {
    assert_eq!(InviteBuilder::new().build().unwrap_err(), BuildError::FromUriRequired);
    let b = InviteBuilder::new().from_to("sip:a@x", "sip:b@y");
    assert_eq!(b.build().unwrap_err(), BuildError::LocalAddressRequired);
    assert_eq!(ByeBuilder::new().build().unwrap_err(), BuildError::CallIdRequired);
    assert_eq!(RegisterBuilder::new().build().unwrap_err(), BuildError::RegistrarUriRequired);
    let d = InDialogRequestBuilder::new(Method::Info)
        .from_dialog("c", "sip:a@x", "ta", "sip:b@y", "tb", 3, "127.0.0.1:5060");
    assert!(d.build().is_ok());
}

#[test]
fn invite_builder_defaults() {
    let d = InviteBuilder::new()
        .from_to("sip:alice@example.com", "sip:bob@example.com")
        .local_address("127.0.0.1:5060")
        .with_sdp("v=0\r\n")
        .build()
        .unwrap();
    let info = summary(&d);
    assert_eq!(d.request_uri, "sip:bob@example.com");
    assert!(info.call_id.as_ref().unwrap().starts_with("call-"));
    assert_eq!(info.call_id.as_ref().unwrap().len(), 41);
    let tag = info.from.as_ref().unwrap().tag.clone().unwrap();
    assert!(tag.starts_with("tag-"));
    assert_eq!(tag.len(), 36);
    assert_eq!(info.from.as_ref().unwrap().display_name.as_deref(), Some("User"));
    assert!(info.via_branches[0].as_ref().unwrap().starts_with("z9hG4bK"));
    assert_eq!(content_length_of(&d), Some(5));
    assert_eq!(body_of(&d).as_deref(), Some("v=0\r\n"));
    assert_eq!(info.cseq.as_ref().unwrap().seq, 1);
}

#[test]
fn content_length_counts_bytes() {
    let d = InDialogRequestBuilder::for_message("é", None)
        .from_dialog("c", "sip:a@x", "ta", "sip:b@y", "tb", 3, "127.0.0.1:5060")
        .build()
        .unwrap();
    assert_eq!(content_length_of(&d), Some(2));
    assert!(d.parts.iter().any(|p| matches!(p, RequestPart::ContentType { media_type, subtype }
        if media_type == "text" && subtype == "plain")));
}

#[test]
fn register_defaults_contact_to_local_address() {
    let d = client_quick::register("sip:registrar.example.com", "sip:alice@example.com", "Alice", "10.0.0.1:5060", Some(3600))
        .unwrap();
    assert!(d.parts.iter().any(|p| matches!(p, RequestPart::Contact(c) if c == "sip:user@10.0.0.1:5060")));
    assert!(d.parts.iter().any(|p| matches!(p, RequestPart::Expires(3600))));
    let info = summary(&d);
    assert!(info.call_id.unwrap().starts_with("reg-"));
    assert_eq!(info.to.unwrap().tag, None);
}

#[test]
fn refer_body_and_type() {
    let b = InDialogRequestBuilder::for_refer("sip:carol@example.com");
    assert_eq!(b.body.as_deref(), Some("Refer-To: sip:carol@example.com\r\n"));
    assert_eq!(b.content_type.as_deref(), Some("message/sipfrag"));
}

#[test]
fn response_contact_must_parse() {
    let req = RequestInfo {
        method: Method::Invite,
        uri: "sip:bob@example.com".to_string(),
        via_branches: vec![Some("z9hG4bKa".to_string())],
        call_id: Some("c".to_string()),
        from: Some(Party { display_name: None, uri: "sip:a@x".to_string(), tag: Some("t".to_string()) }),
        to: Some(Party { display_name: None, uri: "sip:b@y".to_string(), tag: None }),
        cseq: Some(CSeqInfo { seq: 1, method: Method::Invite }),
        has_max_forwards: true,
        has_contact: false,
        routes: Vec::new(),
        via_headers: Vec::new(),
        from_header: None,
        to_header: Some(to_header("sip:b@y")),
    };
    let bad = ResponseBuilder::new(200).from_request(&req).with_contact("not a uri at all").build();
    assert_eq!(bad.unwrap_err(), ResponseBuildError::InvalidContactUri);
    let ok = InviteResponseBuilder::new(180).from_request(&req).build().unwrap();
    assert!(response_to_tag(&ok).unwrap().starts_with("tag-"));
    let trying = server_quick::trying(&req).unwrap();
    assert_eq!(trying.status, 100);
    assert!(response_to_tag(&trying).is_none());
}

#[test]
fn template_extraction_takes_an_untagged_to() {
    let mut req = RequestInfo {
        method: Method::Invite,
        uri: "sip:bob@example.com".to_string(),
        via_branches: vec![Some("z9hG4bKa".to_string())],
        call_id: Some("c".to_string()),
        from: Some(Party { display_name: None, uri: "sip:a@x".to_string(), tag: Some("ta".to_string()) }),
        to: Some(Party { display_name: None, uri: "sip:b@y".to_string(), tag: None }),
        cseq: Some(CSeqInfo { seq: 1, method: Method::Invite }),
        has_max_forwards: true,
        has_contact: false,
        routes: Vec::new(),
        via_headers: Vec::new(),
        from_header: None,
        to_header: None,
    };
    let e = extract_dialog_template_from_request(&req, vec![], None, "127.0.0.1:5060", 2).unwrap();
    assert_eq!(e.to_tag, "");
    assert_eq!(e.from_tag, "ta");
    assert_eq!(e.to_uri, "sip:b@y");
    req.to.as_mut().unwrap().tag = Some("tb".to_string());
    let t = extract_dialog_template_from_request(&req, vec![], None, "127.0.0.1:5060", 2).unwrap();
    assert_eq!(t.request_uri, "sip:b@y");
    assert_eq!(t.to_tag, "tb");
    assert_eq!(t.cseq, 2);
    req.from.as_mut().unwrap().tag = None;
    let f = extract_dialog_template_from_request(&req, vec![], None, "127.0.0.1:5060", 2);
    assert_eq!(f.unwrap_err(), Error::MissingFromTag);
}

#[test]
fn update_body_parts_follow_the_sdp() {
    let sdp = "v=0\r\no=alice 2890844526 2890844527 IN IP4 127.0.0.1\r\n".to_string();
    let parts = sdp_body_parts(Some(sdp.clone()));
    assert_eq!(parts.len(), 3);
    assert!(matches!(&parts[0], RequestPart::ContentType { media_type, subtype } if media_type == "application" && subtype == "sdp"));
    assert!(matches!(&parts[1], RequestPart::ContentLength(n) if *n as usize == sdp.len()));
    assert!(matches!(&parts[2], RequestPart::Body(b) if *b == sdp));
    let none = sdp_body_parts(None);
    assert_eq!(none.len(), 1);
    assert!(matches!(&none[0], RequestPart::ContentLength(0)));
}

#[test]
fn invite_response_tags_only_ringing_and_success() {
    let mut req = summary(&InviteBuilder::new().from_to("sip:alice@example.com", "sip:bob@example.com").local_address("127.0.0.1:5060").build().unwrap());
    req.via_headers = vec![via_header("10.0.0.1", "z9hG4bKtop"), via_header("10.0.0.2", "z9hG4bKnext")];
    for (status, tagged) in [(100u16, false), (180, true), (183, true), (189, true), (190, false), (199, false), (200, true), (299, true), (486, false), (603, false)] {
        let r = InviteResponseBuilder::new(status).from_request(&req).build().unwrap();
        assert_eq!(response_to_tag(&r).is_some(), tagged, "status {}", status);
    }
}

#[test]
fn responses_copy_the_request_headers_in_order() {
    let mut req = summary(&InviteBuilder::new().from_to("sip:alice@example.com", "sip:bob@example.com").local_address("127.0.0.1:5060").build().unwrap());
    let top = via_header("10.0.0.1", "z9hG4bKtop");
    let next = via_header("10.0.0.2", "z9hG4bKnext");
    req.via_headers = vec![top.clone(), next.clone()];
    let r = ResponseBuilder::new(486).from_request(&req).with_to_tag("mine").build().unwrap();
    match &r.parts[..] {
        [ResponsePart::Via(a), ResponsePart::Via(b), ResponsePart::From(f), ResponsePart::To { header, tag }, ResponsePart::CallId(c), ResponsePart::CSeq { seq, method }, ResponsePart::ContentLength(0)] => {
            assert_eq!(a, &top);
            assert_eq!(b, &next);
            assert_eq!(Some(f), req.from_header.as_ref());
            assert_eq!(Some(header), req.to_header.as_ref());
            assert_eq!(tag.as_deref(), Some("mine"));
            assert_eq!(Some(c), req.call_id.as_ref());
            assert_eq!(*seq, req.cseq.as_ref().unwrap().seq);
            assert_eq!(*method, Method::Invite);
        }
        other => panic!("unexpected parts {:?}", other),
    }
}

#[test]
fn dialog_response_contact_is_the_server_at_the_address() {
    let invite = summary(&InviteBuilder::new().from_to("sip:alice@example.com", "sip:bob@example.com").local_address("127.0.0.1:5060").build().unwrap());
    let context = create_dialog_transaction_context("txn-1", invite, None, "127.0.0.1:5060");
    let r = response_builder_for_dialog_transaction(&context, 200, Some("127.0.0.1:5060"), None).unwrap();
    let contact = r.parts.iter().find_map(|p| match p {
        ResponsePart::Contact(u) => Some(u.clone()),
        _ => None,
    });
    assert_eq!(contact, Some("sip:server@127.0.0.1:5060".to_string()));
}

#[test]
fn in_dialog_subscription_state_must_parse() {
    let base = || {
        InDialogRequestBuilder::new(Method::Notify)
            .from_dialog("call-1", "sip:alice@example.com", "ta", "sip:bob@example.com", "tb", 2, "127.0.0.1:5060")
            .with_event("presence")
    };
    assert_eq!(base().with_subscription_state("nonsense").build().unwrap_err(), BuildError::InvalidSubscriptionState);
    let ok = base().with_subscription_state("active;expires=3600").build().unwrap();
    assert!(ok.parts.iter().any(|p| matches!(p, RequestPart::SubscriptionState(s) if s == "active;expires=3600")));
    assert_eq!(
        InDialogRequestBuilder::new(Method::Info).with_subscription_state("nonsense").build().unwrap_err(),
        BuildError::CallIdRequired
    );
}

#[test]
fn dialog_template_keeps_route_order() {
    let mut t = template();
    let first: Uri = "sip:proxy1.example.com;lr".parse().unwrap();
    let second: Uri = "sip:proxy2.example.com;lr".parse().unwrap();
    t.route_set = vec![first.clone(), second.clone()];
    let d = request_builder_from_dialog_template(&t, Method::Info, Some("x".to_string()), None).unwrap();
    let routes: Vec<Uri> = d.parts.iter().filter_map(|p| match p {
        RequestPart::Route(u) => Some(u.clone()),
        _ => None,
    }).collect();
    assert_eq!(routes, vec![first, second]);
}

#[test]
fn request_uri_must_parse() {
    assert_eq!(
        InviteBuilder::new().from_to("sip:alice@example.com", "invalid:uri").local_address("127.0.0.1:5060").build().unwrap_err(),
        BuildError::InvalidRequestUri
    );
    assert_eq!(
        client_quick::options("invalid:uri", "sip:alice@example.com", "127.0.0.1:5060").unwrap_err(),
        BuildError::InvalidRequestUri
    );
    let ok = client_quick::options("sip:bob@example.com", "sip:alice@example.com", "127.0.0.1:5060").unwrap();
    assert_eq!(ok.request_uri, "sip:bob@example.com");
    assert_eq!(
        client_quick::message("invalid:uri", "sip:alice@example.com", "127.0.0.1:5060", "hi").unwrap_err(),
        BuildError::InvalidRequestUri
    );
    assert_eq!(
        client_quick::register("invalid:uri", "sip:alice@example.com", "Alice", "127.0.0.1:5060", None).unwrap_err(),
        BuildError::InvalidRequestUri
    );
    let mut t = template();
    t.request_uri = "invalid:uri".to_string();
    assert_eq!(
        request_builder_from_dialog_template(&t, Method::Bye, None, None).unwrap_err(),
        BuildError::InvalidRequestUri
    );
}

#[test]
fn template_from_a_fresh_invite() {
    let invite_draft = InviteBuilder::new()
        .from_to("sip:alice@example.com", "sip:bob@example.com")
        .local_address("127.0.0.1:5060")
        .build()
        .unwrap();
    let invite = summary(&invite_draft);
    let t = extract_dialog_template_from_request(&invite, vec![], None, "127.0.0.1:5060", 2).unwrap();
    assert_eq!(Some(&t.call_id), invite.call_id.as_ref());
    assert_eq!(t.from_uri, "sip:alice@example.com");
    assert_eq!(Some(&t.from_tag), invite.from.as_ref().unwrap().tag.as_ref());
    assert_eq!(t.to_uri, "sip:bob@example.com");
    assert_eq!(t.request_uri, "sip:bob@example.com");
    assert_eq!(t.cseq, 2);
    assert_eq!(t.local_address, "127.0.0.1:5060");
    assert!(t.route_set.is_empty());
    assert_eq!(t.contact, None);
}

#[test]
fn template_contact_follows_the_request() {
    let mut t = template();
    t.contact = Some("sip:alice@192.0.2.9:5060".to_string());
    let info = request_builder_from_dialog_template(&t, Method::Info, Some("x".to_string()), None).unwrap();
    assert!(matches!(info.parts.last(), Some(RequestPart::ContactUri(c)) if c == "sip:alice@192.0.2.9:5060"));
    let bye = request_builder_from_dialog_template(&t, Method::Bye, None, None).unwrap();
    assert!(!bye.parts.iter().any(|p| matches!(p, RequestPart::ContactUri(_))));
    t.contact = Some("not a uri at all".to_string());
    let info = request_builder_from_dialog_template(&t, Method::Info, Some("x".to_string()), None).unwrap();
    assert!(!info.parts.iter().any(|p| matches!(p, RequestPart::ContactUri(_))));
}
