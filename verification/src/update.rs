use vstd::prelude::*;
use crate::method::{Method, MethodView};
use crate::message::{RequestInfo, CSeqInfo, opt_view, opt_party, opt_cseq, party_tag};
use crate::branch::{generate_branch, is_generated_branch};
use crate::error::{Error, HeaderField};
use crate::sip_types::clone_opt_header;

verus! {

/// The first reason a request cannot serve as the base of an UPDATE, if any:
/// it must carry To, From, Call-ID and CSeq, and To must carry a tag (the
/// request belongs to a dialog). The CSeq number must leave room for the next one.
pub open spec fn spec_update_base_error(r: RequestInfo) -> Option<Error> {
    if r.to is None || r.from is None || r.call_id is None || r.cseq is None {
        Some(Error::IncompleteDialogRequest)
    } else if party_tag(r.to) is None {
        Some(Error::MissingToTag)
    } else {
        None
    }
}

/// Builds an UPDATE (RFC 3311) within the dialog of `dialog_request`: same
/// Request-URI, Call-ID, From and To, the next CSeq number with method
/// UPDATE, a single Via with a fresh branch, Max-Forwards and Contact. The
/// Via's sent-by, Contact's address, and the SDP body with its
/// Content-Type and Content-Length are filled in when the message is built.
pub fn create_update_request(dialog_request: &RequestInfo) -> (r: Result<RequestInfo, Error>)
    requires
        dialog_request.cseq matches Some(c) ==> c.seq < u32::MAX,
    ensures
        r is Ok <==> spec_update_base_error(*dialog_request) is None,
        r matches Err(e) ==> spec_update_base_error(*dialog_request) == Some(e),
        r matches Ok(u) ==> {
            &&& u.method@ == MethodView::Update
            &&& u.uri@ == dialog_request.uri@
            &&& opt_view(u.call_id) == opt_view(dialog_request.call_id)
            &&& opt_party(u.from) == opt_party(dialog_request.from)
            &&& opt_party(u.to) == opt_party(dialog_request.to)
            &&& opt_cseq(u.cseq) == Some(
                ((dialog_request.cseq.unwrap().seq + 1) as u32, MethodView::Update),
            )
            &&& u.via_branches@.len() == 1
            &&& u.via_branches@[0] is Some
            &&& is_generated_branch(u.via_branches@[0].unwrap()@)
            &&& u.has_max_forwards
            &&& u.has_contact
            &&& u.routes@.len() == 0
            &&& u.from_header == dialog_request.from_header
            &&& u.to_header == dialog_request.to_header
        },
{
    let (to, from, call_id, seq) = match (
        &dialog_request.to,
        &dialog_request.from,
        &dialog_request.call_id,
        &dialog_request.cseq,
    ) {
        (Some(t), Some(f), Some(c), Some(s)) => (t, f, c, s.seq),
        _ => return Err(Error::IncompleteDialogRequest),
    };
    if to.tag.is_none() {
        return Err(Error::MissingToTag);
    }
    let branch = generate_branch();
    let mut vias: Vec<Option<String>> = Vec::new();
    vias.push(Some(branch));
    Ok(
        RequestInfo {
            method: Method::Update,
            uri: dialog_request.uri.clone(),
            via_branches: vias,
            call_id: Some(call_id.clone()),
            from: Some(from.duplicate()),
            to: Some(to.duplicate()),
            cseq: Some(CSeqInfo { seq: seq + 1, method: Method::Update }),
            has_max_forwards: true,
            has_contact: true,
            routes: Vec::new(),
            via_headers: Vec::new(),
            from_header: clone_opt_header(&dialog_request.from_header),
            to_header: clone_opt_header(&dialog_request.to_header),
        },
    )
}

/// The first defect of an UPDATE, if any: it must be an UPDATE with
/// Call-ID, From, a To with a non-empty tag, and CSeq. A missing Contact is
/// allowed (RFC 3311 only recommends it).
pub open spec fn spec_update_defect(r: RequestInfo) -> Option<Error> {
    if r.method@ != MethodView::Update {
        Some(Error::WrongMethod)
    } else if r.call_id is None {
        Some(Error::MissingHeader(HeaderField::CallId))
    } else if r.from is None {
        Some(Error::MissingHeader(HeaderField::From))
    } else if r.to is None {
        Some(Error::MissingHeader(HeaderField::To))
    } else if !(party_tag(r.to) matches Some(t) && t.len() > 0) {
        Some(Error::MissingToTag)
    } else if r.cseq is None {
        Some(Error::MissingHeader(HeaderField::CSeq))
    } else {
        None
    }
}

/// Checks that an UPDATE is well formed.
pub fn validate_update_request(request: &RequestInfo) -> (r: Result<(), Error>)
    ensures
        r is Ok <==> spec_update_defect(*request) is None,
        r matches Err(e) ==> spec_update_defect(*request) == Some(e),
{
    if !request.method.is_update() {
        return Err(Error::WrongMethod);
    }
    if request.call_id.is_none() {
        return Err(Error::MissingHeader(HeaderField::CallId));
    }
    if request.from.is_none() {
        return Err(Error::MissingHeader(HeaderField::From));
    }
    match &request.to {
        None => return Err(Error::MissingHeader(HeaderField::To)),
        Some(to) => match &to.tag {
            None => return Err(Error::MissingToTag),
            Some(t) => {
                if t.unicode_len() == 0 {
                    return Err(Error::MissingToTag);
                }
            },
        },
    }
    if request.cseq.is_none() {
        return Err(Error::MissingHeader(HeaderField::CSeq));
    }
    Ok(())
}

/// An UPDATE built from a dialog request whose To tag is not empty passes
/// the UPDATE checks.
pub proof fn lemma_created_update_is_valid(dialog_request: RequestInfo, update: RequestInfo)
    requires
        spec_update_base_error(dialog_request) is None,
        party_tag(dialog_request.to) matches Some(t) && t.len() > 0,
        update.method@ == MethodView::Update,
        opt_view(update.call_id) == opt_view(dialog_request.call_id),
        opt_party(update.from) == opt_party(dialog_request.from),
        opt_party(update.to) == opt_party(dialog_request.to),
        opt_cseq(update.cseq) is Some,
    ensures
        spec_update_defect(update) is None,
{
    assert(update.to is Some);
    assert(party_tag(update.to) == party_tag(dialog_request.to));
}

/// An UPDATE passes its checks exactly when it is an UPDATE carrying Call-ID,
/// From, CSeq and a To with a non-empty tag (RFC 3311: an UPDATE is sent
/// within a dialog).
pub proof fn lemma_update_checks_follow_rfc(r: RequestInfo)
    ensures
        spec_update_defect(r) is None <==> (r.method@ == MethodView::Update && r.call_id is Some && r.from is Some
            && r.cseq is Some && (party_tag(r.to) matches Some(t) && t.len() > 0)),
        spec_update_base_error(r) is None <==> (r.to is Some && r.from is Some && r.call_id is Some && r.cseq is Some
            && party_tag(r.to) is Some),
{
}

} // verus!
