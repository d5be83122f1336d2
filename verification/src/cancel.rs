use vstd::prelude::*;
use crate::method::{Method, MethodView};
use crate::key::{TransactionKey, KeyView};
use crate::message::{RequestInfo, CSeqInfo, Party, opt_view, opt_party, opt_cseq, top_branch,
    first_branch, opt_str_eq, opt_str_clone, strs_view, same_strings, clone_strings};
use crate::error::{Error, HeaderField};
use crate::response_builders::{ResponseDraft, ResponsePart, ResponsePartView, push_rpart};
use crate::sip_types::clone_header;
use crate::sip_types::clone_opt_header;

verus! {

/// The CANCEL that cancels an INVITE (RFC 3261 Section 9.1): same
/// Request-URI, From, To, Call-ID, Route header fields (in order) and CSeq
/// number, method CANCEL, a single Via with the INVITE's branch, and
/// Max-Forwards. The Via's sent-by and Content-Length are filled in when the
/// message is built.
pub open spec fn spec_cancel_for(invite: RequestInfo, branch: Seq<char>, cancel: RequestInfo) -> bool {
    &&& cancel.method@ == MethodView::Cancel
    &&& cancel.uri@ == invite.uri@
    &&& opt_party(cancel.from) == opt_party(invite.from)
    &&& opt_party(cancel.to) == opt_party(invite.to)
    &&& opt_view(cancel.call_id) == opt_view(invite.call_id)
    &&& opt_cseq(cancel.cseq) == Some((opt_cseq(invite.cseq).unwrap().0, MethodView::Cancel))
    &&& cancel.via_branches@.len() == 1
    &&& opt_view(cancel.via_branches@[0]) == Some(branch)
    &&& cancel.has_max_forwards
    &&& !cancel.has_contact
    &&& strs_view(cancel.routes@) == strs_view(invite.routes@)
    &&& cancel.from_header == invite.from_header
    &&& cancel.to_header == invite.to_header
}

/// The first reason an INVITE cannot be cancelled, if any.
pub open spec fn spec_cancel_error(invite: RequestInfo) -> Option<Error> {
    if invite.method@ != MethodView::Invite {
        Some(Error::WrongMethod)
    } else if invite.from is None {
        Some(Error::MissingHeader(HeaderField::From))
    } else if invite.to is None {
        Some(Error::MissingHeader(HeaderField::To))
    } else if invite.call_id is None {
        Some(Error::MissingHeader(HeaderField::CallId))
    } else if invite.cseq is None {
        Some(Error::MissingHeader(HeaderField::CSeq))
    } else if invite.via_branches@.len() == 0 {
        Some(Error::MissingHeader(HeaderField::Via))
    } else if invite.via_branches@[0] is None {
        Some(Error::MissingBranch)
    } else {
        None
    }
}

/// Builds the CANCEL for an INVITE; refuses a request that is not an INVITE
/// or lacks From, To, Call-ID, CSeq, a Via or its branch.
pub fn create_cancel_request(invite_request: &RequestInfo) -> (r: Result<RequestInfo, Error>)
    ensures
        r matches Err(e) ==> spec_cancel_error(*invite_request) == Some(e),
        r matches Ok(c) ==> spec_cancel_error(*invite_request) is None && spec_cancel_for(
            *invite_request,
            top_branch(invite_request.via_branches@).unwrap(),
            c,
        ),
        r is Ok <==> spec_cancel_error(*invite_request) is None,
{
    if !invite_request.method.is_invite() {
        return Err(Error::WrongMethod);
    }
    let from = match &invite_request.from {
        Some(f) => f.duplicate(),
        None => return Err(Error::MissingHeader(HeaderField::From)),
    };
    let to = match &invite_request.to {
        Some(t) => t.duplicate(),
        None => return Err(Error::MissingHeader(HeaderField::To)),
    };
    let call_id = match &invite_request.call_id {
        Some(c) => c.clone(),
        None => return Err(Error::MissingHeader(HeaderField::CallId)),
    };
    let seq = match &invite_request.cseq {
        Some(c) => c.seq,
        None => return Err(Error::MissingHeader(HeaderField::CSeq)),
    };
    if invite_request.via_branches.len() == 0 {
        return Err(Error::MissingHeader(HeaderField::Via));
    }
    let branch = match &invite_request.via_branches[0] {
        Some(b) => b.clone(),
        None => return Err(Error::MissingBranch),
    };
    let mut vias: Vec<Option<String>> = Vec::new();
    vias.push(Some(branch));
    Ok(
        RequestInfo {
            method: Method::Cancel,
            uri: invite_request.uri.clone(),
            via_branches: vias,
            call_id: Some(call_id),
            from: Some(from),
            to: Some(to),
            cseq: Some(CSeqInfo { seq, method: Method::Cancel }),
            has_max_forwards: true,
            has_contact: false,
            routes: clone_strings(&invite_request.routes),
            via_headers: Vec::new(),
            from_header: clone_opt_header(&invite_request.from_header),
            to_header: clone_opt_header(&invite_request.to_header),
        },
    )
}

/// The header fields of the answers that the transaction layer itself sends
/// to a CANCEL or, for a cancelled INVITE, to that INVITE: the request's To,
/// From, Call-ID, CSeq and first Via, each when present, in that order, then
/// Content-Length 0.
pub open spec fn answer_parts(request: RequestInfo) -> Seq<ResponsePartView> {
    (match request.to_header {
        Some(h) => seq![ResponsePartView::To { header: h, tag: None }],
        None => Seq::empty(),
    }) + (match request.from_header {
        Some(h) => seq![ResponsePartView::From(h)],
        None => Seq::empty(),
    }) + (match request.call_id {
        Some(c) => seq![ResponsePartView::CallId(c@)],
        None => Seq::empty(),
    }) + (match request.cseq {
        Some(c) => seq![ResponsePartView::CSeq { seq: c.seq, method: c.method@ }],
        None => Seq::empty(),
    }) + (if request.via_headers@.len() > 0 {
        seq![ResponsePartView::Via(request.via_headers@[0])]
    } else {
        Seq::empty()
    }) + seq![ResponsePartView::ContentLength(0)]
}

/// The answer of `status` to `request`, with the header fields of
/// [`answer_parts`] and no reason phrase of its own.
fn answer(request: &RequestInfo, status: u16) -> (r: ResponseDraft)
    ensures
        r@.status == status,
        r@.reason_phrase is None,
        r@.parts == answer_parts(*request),
{
    let mut parts: Vec<ResponsePart> = Vec::new();
    let ghost p0 = parts@.map_values(|x: ResponsePart| x@);
    match &request.to_header {
        Some(h) => push_rpart(&mut parts, ResponsePart::To { header: clone_header(h), tag: None }),
        None => {},
    }
    let ghost p1 = parts@.map_values(|x: ResponsePart| x@);
    match &request.from_header {
        Some(h) => push_rpart(&mut parts, ResponsePart::From(clone_header(h))),
        None => {},
    }
    let ghost p2 = parts@.map_values(|x: ResponsePart| x@);
    match &request.call_id {
        Some(c) => push_rpart(&mut parts, ResponsePart::CallId(c.clone())),
        None => {},
    }
    let ghost p3 = parts@.map_values(|x: ResponsePart| x@);
    match &request.cseq {
        Some(c) => push_rpart(&mut parts, ResponsePart::CSeq { seq: c.seq, method: c.method.duplicate() }),
        None => {},
    }
    let ghost p4 = parts@.map_values(|x: ResponsePart| x@);
    if request.via_headers.len() > 0 {
        push_rpart(&mut parts, ResponsePart::Via(clone_header(&request.via_headers[0])));
    }
    let ghost p5 = parts@.map_values(|x: ResponsePart| x@);
    push_rpart(&mut parts, ResponsePart::ContentLength(0));
    let r = ResponseDraft { status, reason_phrase: None, parts };
    proof {
        let rq = *request;
        let to = match rq.to_header {
            Some(h) => seq![ResponsePartView::To { header: h, tag: None }],
            None => Seq::<ResponsePartView>::empty(),
        };
        let fr = match rq.from_header {
            Some(h) => seq![ResponsePartView::From(h)],
            None => Seq::<ResponsePartView>::empty(),
        };
        let ci = match rq.call_id {
            Some(c) => seq![ResponsePartView::CallId(c@)],
            None => Seq::<ResponsePartView>::empty(),
        };
        let cs = match rq.cseq {
            Some(c) => seq![ResponsePartView::CSeq { seq: c.seq, method: c.method@ }],
            None => Seq::<ResponsePartView>::empty(),
        };
        assert(p0 =~= Seq::<ResponsePartView>::empty());
        assert(p1 =~= to);
        assert(p2 =~= to + fr);
        assert(p3 =~= to + fr + ci);
        assert(p4 =~= to + fr + ci + cs);
        assert(r@.parts =~= answer_parts(*request));
    }
    r
}

/// The 200 OK that answers a CANCEL matching an INVITE server transaction
/// (RFC 3261 Section 9.2).
pub fn cancel_ok_response(cancel: &RequestInfo) -> (r: ResponseDraft)
    ensures
        r@.status == 200,
        r@.reason_phrase is None,
        r@.parts == answer_parts(*cancel),
{
    answer(cancel, 200)
}

/// The 487 Request Terminated that the cancelled INVITE server transaction
/// sends for its INVITE.
pub fn request_terminated_response(invite: &RequestInfo) -> (r: ResponseDraft)
    ensures
        r@.status == 487,
        r@.reason_phrase is None,
        r@.parts == answer_parts(*invite),
{
    answer(invite, 487)
}

/// The 481 Call/Transaction Does Not Exist that answers a CANCEL matching no
/// INVITE server transaction.
pub fn stray_cancel_response(cancel: &RequestInfo) -> (r: ResponseDraft)
    ensures
        r@.status == 481,
        r@.reason_phrase is None,
        r@.parts == answer_parts(*cancel),
{
    answer(cancel, 481)
}

/// A client INVITE transaction key with the given branch.
pub open spec fn is_client_invite_with_branch(k: KeyView, branch: Seq<char>) -> bool {
    k.method == MethodView::Invite && !k.is_server && k.branch == branch
}

/// Finds the client INVITE transaction that a CANCEL targets: the first key
/// of an INVITE client transaction whose branch is the CANCEL's top Via
/// branch. `None` when the CANCEL has no branch or no key matches.
pub fn find_invite_transaction_for_cancel(
    cancel_request: &RequestInfo,
    invite_transactions: &Vec<TransactionKey>,
) -> (r: Option<TransactionKey>)
    ensures
        top_branch(cancel_request.via_branches@) is None ==> r is None,
        top_branch(cancel_request.via_branches@) matches Some(b) ==> {
            &&& r matches Some(k) ==> exists|i: int|
                0 <= i < invite_transactions@.len() && invite_transactions@[i]@ == k@
                    && is_client_invite_with_branch(k@, b) && forall|j: int|
                    0 <= j < i ==> !is_client_invite_with_branch(
                        #[trigger] invite_transactions@[j]@,
                        b,
                    )
            &&& r is None ==> forall|j: int|
                0 <= j < invite_transactions@.len() ==> !is_client_invite_with_branch(
                    #[trigger] invite_transactions@[j]@,
                    b,
                )
        },
{
    let branch = match first_branch(&cancel_request.via_branches) {
        Some(b) => b,
        None => return None,
    };
    let mut i: usize = 0;
    while i < invite_transactions.len()
        invariant
            i <= invite_transactions@.len(),
            top_branch(cancel_request.via_branches@) == Some(branch@),
            forall|j: int|
                0 <= j < i ==> !is_client_invite_with_branch(
                    #[trigger] invite_transactions@[j]@,
                    branch@,
                ),
        decreases invite_transactions.len() - i,
    {
        let k = &invite_transactions[i];
        if k.method.is_invite() && !k.is_server && k.branch == *branch {
            return Some(k.duplicate());
        }
        i = i + 1;
    }
    None
}

/// Finds the INVITE transaction that a received CANCEL targets, among keys
/// already restricted to INVITE transactions: the first whose branch is the
/// CANCEL's top Via branch. `None` when the CANCEL lacks Call-ID, From, To,
/// CSeq or a top Via branch, or when no key matches.
pub fn find_matching_invite_transaction(
    cancel_request: &RequestInfo,
    invite_tx_keys: &Vec<TransactionKey>,
) -> (r: Option<TransactionKey>)
    ensures
        (cancel_request.call_id is None || cancel_request.from is None || cancel_request.to is None
            || cancel_request.cseq is None || top_branch(cancel_request.via_branches@) is None)
            ==> r is None,
        !(cancel_request.call_id is None || cancel_request.from is None || cancel_request.to is None
            || cancel_request.cseq is None) ==> (top_branch(cancel_request.via_branches@) matches Some(
            b,
        ) ==> {
            &&& r matches Some(k) ==> exists|i: int|
                0 <= i < invite_tx_keys@.len() && invite_tx_keys@[i]@ == k@ && k.branch@ == b
                    && forall|j: int|
                    0 <= j < i ==> (#[trigger] invite_tx_keys@[j]).branch@ != b
            &&& r is None ==> forall|j: int|
                0 <= j < invite_tx_keys@.len() ==> (#[trigger] invite_tx_keys@[j]).branch@ != b
        }),
{
    if cancel_request.call_id.is_none() || cancel_request.from.is_none()
        || cancel_request.to.is_none() || cancel_request.cseq.is_none() {
        return None;
    }
    let branch = match first_branch(&cancel_request.via_branches) {
        Some(b) => b,
        None => return None,
    };
    let mut i: usize = 0;
    while i < invite_tx_keys.len()
        invariant
            i <= invite_tx_keys@.len(),
            top_branch(cancel_request.via_branches@) == Some(branch@),
            cancel_request.call_id is Some && cancel_request.from is Some && cancel_request.to is Some
                && cancel_request.cseq is Some,
            forall|j: int| 0 <= j < i ==> (#[trigger] invite_tx_keys@[j]).branch@ != branch@,
        decreases invite_tx_keys.len() - i,
    {
        if invite_tx_keys[i].branch == *branch {
            return Some(invite_tx_keys[i].duplicate());
        }
        i = i + 1;
    }
    None
}

/// The first defect of a CANCEL, if any: it must be a CANCEL with Call-ID,
/// From, To, CSeq, exactly one Via and Max-Forwards.
pub open spec fn spec_cancel_defect(r: RequestInfo) -> Option<Error> {
    if r.method@ != MethodView::Cancel {
        Some(Error::WrongMethod)
    } else if r.call_id is None {
        Some(Error::MissingHeader(HeaderField::CallId))
    } else if r.from is None {
        Some(Error::MissingHeader(HeaderField::From))
    } else if r.to is None {
        Some(Error::MissingHeader(HeaderField::To))
    } else if r.cseq is None {
        Some(Error::MissingHeader(HeaderField::CSeq))
    } else if r.via_branches@.len() == 0 {
        Some(Error::MissingHeader(HeaderField::Via))
    } else if r.via_branches@.len() > 1 {
        Some(Error::TooManyVias)
    } else if !r.has_max_forwards {
        Some(Error::MissingHeader(HeaderField::MaxForwards))
    } else {
        None
    }
}

/// Checks that a CANCEL is well formed (RFC 3261 Section 9.1).
pub fn validate_cancel_request(request: &RequestInfo) -> (r: Result<(), Error>)
    ensures
        r is Ok <==> spec_cancel_defect(*request) is None,
        r matches Err(e) ==> spec_cancel_defect(*request) == Some(e),
{
    if !request.method.is_cancel() {
        return Err(Error::WrongMethod);
    }
    if request.call_id.is_none() {
        return Err(Error::MissingHeader(HeaderField::CallId));
    }
    if request.from.is_none() {
        return Err(Error::MissingHeader(HeaderField::From));
    }
    if request.to.is_none() {
        return Err(Error::MissingHeader(HeaderField::To));
    }
    if request.cseq.is_none() {
        return Err(Error::MissingHeader(HeaderField::CSeq));
    }
    if request.via_branches.len() == 0 {
        return Err(Error::MissingHeader(HeaderField::Via));
    }
    if request.via_branches.len() > 1 {
        return Err(Error::TooManyVias);
    }
    if !request.has_max_forwards {
        return Err(Error::MissingHeader(HeaderField::MaxForwards));
    }
    Ok(())
}

/// A CANCEL cancels an INVITE when the methods are right and they share
/// Call-ID, CSeq number, From, the URI of To (its tag may differ), the
/// Request-URI and the Route header fields, in order.
pub open spec fn spec_is_cancel_for_invite(cancel: RequestInfo, invite: RequestInfo) -> bool {
    &&& cancel.method@ == MethodView::Cancel
    &&& invite.method@ == MethodView::Invite
    &&& cancel.call_id is Some && invite.call_id is Some
    &&& opt_view(cancel.call_id) == opt_view(invite.call_id)
    &&& cancel.cseq is Some && invite.cseq is Some
    &&& cancel.cseq.unwrap().seq == invite.cseq.unwrap().seq
    &&& opt_party(cancel.from) == opt_party(invite.from)
    &&& cancel.to is Some && invite.to is Some
    &&& cancel.to.unwrap().uri@ == invite.to.unwrap().uri@
    &&& cancel.uri@ == invite.uri@
    &&& strs_view(cancel.routes@) == strs_view(invite.routes@)
}

/// Whether `cancel_request` cancels `invite_request`.
pub fn is_cancel_for_invite(cancel_request: &RequestInfo, invite_request: &RequestInfo) -> (r: bool)
    ensures
        r == spec_is_cancel_for_invite(*cancel_request, *invite_request),
{
    if !cancel_request.method.is_cancel() || !invite_request.method.is_invite() {
        return false;
    }
    match (&cancel_request.call_id, &invite_request.call_id) {
        (Some(a), Some(b)) => {
            if *a != *b {
                return false;
            }
        },
        _ => return false,
    }
    match (&cancel_request.cseq, &invite_request.cseq) {
        (Some(a), Some(b)) => {
            if a.seq != b.seq {
                return false;
            }
        },
        _ => return false,
    }
    let same_from = match (&cancel_request.from, &invite_request.from) {
        (Some(a), Some(b)) => a.same_as(b),
        (None, None) => true,
        _ => false,
    };
    if !same_from {
        return false;
    }
    match (&cancel_request.to, &invite_request.to) {
        (Some(a), Some(b)) => {
            if a.uri != b.uri {
                return false;
            }
        },
        _ => return false,
    }
    if cancel_request.uri != invite_request.uri {
        return false;
    }
    same_strings(&cancel_request.routes, &invite_request.routes)
}

/// A CANCEL built for an INVITE passes the CANCEL checks and is recognised
/// as cancelling that INVITE (when the INVITE carries a To).
pub proof fn lemma_created_cancel_is_valid_and_matches(invite: RequestInfo, branch: Seq<char>, cancel: RequestInfo)
    requires
        spec_cancel_error(invite) is None,
        spec_cancel_for(invite, branch, cancel),
    ensures
        spec_cancel_defect(cancel) is None,
        spec_is_cancel_for_invite(cancel, invite),
{
    assert(cancel.to is Some);
    assert(cancel.call_id is Some);
}

/// A CANCEL is recognised as cancelling an INVITE only when each of the
/// fields RFC 3261 Section 9.1 names agrees: it is a CANCEL and the other an
/// INVITE, both carry a Call-ID and the same one, both carry a CSeq with the
/// same sequence number, the From fields are the same, both carry a To with
/// the same URI, and the Request-URIs and Route entries are the same.
pub proof fn lemma_cancel_match_needs_every_field(cancel: RequestInfo, invite: RequestInfo)
    requires
        spec_is_cancel_for_invite(cancel, invite),
    ensures
        cancel.method@ == MethodView::Cancel,
        invite.method@ == MethodView::Invite,
        cancel.call_id is Some && invite.call_id is Some && cancel.call_id.unwrap()@ == invite.call_id.unwrap()@,
        cancel.cseq is Some && invite.cseq is Some && cancel.cseq.unwrap().seq == invite.cseq.unwrap().seq,
        opt_party(cancel.from) == opt_party(invite.from),
        cancel.to is Some && invite.to is Some && cancel.to.unwrap().uri@ == invite.to.unwrap().uri@,
        cancel.uri@ == invite.uri@,
        strs_view(cancel.routes@) == strs_view(invite.routes@),
{
}

/// Conversely, when all those fields agree the CANCEL is recognised, whatever
/// the To tags, the CSeq methods and the Via branches.
pub proof fn lemma_cancel_match_from_fields(cancel: RequestInfo, invite: RequestInfo)
    requires
        cancel.method@ == MethodView::Cancel,
        invite.method@ == MethodView::Invite,
        cancel.call_id is Some && invite.call_id is Some && cancel.call_id.unwrap()@ == invite.call_id.unwrap()@,
        cancel.cseq is Some && invite.cseq is Some && cancel.cseq.unwrap().seq == invite.cseq.unwrap().seq,
        opt_party(cancel.from) == opt_party(invite.from),
        cancel.to is Some && invite.to is Some && cancel.to.unwrap().uri@ == invite.to.unwrap().uri@,
        cancel.uri@ == invite.uri@,
        strs_view(cancel.routes@) == strs_view(invite.routes@),
    ensures
        spec_is_cancel_for_invite(cancel, invite),
{
}

/// A CANCEL passes the checks of RFC 3261 Section 9.1 exactly when it is a
/// CANCEL carrying Call-ID, From, To, CSeq, exactly one Via and a
/// Max-Forwards header field.
pub proof fn lemma_cancel_checks_follow_rfc(r: RequestInfo)
    ensures
        spec_cancel_defect(r) is None <==> (r.method@ == MethodView::Cancel && r.call_id is Some && r.from is Some
            && r.to is Some && r.cseq is Some && r.via_branches@.len() == 1 && r.has_max_forwards),
{
}

/// A CANCEL can be built for a request exactly when it is an INVITE carrying
/// From, To, Call-ID, CSeq and a top-most Via with a branch.
pub proof fn lemma_cancel_creation_needs(invite: RequestInfo)
    ensures
        spec_cancel_error(invite) is None <==> (invite.method@ == MethodView::Invite && invite.from is Some
            && invite.to is Some && invite.call_id is Some && invite.cseq is Some && invite.via_branches@.len() > 0
            && invite.via_branches@[0] is Some),
{
}

} // verus!
