use vstd::prelude::*;
use rvoip_sip_core::TypedHeader;
use crate::message::{RequestInfo, opt_view, strs_view, top_branch};
use crate::request_builders::{RequestDraft, RequestPart, PartView, push_part, text, sdp_parts, sdp_body_parts};
use crate::sip_types::clone_opt_header;

verus! {

/// A header field given as is, when there is one.
pub open spec fn opt_custom(h: Option<TypedHeader>) -> Seq<PartView> {
    match h {
        Some(x) => seq![PartView::Custom(x)],
        None => Seq::empty(),
    }
}

/// A Call-ID step, when there is a Call-ID.
pub open spec fn opt_call_id(c: Option<Seq<char>>) -> Seq<PartView> {
    match c {
        Some(x) => seq![PartView::CallId(x)],
        None => Seq::empty(),
    }
}

/// A CSeq step with the request's number, when there is a CSeq.
pub open spec fn opt_cseq_part(r: RequestInfo) -> Seq<PartView> {
    match r.cseq {
        Some(c) => seq![PartView::CSeq(c.seq)],
        None => Seq::empty(),
    }
}

/// A UDP Via with sent-by `local` and the request's top branch, when it has one.
pub open spec fn opt_local_via(r: RequestInfo, local: Seq<char>) -> Seq<PartView> {
    match top_branch(r.via_branches@) {
        Some(b) => seq![PartView::Via { host: local, transport: "UDP"@, branch: b }],
        None => Seq::empty(),
    }
}

/// A Route step for each Route URI text, in order.
pub open spec fn route_text_parts(routes: Seq<Seq<char>>) -> Seq<PartView> {
    routes.map_values(|u: Seq<char>| PartView::RouteText(u))
}

/// The steps of a CANCEL sent from `local` (RFC 3261 Section 9.1): its From
/// and To as they are, Call-ID, CSeq, Max-Forwards 70, Content-Length 0, its
/// Route entries in order, and a UDP Via with sent-by `local` and its branch.
pub open spec fn cancel_parts(cancel: RequestInfo, local: Seq<char>) -> Seq<PartView> {
    opt_custom(cancel.from_header) + opt_custom(cancel.to_header) + opt_call_id(opt_view(cancel.call_id))
        + opt_cseq_part(cancel) + seq![PartView::MaxForwardsHeader(70), PartView::ContentLength(0)]
        + route_text_parts(strs_view(cancel.routes@)) + opt_local_via(cancel, local)
}

/// The steps of an UPDATE sent from `local` (RFC 3311): Call-ID, its To and
/// From as they are, CSeq, a UDP Via with sent-by `local` and its branch, a
/// Contact `sip:<local>`, Max-Forwards 70, then the SDP body steps.
pub open spec fn update_parts(update: RequestInfo, local: Seq<char>, sdp: Option<Seq<char>>) -> Seq<PartView> {
    opt_call_id(opt_view(update.call_id)) + opt_custom(update.to_header) + opt_custom(update.from_header)
        + opt_cseq_part(update) + opt_local_via(update, local) + seq![
        PartView::ContactUri("sip:"@ + local),
        PartView::MaxForwardsHeader(70),
    ] + sdp_parts(sdp)
}

fn push_opt_custom(parts: &mut Vec<RequestPart>, h: &Option<TypedHeader>)
    ensures
        final(parts)@.map_values(|x: RequestPart| x@) == old(parts)@.map_values(|x: RequestPart| x@)
            + opt_custom(*h),
{
    let ghost before = parts@.map_values(|x: RequestPart| x@);
    match clone_opt_header(h) {
        Some(x) => push_part(parts, RequestPart::Custom(x)),
        None => {},
    }
    assert(parts@.map_values(|x: RequestPart| x@) =~= before + opt_custom(*h));
}

fn push_opt_call_id(parts: &mut Vec<RequestPart>, c: &Option<String>)
    ensures
        final(parts)@.map_values(|x: RequestPart| x@) == old(parts)@.map_values(|x: RequestPart| x@)
            + opt_call_id(opt_view(*c)),
{
    let ghost before = parts@.map_values(|x: RequestPart| x@);
    match c {
        Some(x) => push_part(parts, RequestPart::CallId(x.clone())),
        None => {},
    }
    assert(parts@.map_values(|x: RequestPart| x@) =~= before + opt_call_id(opt_view(*c)));
}

fn push_opt_cseq(parts: &mut Vec<RequestPart>, r: &RequestInfo)
    ensures
        final(parts)@.map_values(|x: RequestPart| x@) == old(parts)@.map_values(|x: RequestPart| x@)
            + opt_cseq_part(*r),
{
    let ghost before = parts@.map_values(|x: RequestPart| x@);
    match &r.cseq {
        Some(c) => push_part(parts, RequestPart::CSeq(c.seq)),
        None => {},
    }
    assert(parts@.map_values(|x: RequestPart| x@) =~= before + opt_cseq_part(*r));
}

fn push_local_via(parts: &mut Vec<RequestPart>, r: &RequestInfo, local: &str)
    ensures
        final(parts)@.map_values(|x: RequestPart| x@) == old(parts)@.map_values(|x: RequestPart| x@)
            + opt_local_via(*r, local@),
{
    let ghost before = parts@.map_values(|x: RequestPart| x@);
    proof {
        reveal_strlit("UDP");
    }
    if r.via_branches.len() > 0 {
        match &r.via_branches[0] {
            Some(b) => push_part(
                parts,
                RequestPart::Via { host: text(local), transport: text("UDP"), branch: b.clone() },
            ),
            None => {},
        }
    }
    assert(parts@.map_values(|x: RequestPart| x@) =~= before + opt_local_via(*r, local@));
}

fn push_route_texts(parts: &mut Vec<RequestPart>, routes: &Vec<String>)
    ensures
        final(parts)@.map_values(|x: RequestPart| x@) == old(parts)@.map_values(|x: RequestPart| x@)
            + route_text_parts(strs_view(routes@)),
{
    let ghost before = parts@.map_values(|x: RequestPart| x@);
    let mut i: usize = 0;
    while i < routes.len()
        invariant
            i <= routes@.len(),
            parts@.map_values(|x: RequestPart| x@) == before + route_text_parts(strs_view(routes@.take(i as int))),
        decreases routes.len() - i,
    {
        push_part(parts, RequestPart::RouteText(routes[i].clone()));
        proof {
            assert(strs_view(routes@.take(i + 1)) =~= strs_view(routes@.take(i as int)).push(routes@[i as int]@));
            assert(route_text_parts(strs_view(routes@.take(i + 1))) =~= route_text_parts(
                strs_view(routes@.take(i as int)),
            ).push(PartView::RouteText(routes@[i as int]@)));
        }
        i = i + 1;
    }
    assert(routes@.take(routes@.len() as int) =~= routes@);
}

/// The CANCEL (as built by [`crate::cancel::create_cancel_request`]) as a
/// message sent from `local_addr`.
pub fn cancel_request_draft(cancel: &RequestInfo, local_addr: &str) -> (d: RequestDraft)
    ensures
        d@.method == cancel.method@,
        d@.request_uri == cancel.uri@,
        d@.parts == cancel_parts(*cancel, local_addr@),
{
    let mut parts: Vec<RequestPart> = Vec::new();
    let ghost p0 = parts@.map_values(|x: RequestPart| x@);
    push_opt_custom(&mut parts, &cancel.from_header);
    push_opt_custom(&mut parts, &cancel.to_header);
    push_opt_call_id(&mut parts, &cancel.call_id);
    push_opt_cseq(&mut parts, cancel);
    push_part(&mut parts, RequestPart::MaxForwardsHeader(70));
    push_part(&mut parts, RequestPart::ContentLength(0));
    push_route_texts(&mut parts, &cancel.routes);
    push_local_via(&mut parts, cancel, local_addr);
    let d = RequestDraft { method: cancel.method.duplicate(), request_uri: cancel.uri.clone(), parts };
    assert(p0 =~= Seq::<PartView>::empty());
    assert(d@.parts =~= cancel_parts(*cancel, local_addr@));
    d
}

/// The UPDATE (as built by [`crate::update::create_update_request`]) as a
/// message sent from `local_addr`, with the new SDP offer when one is given.
pub fn update_request_draft(update: &RequestInfo, local_addr: &str, sdp: Option<String>) -> (d: RequestDraft)
    ensures
        d@.method == update.method@,
        d@.request_uri == update.uri@,
        d@.parts == update_parts(*update, local_addr@, opt_view(sdp)),
{
    let ghost sv = opt_view(sdp);
    let mut parts: Vec<RequestPart> = Vec::new();
    let ghost p0 = parts@.map_values(|x: RequestPart| x@);
    push_opt_call_id(&mut parts, &update.call_id);
    push_opt_custom(&mut parts, &update.to_header);
    push_opt_custom(&mut parts, &update.from_header);
    push_opt_cseq(&mut parts, update);
    push_local_via(&mut parts, update, local_addr);
    let contact = text("sip:").concat(local_addr);
    proof {
        reveal_strlit("sip:");
    }
    push_part(&mut parts, RequestPart::ContactUri(contact));
    push_part(&mut parts, RequestPart::MaxForwardsHeader(70));
    let ghost p1 = parts@.map_values(|x: RequestPart| x@);
    let body = sdp_body_parts(sdp);
    let ghost bv = body@.map_values(|x: RequestPart| x@);
    let mut body = body;
    let mut k: usize = 0;
    let total: usize = body.len();
    while body.len() > 0
        invariant
            k + body@.len() == total,
            total == bv.len(),
            body@.map_values(|x: RequestPart| x@) == bv.subrange(k as int, total as int),
            parts@.map_values(|x: RequestPart| x@) == p1 + bv.take(k as int),
        decreases body.len(),
    {
        let ghost rest = body@.map_values(|x: RequestPart| x@);
        let p = body.remove(0);
        proof {
            assert(rest[0] == p@);
            assert(body@.map_values(|x: RequestPart| x@) =~= rest.subrange(1, rest.len() as int));
        }
        push_part(&mut parts, p);
        proof {
            assert(bv.take(k + 1) =~= bv.take(k as int).push(bv[k as int]));
            assert(bv[k as int] == rest[0]);
        }
        k = k + 1;
    }
    let d = RequestDraft { method: update.method.duplicate(), request_uri: update.uri.clone(), parts };
    proof {
        assert(bv.take(k as int) =~= bv);
        assert(p0 =~= Seq::<PartView>::empty());
        assert(d@.parts =~= update_parts(*update, local_addr@, sv));
    }
    d
}

} // verus!
