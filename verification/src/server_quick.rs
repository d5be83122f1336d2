use vstd::prelude::*;
use crate::method::{Method, MethodView};
use crate::message::{RequestInfo, opt_view};
use crate::response_builders::{
    ResponseDraft, ResponseBuildError, ResponseBuilder, ResponseBuilderView, InviteResponseBuilder,
    RegisterResponseBuilder, ExtraHeader, ExtraView, response_empty, response_build_result,
    invite_build_outcome, with_contacts, contact_uris, copied_of,
};
use crate::sip_types::uri_parses;
use rvoip_sip_core::Uri;

verus! {

/// The builder of a plain response of `status` that copies `request`.
pub open spec fn copying(request: RequestInfo, status: u16) -> ResponseBuilderView {
    ResponseBuilderView { copied: Some(copied_of(request)), ..response_empty(status) }
}

/// A response of `status` to `request` with nothing but the copied header
/// fields (and a reason phrase when one is given).
fn plain_response(request: &RequestInfo, status: u16) -> (r: Result<ResponseDraft, ResponseBuildError>)
    ensures
        response_build_result(copying(*request, status), r),
{
    ResponseBuilder::new(status).from_request(request).build()
}

/// 100 Trying.
pub fn trying(request: &RequestInfo) -> (r: Result<ResponseDraft, ResponseBuildError>)
    ensures
        response_build_result(copying(*request, 100), r),
{
    plain_response(request, 100)
}

/// 180 Ringing, with a Contact when one is given.
pub fn ringing(request: &RequestInfo, contact: Option<String>) -> (r: Result<ResponseDraft, ResponseBuildError>)
    ensures
        invite_build_outcome(ResponseBuilderView { contact: opt_view(contact), ..copying(*request, 180) }, None, r),
{
    let b = InviteResponseBuilder::new(180).from_request(request);
    let b = match contact {
        Some(c) => b.with_contact(c.as_str()),
        None => b,
    };
    b.build()
}

/// 200 OK to an INVITE, with a Contact and an SDP answer when one is given.
pub fn ok_invite(request: &RequestInfo, sdp_answer: Option<String>, contact: &str) -> (r: Result<
    ResponseDraft,
    ResponseBuildError,
>)
    ensures
        invite_build_outcome(
            ResponseBuilderView { contact: Some(contact@), ..copying(*request, 200) },
            opt_view(sdp_answer),
            r,
        ),
{
    let b = InviteResponseBuilder::new(200).from_request(request).with_contact(contact);
    let b = match sdp_answer {
        Some(s) => b.with_sdp_answer(s.as_str()),
        None => b,
    };
    b.build()
}

/// 200 OK to a BYE.
pub fn ok_bye(request: &RequestInfo) -> (r: Result<ResponseDraft, ResponseBuildError>)
    ensures
        response_build_result(copying(*request, 200), r),
{
    plain_response(request, 200)
}

/// The builder of a 200 OK to a REGISTER with this Expires, before contacts.
pub open spec fn register_ok_builder(request: RequestInfo, expires: u32) -> ResponseBuilderView {
    ResponseBuilderView { expires: Some(expires), ..copying(request, 200) }
}

/// 200 OK to a REGISTER, with Expires and a Contact for each registered contact.
pub fn ok_register(request: &RequestInfo, expires: u32, contacts: Vec<String>) -> (r: Result<
    ResponseDraft,
    ResponseBuildError,
>)
    ensures
        (exists|i: int| 0 <= i < contacts@.len() && !uri_parses(#[trigger] contacts@[i]@)) ==> r == Err::<
            ResponseDraft,
            ResponseBuildError,
        >(ResponseBuildError::InvalidContactUri),
        !(exists|i: int| 0 <= i < contacts@.len() && !uri_parses(#[trigger] contacts@[i]@)) ==> response_build_result(
            with_contacts(register_ok_builder(*request, expires), contact_uris(contacts@)),
            r,
        ),
{
    RegisterResponseBuilder::new(200).from_request(request).with_expires(expires).with_registered_contacts(
        contacts,
    ).build()
}

/// 200 OK to an OPTIONS, with an Allow header field listing these methods.
pub fn ok_options(request: &RequestInfo, allow_methods: Vec<Method>) -> (r: Result<ResponseDraft, ResponseBuildError>)
    ensures
        response_build_result(
            ResponseBuilderView {
                extra_headers: seq![ExtraView::Allow(allow_methods@.map_values(|m: Method| m@))],
                ..copying(*request, 200)
            },
            r,
        ),
{
    let b = ResponseBuilder::new(200).from_request(request).extra(ExtraHeader::Allow(allow_methods));
    proof {
        assert(b@.extra_headers =~= seq![ExtraView::Allow(allow_methods@.map_values(|m: Method| m@))]);
    }
    b.build()
}

/// 200 OK to a MESSAGE.
pub fn ok_message(request: &RequestInfo) -> (r: Result<ResponseDraft, ResponseBuildError>)
    ensures
        response_build_result(copying(*request, 200), r),
{
    plain_response(request, 200)
}

/// 486 Busy Here.
pub fn busy_here(request: &RequestInfo) -> (r: Result<ResponseDraft, ResponseBuildError>)
    ensures
        response_build_result(copying(*request, 486), r),
{
    plain_response(request, 486)
}

/// 487 Request Terminated.
pub fn request_terminated(request: &RequestInfo) -> (r: Result<ResponseDraft, ResponseBuildError>)
    ensures
        response_build_result(copying(*request, 487), r),
{
    plain_response(request, 487)
}

/// 404 Not Found.
pub fn not_found(request: &RequestInfo) -> (r: Result<ResponseDraft, ResponseBuildError>)
    ensures
        response_build_result(copying(*request, 404), r),
{
    plain_response(request, 404)
}

/// 500 Server Internal Error, with a reason phrase when one is given.
pub fn server_error(request: &RequestInfo, reason: Option<String>) -> (r: Result<ResponseDraft, ResponseBuildError>)
    ensures
        response_build_result(ResponseBuilderView { reason_phrase: opt_view(reason), ..copying(*request, 500) }, r),
{
    let b = ResponseBuilder::new(500).from_request(request);
    let b = match reason {
        Some(p) => b.reason_phrase(p.as_str()),
        None => b,
    };
    b.build()
}

} // verus!
