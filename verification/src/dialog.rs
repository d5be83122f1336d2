use vstd::prelude::*;
use rvoip_sip_core::{Uri, TypedHeader};
use crate::method::{Method, MethodView};
use crate::message::{RequestInfo, Party, opt_view, opt_str_clone};
use crate::error::{Error, HeaderField};
use crate::sip_types::{uri_parses, uri_text_parses, clone_uris};
use crate::request_builders::{invite_build_error, bye_build_error};
use crate::request_builders::{
    RequestDraft, BuildError, InviteBuilder, InviteBuilderView, ByeBuilder, ByeBuilderView,
    InDialogRequestBuilder, InDialogView, invite_draft_with, bye_draft_with, in_dialog_draft_with,
    in_dialog_empty, text, or_default, in_dialog_build_error, DraftView, RequestPart, PartView, push_part,
};
use crate::response_builders::{
    ResponseDraft, ResponseBuildError, ResponseBuilder, ResponseBuilderView, InviteResponseBuilder,
    response_build_result, invite_build_outcome, copying_with_tag, dialog_response_needs_tag,
};

verus! {

/// What a dialog knows for the requests it sends: Call-ID, local and remote
/// URIs and tags, Request-URI, next CSeq, local address, route set and
/// Contact.
#[derive(Debug)]
pub struct DialogRequestTemplate {
    pub call_id: String,
    pub from_uri: String,
    pub from_tag: String,
    pub to_uri: String,
    pub to_tag: String,
    pub request_uri: String,
    pub cseq: u32,
    /// The local transport address, as text (`host:port`).
    pub local_address: String,
    pub route_set: Vec<Uri>,
    pub contact: Option<String>,
}

/// The plain value of a [`DialogRequestTemplate`].
pub struct TemplateView {
    pub call_id: Seq<char>,
    pub from_uri: Seq<char>,
    pub from_tag: Seq<char>,
    pub to_uri: Seq<char>,
    pub to_tag: Seq<char>,
    pub request_uri: Seq<char>,
    pub cseq: u32,
    pub local_address: Seq<char>,
    pub route_set: Seq<Uri>,
    pub contact: Option<Seq<char>>,
}

impl View for DialogRequestTemplate {
    type V = TemplateView;

    open spec fn view(&self) -> TemplateView {
        TemplateView {
            call_id: self.call_id@,
            from_uri: self.from_uri@,
            from_tag: self.from_tag@,
            to_uri: self.to_uri@,
            to_tag: self.to_tag@,
            request_uri: self.request_uri@,
            cseq: self.cseq,
            local_address: self.local_address@,
            route_set: self.route_set@,
            contact: opt_view(self.contact),
        }
    }
}

/// The step added for the template's Contact: a Contact header field when
/// the Contact URI parses, nothing otherwise.
pub open spec fn contact_parts(t: TemplateView) -> Seq<PartView> {
    match t.contact {
        Some(c) => if uri_parses(c) {
            seq![PartView::ContactUri(c)]
        } else {
            Seq::empty()
        },
        None => Seq::empty(),
    }
}

/// The INVITE builder a template fills, with routes `rs`, SDP `body` and
/// extra header fields `hs`.
pub open spec fn template_invite_view(t: TemplateView, rs: Seq<Uri>, body: Option<Seq<char>>, hs: Seq<TypedHeader>) -> InviteBuilderView {
    InviteBuilderView {
        from_uri: Some(t.from_uri),
        from_display_name: None,
        from_tag: Some(t.from_tag),
        to_uri: Some(t.to_uri),
        to_display_name: None,
        to_tag: Some(t.to_tag),
        request_uri: Some(t.request_uri),
        call_id: Some(t.call_id),
        cseq: t.cseq,
        local_address: Some(t.local_address),
        branch: None,
        route_set: rs,
        contact: t.contact,
        sdp_content: body,
        custom_headers: hs,
        max_forwards: 70,
    }
}

/// The BYE builder a template fills, with routes `rs`.
pub open spec fn template_bye_view(t: TemplateView, rs: Seq<Uri>) -> ByeBuilderView {
    ByeBuilderView {
        call_id: Some(t.call_id),
        from_uri: Some(t.from_uri),
        from_tag: Some(t.from_tag),
        to_uri: Some(t.to_uri),
        to_tag: Some(t.to_tag),
        request_uri: Some(t.request_uri),
        cseq: t.cseq,
        local_address: Some(t.local_address),
        route_set: rs,
        custom_headers: Seq::empty(),
        max_forwards: 70,
    }
}

/// The in-dialog builder a template fills for `m`, starting from `start`.
pub open spec fn template_in_dialog_view(t: TemplateView, start: InDialogView, rs: Seq<Uri>) -> InDialogView {
    InDialogView {
        call_id: Some(t.call_id),
        from_uri: Some(t.from_uri),
        from_tag: Some(t.from_tag),
        to_uri: Some(t.to_uri),
        to_tag: Some(t.to_tag),
        request_uri: Some(t.request_uri),
        cseq: t.cseq,
        local_address: Some(t.local_address),
        route_set: rs,
        ..start
    }
}

/// Whether `d` is the request that the template gives for `m` with `body`
/// and `content_type`: the template's route set, in order, and the generated
/// values and inner draft named in [`template_outcome`].
pub open spec fn template_request(
    t: TemplateView,
    m: MethodView,
    body: Option<Seq<char>>,
    content_type: Option<Seq<char>>,
    d: DraftView,
) -> bool {
    exists|d0: DraftView, c: Seq<char>, br: Seq<char>, tag: Seq<char>|
        #[trigger] template_outcome(t, m, body, content_type, d, t.route_set, d0, c, br, tag)
}

/// The request of [`template_request`]: the draft `d0` that the builder for
/// `m` gives (with routes `rs` and these generated values), followed by the
/// template's Contact for every method but BYE.
pub open spec fn template_outcome(
    t: TemplateView,
    m: MethodView,
    body: Option<Seq<char>>,
    content_type: Option<Seq<char>>,
    d: DraftView,
    rs: Seq<Uri>,
    d0: DraftView,
    c: Seq<char>,
    br: Seq<char>,
    tag: Seq<char>,
) -> bool {
    &&& d.method == d0.method
    &&& d.request_uri == d0.request_uri
    &&& d.parts == d0.parts + (if m == MethodView::Bye { Seq::empty() } else { contact_parts(t) })
    &&& if m == MethodView::Invite {
        invite_draft_with(template_invite_view(t, rs, body, Seq::empty()), d0, c, br, tag)
    } else if m == MethodView::Bye {
        bye_draft_with(template_bye_view(t, rs), d0, br)
    } else {
        in_dialog_draft_with(
            InDialogView { body, content_type, ..template_in_dialog_view(t, in_dialog_empty(m), rs) },
            d0,
            br,
        )
    }
}

/// The draft followed by the template's Contact, when its URI parses.
fn with_template_contact(d: RequestDraft, t: &DialogRequestTemplate) -> (r: RequestDraft)
    ensures
        r@.method == d@.method,
        r@.request_uri == d@.request_uri,
        r@.parts == d@.parts + contact_parts(t@),
{
    let mut d = d;
    let ghost before = d@.parts;
    match &t.contact {
        Some(c) => {
            if uri_text_parses(c.as_str()) {
                push_part(&mut d.parts, RequestPart::ContactUri(c.clone()));
            }
        },
        None => {},
    }
    assert(d@.parts =~= before + contact_parts(t@));
    d
}

/// Builds a request of a dialog from its template: an INVITE (with `body` as
/// SDP and the template's Contact), a BYE, or any other method (with body,
/// content type and Contact).
pub fn request_builder_from_dialog_template(
    template: &DialogRequestTemplate,
    method: Method,
    body: Option<String>,
    content_type: Option<String>,
) -> (r: Result<RequestDraft, BuildError>)
    ensures
        !uri_parses(template@.request_uri) ==> r == Err::<RequestDraft, BuildError>(BuildError::InvalidRequestUri),
        uri_parses(template@.request_uri) ==> r is Ok,
        r matches Ok(d) ==> template_request(template@, method@, opt_view(body), opt_view(content_type), d@),
{
    let t = template;
    let routes = clone_uris(&t.route_set);
    let ghost rs = routes@;
    if method.is_invite() {
        let mut b = InviteBuilder::from_dialog_enhanced(
            t.call_id.as_str(),
            t.from_uri.as_str(),
            t.from_tag.as_str(),
            None,
            t.to_uri.as_str(),
            t.to_tag.as_str(),
            None,
            t.request_uri.as_str(),
            t.cseq,
            t.local_address.as_str(),
            routes,
            opt_str_clone(&t.contact),
        );
        match &body {
            Some(sdp) => {
                b = b.with_sdp(sdp.as_str());
            },
            None => {},
        }
        let ghost bv = b@;
        proof {
            assert(bv == template_invite_view(template@, rs, opt_view(body), Seq::empty()));
            assert(invite_build_error(bv) is None <==> uri_parses(template@.request_uri));
        }
        match b.build() {
            Ok(d0) => {
                let ghost dv0 = d0@;
                let d = with_template_contact(d0, t);
                proof {
                    let (c, br, tag) = choose|c: Seq<char>, br: Seq<char>, tag: Seq<char>|
                        invite_draft_with(bv, dv0, c, br, tag);
                    assert(template_outcome(template@, method@, opt_view(body), opt_view(content_type), d@, rs, dv0, c, br, tag));
                    assert(rs == template@.route_set);
                    assert(template_request(template@, method@, opt_view(body), opt_view(content_type), d@));
                }
                Ok(d)
            },
            Err(e) => Err(e),
        }
    } else if method.same_as(&Method::Bye) {
        let b = ByeBuilder::from_dialog_enhanced(
            t.call_id.as_str(),
            t.from_uri.as_str(),
            t.from_tag.as_str(),
            t.to_uri.as_str(),
            t.to_tag.as_str(),
            t.request_uri.as_str(),
            t.cseq,
            t.local_address.as_str(),
            routes,
        );
        let ghost bv = b@;
        let r = b.build();
        proof {
            assert(bye_build_error(bv) is None <==> uri_parses(template@.request_uri));
            if r is Ok {
                let d = r->Ok_0;
                let br = choose|br: Seq<char>| bye_draft_with(template_bye_view(template@, rs), d@, br);
                assert(d@.parts =~= d@.parts + Seq::<PartView>::empty());
                assert(template_outcome(template@, method@, opt_view(body), opt_view(content_type), d@, rs, d@, br, br, br));
                assert(rs == template@.route_set);
                assert(template_request(template@, method@, opt_view(body), opt_view(content_type), d@));
            }
        }
        r
    } else {
        let ghost m = method@;
        let mut b = InDialogRequestBuilder::new(method).from_dialog_enhanced(
            t.call_id.as_str(),
            t.from_uri.as_str(),
            t.from_tag.as_str(),
            t.to_uri.as_str(),
            t.to_tag.as_str(),
            t.request_uri.as_str(),
            t.cseq,
            t.local_address.as_str(),
            routes,
        );
        match &body {
            Some(x) => {
                b = b.with_body(x.as_str());
            },
            None => {},
        }
        match &content_type {
            Some(ct) => {
                b = b.with_content_type(ct.as_str());
            },
            None => {},
        }
        let ghost v = InDialogView {
            body: opt_view(body),
            content_type: opt_view(content_type),
            ..template_in_dialog_view(template@, in_dialog_empty(m), rs)
        };
        proof {
            assert(b@ == v);
            assert(b@.subscription_state is None);
            assert(in_dialog_build_error(b@) is None <==> uri_parses(template@.request_uri));
        }
        match b.build() {
            Ok(d0) => {
                let ghost dv0 = d0@;
                let d = with_template_contact(d0, t);
                proof {
                    let br = choose|br: Seq<char>| in_dialog_draft_with(v, dv0, br);
                    assert(template_outcome(template@, method@, opt_view(body), opt_view(content_type), d@, rs, dv0, br, br, br));
                    assert(rs == template@.route_set);
                    assert(template_request(template@, method@, opt_view(body), opt_view(content_type), d@));
                }
                Ok(d)
            },
            Err(e) => Err(e),
        }
    }
}

/// What a request lacks for a dialog template, checked in this order:
/// Call-ID, From, From tag, To.
pub open spec fn template_error(request: RequestInfo) -> Option<Error> {
    if request.call_id is None {
        Some(Error::MissingHeader(HeaderField::CallId))
    } else if request.from is None {
        Some(Error::MissingHeader(HeaderField::From))
    } else if request.from.unwrap().tag is None {
        Some(Error::MissingFromTag)
    } else if request.to is None {
        Some(Error::MissingHeader(HeaderField::To))
    } else {
        None
    }
}

/// The dialog template of a request, from its Call-ID, From (with its tag),
/// To, the route set of its Route header fields and the first URI of its
/// Contact. The To URI is the Request-URI. A To without a tag (a request
/// that starts the dialog, such as a fresh INVITE) gives an empty To tag.
pub fn extract_dialog_template_from_request(
    request: &RequestInfo,
    route_set: Vec<Uri>,
    contact: Option<String>,
    local_address: &str,
    next_cseq: u32,
) -> (r: Result<DialogRequestTemplate, Error>)
    ensures
        template_error(*request) matches Some(e) ==> r == Err::<DialogRequestTemplate, Error>(e),
        template_error(*request) is None ==> r is Ok,
        r matches Ok(t) ==> t@ == (TemplateView {
            call_id: request.call_id.unwrap()@,
            from_uri: request.from.unwrap().uri@,
            from_tag: request.from.unwrap().tag.unwrap()@,
            to_uri: request.to.unwrap().uri@,
            to_tag: or_default(opt_view(request.to.unwrap().tag), Seq::empty()),
            request_uri: request.to.unwrap().uri@,
            cseq: next_cseq,
            local_address: local_address@,
            route_set: route_set@,
            contact: opt_view(contact),
        }),
{
    let call_id = match &request.call_id {
        Some(c) => c.clone(),
        None => return Err(Error::MissingHeader(HeaderField::CallId)),
    };
    let from: &Party = match &request.from {
        Some(f) => f,
        None => return Err(Error::MissingHeader(HeaderField::From)),
    };
    let from_tag = match &from.tag {
        Some(x) => x.clone(),
        None => return Err(Error::MissingFromTag),
    };
    let to: &Party = match &request.to {
        Some(x) => x,
        None => return Err(Error::MissingHeader(HeaderField::To)),
    };
    let to_tag = match &to.tag {
        Some(x) => x.clone(),
        None => String::new(),
    };
    Ok(DialogRequestTemplate {
        call_id,
        from_uri: from.uri.clone(),
        from_tag,
        to_uri: to.uri.clone(),
        to_tag,
        request_uri: to.uri.clone(),
        cseq: next_cseq,
        local_address: text(local_address),
        route_set,
        contact,
    })
}

/// What a transaction of a dialog needs to build its responses.
#[derive(Debug)]
pub struct DialogTransactionContext {
    pub dialog_id: Option<String>,
    pub transaction_id: String,
    pub original_request: RequestInfo,
    /// Whether the request creates a dialog: an INVITE or SUBSCRIBE whose To
    /// has no tag.
    pub is_dialog_creating: bool,
    pub local_address: String,
}

/// Whether a request creates a dialog: an INVITE or a SUBSCRIBE (RFC 6665)
/// with a To header field without tag.
pub open spec fn spec_is_dialog_creating(request: RequestInfo) -> bool {
    (request.method@ == MethodView::Invite || request.method@ == MethodView::Subscribe) && match request.to {
        Some(p) => p.tag is None,
        None => false,
    }
}

/// The context of a dialog transaction for building its responses.
pub fn create_dialog_transaction_context(
    transaction_id: &str,
    original_request: RequestInfo,
    dialog_id: Option<String>,
    local_address: &str,
) -> (c: DialogTransactionContext)
    ensures
        c.transaction_id@ == transaction_id@,
        c.original_request == original_request,
        opt_view(c.dialog_id) == opt_view(dialog_id),
        c.is_dialog_creating == spec_is_dialog_creating(original_request),
        c.local_address@ == local_address@,
{
    let creating = (original_request.method.is_invite() || original_request.method.same_as(&Method::Subscribe))
        && match &original_request.to {
        Some(p) => p.tag.is_none(),
        None => false,
    };
    DialogTransactionContext {
        dialog_id,
        transaction_id: text(transaction_id),
        original_request,
        is_dialog_creating: creating,
        local_address: text(local_address),
    }
}

/// The Contact of a dialog response, `sip:server@<address>`, when an address
/// is given.
pub open spec fn server_contact(contact_address: Option<Seq<char>>) -> Option<Seq<char>> {
    match contact_address {
        Some(a) => Some("sip:"@ + "server"@ + "@"@ + a),
        None => None,
    }
}

/// Builds a response of a dialog transaction: an INVITE response (To tag
/// for dialog-creating 2xx, SDP answer) for an INVITE, a plain response
/// otherwise; with a Contact `sip:server@<address>` when an address is given.
pub fn response_builder_for_dialog_transaction(
    context: &DialogTransactionContext,
    status: u16,
    contact_address: Option<&str>,
    sdp_content: Option<String>,
) -> (r: Result<ResponseDraft, ResponseBuildError>)
    ensures
        exists|b: ResponseBuilderView| {
            &&& copying_with_tag(
                ResponseBuilderView { contact: None, sdp_content: None, content_type: None, ..b },
                context.original_request,
                status,
                dialog_response_needs_tag(status, context.original_request),
            )
            &&& b.contact == server_contact(match contact_address {
                Some(a) => Some(a@),
                None => None,
            })
            &&& #[trigger] dialog_response_outcome(context.original_request.method@, b, opt_view(sdp_content), r)
        },
{
    let request = &context.original_request;
    proof {
        reveal_strlit("server");
    }
    if request.method.is_invite() {
        let mut b = InviteResponseBuilder::from_dialog_context(status, request, None);
        match contact_address {
            Some(a) => {
                b = b.with_contact_address(a, Some("server"));
            },
            None => {},
        }
        match &sdp_content {
            Some(s) => {
                b = b.with_sdp_answer(s.as_str());
            },
            None => {},
        }
        let ghost bv = b.inner@;
        let r = b.build();
        assert(dialog_response_outcome(request.method@, bv, opt_view(sdp_content), r));
        r
    } else {
        let mut b = ResponseBuilder::from_dialog_transaction(status, request, None);
        match contact_address {
            Some(a) => {
                b = b.with_contact_address(a, Some("server"));
            },
            None => {},
        }
        let ghost before_sdp = b@;
        match &sdp_content {
            Some(s) => {
                b = b.with_sdp(s.as_str());
            },
            None => {},
        }
        let ghost bv = b@;
        let r = b.build();
        assert(dialog_response_outcome(request.method@, before_sdp, opt_view(sdp_content), r));
        r
    }
}

/// What a dialog response builder `b` (before the SDP is added) builds with
/// SDP `sdp`: through the INVITE response builder for an INVITE, directly
/// otherwise.
pub open spec fn dialog_response_outcome(
    m: MethodView,
    b: ResponseBuilderView,
    sdp: Option<Seq<char>>,
    r: Result<ResponseDraft, ResponseBuildError>,
) -> bool {
    if m == MethodView::Invite {
        invite_build_outcome(b, sdp, r)
    } else {
        response_build_result(
            match sdp {
                Some(s) => ResponseBuilderView { sdp_content: Some(s), content_type: Some("application/sdp"@), ..b },
                None => b,
            },
            r,
        )
    }
}

/// A BYE from the template.
pub fn quick_bye_from_template(template: &DialogRequestTemplate) -> (r: Result<RequestDraft, BuildError>)
    ensures
        !uri_parses(template@.request_uri) ==> r == Err::<RequestDraft, BuildError>(BuildError::InvalidRequestUri),
        uri_parses(template@.request_uri) ==> r is Ok,
        r matches Ok(d) ==> template_request(template@, MethodView::Bye, None, None, d@),
{
    request_builder_from_dialog_template(template, Method::Bye, None, None)
}

/// A REFER to `target_uri` from the template.
pub fn quick_refer_from_template(template: &DialogRequestTemplate, target_uri: &str) -> (r: Result<
    RequestDraft,
    BuildError,
>)
    ensures
        !uri_parses(template@.request_uri) ==> r == Err::<RequestDraft, BuildError>(BuildError::InvalidRequestUri),
        uri_parses(template@.request_uri) ==> r is Ok,
        r matches Ok(d) ==> template_request(
            template@,
            MethodView::Refer,
            Some("Refer-To: "@ + target_uri@ + "\r\n"@),
            Some("message/sipfrag"@),
            d@,
        ),
{
    let body = text("Refer-To: ").concat(target_uri).concat("\r\n");
    request_builder_from_dialog_template(template, Method::Refer, Some(body), Some(text("message/sipfrag")))
}

/// An UPDATE from the template, with an SDP body as `application/sdp` when given.
pub fn quick_update_from_template(template: &DialogRequestTemplate, sdp: Option<String>) -> (r: Result<
    RequestDraft,
    BuildError,
>)
    ensures
        !uri_parses(template@.request_uri) ==> r == Err::<RequestDraft, BuildError>(BuildError::InvalidRequestUri),
        uri_parses(template@.request_uri) ==> r is Ok,
        r matches Ok(d) ==> template_request(
            template@,
            MethodView::Update,
            opt_view(sdp),
            if sdp is Some {
                Some("application/sdp"@)
            } else {
                None
            },
            d@,
        ),
{
    let content_type = if sdp.is_some() {
        Some(text("application/sdp"))
    } else {
        None
    };
    request_builder_from_dialog_template(template, Method::Update, sdp, content_type)
}

/// An INFO from the template, as `application/info`.
pub fn quick_info_from_template(template: &DialogRequestTemplate, content: &str) -> (r: Result<
    RequestDraft,
    BuildError,
>)
    ensures
        !uri_parses(template@.request_uri) ==> r == Err::<RequestDraft, BuildError>(BuildError::InvalidRequestUri),
        uri_parses(template@.request_uri) ==> r is Ok,
        r matches Ok(d) ==> template_request(
            template@,
            MethodView::Info,
            Some(content@),
            Some("application/info"@),
            d@,
        ),
{
    request_builder_from_dialog_template(template, Method::Info, Some(text(content)), Some(text("application/info")))
}

/// The NOTIFY builder for `event` and `body` before the dialog is set.
pub open spec fn notify_start(event: Seq<char>, body: Option<Seq<char>>) -> InDialogView {
    InDialogView { event_type: Some(event), body, ..in_dialog_empty(MethodView::Notify) }
}

/// A NOTIFY for `event` from the template (without its Contact), with a body
/// when given.
pub fn quick_notify_from_template(template: &DialogRequestTemplate, event: &str, body: Option<String>) -> (r: Result<
    RequestDraft,
    BuildError,
>)
    ensures
        !uri_parses(template@.request_uri) ==> r == Err::<RequestDraft, BuildError>(BuildError::InvalidRequestUri),
        uri_parses(template@.request_uri) ==> r is Ok,
        r matches Ok(d) ==> exists|br: Seq<char>|
            #[trigger] in_dialog_draft_with(
                template_in_dialog_view(template@, notify_start(event@, opt_view(body)), template@.route_set),
                d@,
                br,
            ),
{
    let t = template;
    let routes = clone_uris(&t.route_set);
    let ghost rs = routes@;
    let ghost start = notify_start(event@, opt_view(body));
    let b = InDialogRequestBuilder::for_notify(event, body).from_dialog_enhanced(
        t.call_id.as_str(),
        t.from_uri.as_str(),
        t.from_tag.as_str(),
        t.to_uri.as_str(),
        t.to_tag.as_str(),
        t.request_uri.as_str(),
        t.cseq,
        t.local_address.as_str(),
        routes,
    );
    assert(b@ == template_in_dialog_view(template@, start, rs));
    assert(in_dialog_build_error(b@) is None <==> uri_parses(template@.request_uri));
    b.build()
}

/// Only an INVITE or a SUBSCRIBE whose To carries no tag creates a dialog;
/// a request with a To tag is already inside one.
pub proof fn lemma_dialog_creation_follows_rfc(request: RequestInfo)
    ensures
        spec_is_dialog_creating(request) <==> ((request.method@ == MethodView::Invite || request.method@
            == MethodView::Subscribe) && request.to is Some && request.to.unwrap().tag is None),
{
}

} // verus!
