use vstd::prelude::*;
use rvoip_sip_core::{Uri, TypedHeader};
use crate::method::{Method, MethodView};
use crate::message::{RequestInfo, CSeqInfo, opt_view, opt_cseq, is_success, status_is_success, opt_str_clone};
use crate::branch::{generate_tag, is_generated_tag};
use crate::sip_types::{uri_parses, uri_text_parses, clone_headers, clone_opt_header, clone_header};
use crate::request_builders::{content_length, byte_length, text, unwrap_or_text, or_default};

verus! {

/// A header field added to a response after the standard ones.
#[derive(Debug)]
pub enum ExtraHeader {
    /// A header field given as is.
    Typed(TypedHeader),
    /// A Contact header field with the URI this text parses into.
    Contact(String),
    /// An Allow header field listing these methods.
    Allow(Vec<Method>),
}

/// The plain value of an [`ExtraHeader`].
pub enum ExtraView {
    Typed(TypedHeader),
    Contact(Seq<char>),
    Allow(Seq<MethodView>),
}

impl View for ExtraHeader {
    type V = ExtraView;

    open spec fn view(&self) -> ExtraView {
        match self {
            ExtraHeader::Typed(h) => ExtraView::Typed(*h),
            ExtraHeader::Contact(u) => ExtraView::Contact(u@),
            ExtraHeader::Allow(ms) => ExtraView::Allow(ms@.map_values(|m: Method| m@)),
        }
    }
}

/// The views of a list of extra header fields.
pub open spec fn extras_view(v: Seq<ExtraHeader>) -> Seq<ExtraView> {
    v.map_values(|h: ExtraHeader| h@)
}

/// One step of building a response, in order.
#[derive(Debug)]
pub enum ResponsePart {
    /// A Via header field, copied from the request.
    Via(TypedHeader),
    /// The request's From header field.
    From(TypedHeader),
    /// The request's To header field, with this tag set when there is one.
    To { header: TypedHeader, tag: Option<String> },
    /// A Call-ID header field.
    CallId(String),
    /// A CSeq header field.
    CSeq { seq: u32, method: Method },
    /// A Contact header field with the URI this text parses into.
    Contact(String),
    /// An Expires header field.
    Expires(u32),
    /// A Content-Type of `application/sdp`.
    ContentTypeSdp,
    /// A Content-Length header field.
    ContentLength(u32),
    /// The body.
    Body(String),
    /// A header field added after the others.
    Extra(ExtraHeader),
}

/// The plain value of a [`ResponsePart`].
pub enum ResponsePartView {
    Via(TypedHeader),
    From(TypedHeader),
    To { header: TypedHeader, tag: Option<Seq<char>> },
    CallId(Seq<char>),
    CSeq { seq: u32, method: MethodView },
    Contact(Seq<char>),
    Expires(u32),
    ContentTypeSdp,
    ContentLength(u32),
    Body(Seq<char>),
    Extra(ExtraView),
}

impl View for ResponsePart {
    type V = ResponsePartView;

    open spec fn view(&self) -> ResponsePartView {
        match self {
            ResponsePart::Via(h) => ResponsePartView::Via(*h),
            ResponsePart::From(h) => ResponsePartView::From(*h),
            ResponsePart::To { header, tag } => ResponsePartView::To { header: *header, tag: opt_view(*tag) },
            ResponsePart::CallId(c) => ResponsePartView::CallId(c@),
            ResponsePart::CSeq { seq, method } => ResponsePartView::CSeq { seq: *seq, method: method@ },
            ResponsePart::Contact(u) => ResponsePartView::Contact(u@),
            ResponsePart::Expires(n) => ResponsePartView::Expires(*n),
            ResponsePart::ContentTypeSdp => ResponsePartView::ContentTypeSdp,
            ResponsePart::ContentLength(n) => ResponsePartView::ContentLength(*n),
            ResponsePart::Body(s) => ResponsePartView::Body(s@),
            ResponsePart::Extra(h) => ResponsePartView::Extra(h@),
        }
    }
}

/// A response: its status, reason phrase and the steps that build it.
#[derive(Debug)]
pub struct ResponseDraft {
    pub status: u16,
    pub reason_phrase: Option<String>,
    pub parts: Vec<ResponsePart>,
}

/// The plain value of a [`ResponseDraft`].
pub struct ResponseDraftView {
    pub status: u16,
    pub reason_phrase: Option<Seq<char>>,
    pub parts: Seq<ResponsePartView>,
}

impl View for ResponseDraft {
    type V = ResponseDraftView;

    open spec fn view(&self) -> ResponseDraftView {
        ResponseDraftView {
            status: self.status,
            reason_phrase: opt_view(self.reason_phrase),
            parts: self.parts@.map_values(|p: ResponsePart| p@),
        }
    }
}

/// Why a response could not be built.
#[derive(Debug, Clone, Copy, PartialEq, Eq, Structural)]
pub enum ResponseBuildError {
    /// A Contact URI does not parse.
    InvalidContactUri,
}

/// Whether the request carries a To header field without a tag: a 2xx to
/// such an INVITE creates a dialog and needs a To tag.
pub open spec fn to_without_tag(request: RequestInfo) -> bool {
    match request.to {
        Some(p) => p.tag is None,
        None => false,
    }
}

/// Whether the request carries a To header field with a tag (an in-dialog request).
pub open spec fn to_with_tag(request: RequestInfo) -> bool {
    match request.to {
        Some(p) => p.tag is Some,
        None => false,
    }
}

/// The header fields a response copies from its request: the Via header
/// fields in order, From, To, Call-ID and CSeq, each when the request has it.
#[derive(Debug)]
pub struct CopiedHeaders {
    pub vias: Vec<TypedHeader>,
    pub from: Option<TypedHeader>,
    pub to: Option<TypedHeader>,
    pub call_id: Option<String>,
    pub cseq: Option<CSeqInfo>,
}

/// The plain value of [`CopiedHeaders`].
pub struct CopiedView {
    pub vias: Seq<TypedHeader>,
    pub from: Option<TypedHeader>,
    pub to: Option<TypedHeader>,
    pub call_id: Option<Seq<char>>,
    pub cseq: Option<(u32, MethodView)>,
}

impl View for CopiedHeaders {
    type V = CopiedView;

    open spec fn view(&self) -> CopiedView {
        CopiedView {
            vias: self.vias@,
            from: self.from,
            to: self.to,
            call_id: opt_view(self.call_id),
            cseq: opt_cseq(self.cseq),
        }
    }
}

/// What a response copies from `request`.
pub open spec fn copied_of(request: RequestInfo) -> CopiedView {
    CopiedView {
        vias: request.via_headers@,
        from: request.from_header,
        to: request.to_header,
        call_id: opt_view(request.call_id),
        cseq: opt_cseq(request.cseq),
    }
}

/// The view of optional copied header fields.
pub open spec fn opt_copied(o: Option<CopiedHeaders>) -> Option<CopiedView> {
    match o {
        Some(c) => Some(c@),
        None => None,
    }
}

/// The steps that copy the request's header fields, the To with tag `tag`
/// when one is given: each Via in order, then From, To, Call-ID and CSeq.
pub open spec fn copy_parts(c: CopiedView, tag: Option<Seq<char>>) -> Seq<ResponsePartView> {
    c.vias.map_values(|h: TypedHeader| ResponsePartView::Via(h)) + (match c.from {
        Some(h) => seq![ResponsePartView::From(h)],
        None => Seq::empty(),
    }) + (match c.to {
        Some(h) => seq![ResponsePartView::To { header: h, tag }],
        None => Seq::empty(),
    }) + (match c.call_id {
        Some(x) => seq![ResponsePartView::CallId(x)],
        None => Seq::empty(),
    }) + (match c.cseq {
        Some((n, m)) => seq![ResponsePartView::CSeq { seq: n, method: m }],
        None => Seq::empty(),
    })
}

/// Builder for SIP responses. The Via, From, To, Call-ID and CSeq header
/// fields of the request are copied when `copied` is set.
#[derive(Debug)]
pub struct ResponseBuilder {
    pub status: u16,
    pub reason_phrase: Option<String>,
    pub copied: Option<CopiedHeaders>,
    pub to_tag: Option<String>,
    pub contact: Option<String>,
    pub content_type: Option<String>,
    pub expires: Option<u32>,
    pub sdp_content: Option<String>,
    pub extra_headers: Vec<ExtraHeader>,
}

/// The plain value of a [`ResponseBuilder`].
pub struct ResponseBuilderView {
    pub status: u16,
    pub reason_phrase: Option<Seq<char>>,
    pub copied: Option<CopiedView>,
    pub to_tag: Option<Seq<char>>,
    pub contact: Option<Seq<char>>,
    pub content_type: Option<Seq<char>>,
    pub expires: Option<u32>,
    pub sdp_content: Option<Seq<char>>,
    pub extra_headers: Seq<ExtraView>,
}

impl View for ResponseBuilder {
    type V = ResponseBuilderView;

    open spec fn view(&self) -> ResponseBuilderView {
        ResponseBuilderView {
            status: self.status,
            reason_phrase: opt_view(self.reason_phrase),
            copied: opt_copied(self.copied),
            to_tag: opt_view(self.to_tag),
            contact: opt_view(self.contact),
            content_type: opt_view(self.content_type),
            expires: self.expires,
            sdp_content: opt_view(self.sdp_content),
            extra_headers: extras_view(self.extra_headers@),
        }
    }
}

/// A response builder for `status` with nothing set.
pub open spec fn response_empty(status: u16) -> ResponseBuilderView {
    ResponseBuilderView {
        status,
        reason_phrase: None,
        copied: None,
        to_tag: None,
        contact: None,
        content_type: None,
        expires: None,
        sdp_content: None,
        extra_headers: Seq::empty(),
    }
}

/// Whether `b` is the response builder for `status` and `request`, copying
/// the request, with a generated To tag exactly when `gen_tag`.
pub open spec fn copying_with_tag(b: ResponseBuilderView, request: RequestInfo, status: u16, gen_tag: bool) -> bool {
    &&& b == (ResponseBuilderView { copied: Some(copied_of(request)), to_tag: b.to_tag, ..response_empty(status) })
    &&& (gen_tag ==> (b.to_tag matches Some(t) && is_generated_tag(t)))
    &&& (!gen_tag ==> b.to_tag is None)
}

/// Whether a response of `status` to `request` built for a dialog needs a
/// generated To tag: a 2xx to an INVITE whose To has no tag.
pub open spec fn dialog_response_needs_tag(status: u16, request: RequestInfo) -> bool {
    is_success(status) && request.method@ == MethodView::Invite && to_without_tag(request)
}

/// Whether a response of `status` to `request`, with dialog detection, needs
/// a generated To tag: a 2xx to an INVITE outside a dialog.
pub open spec fn detected_response_needs_tag(status: u16, request: RequestInfo) -> bool {
    !to_with_tag(request) && is_success(status) && request.method@ == MethodView::Invite
}

/// The steps of the response that `b` builds.
pub open spec fn response_parts(b: ResponseBuilderView) -> Seq<ResponsePartView> {
    (match b.copied {
        Some(c) => copy_parts(c, b.to_tag),
        None => Seq::empty(),
    }) + (match b.contact {
        Some(u) => seq![ResponsePartView::Contact(u)],
        None => Seq::empty(),
    }) + (match b.expires {
        Some(e) => seq![ResponsePartView::Expires(e)],
        None => Seq::empty(),
    }) + (match b.sdp_content {
        Some(sdp) => (if b.content_type is Some {
            seq![ResponsePartView::ContentTypeSdp]
        } else {
            Seq::empty()
        }) + seq![ResponsePartView::ContentLength(content_length(sdp)), ResponsePartView::Body(sdp)],
        None => seq![ResponsePartView::ContentLength(0)],
    }) + b.extra_headers.map_values(|h: ExtraView| ResponsePartView::Extra(h))
}

/// Appends one step.
pub(crate) fn push_rpart(parts: &mut Vec<ResponsePart>, p: ResponsePart)
    ensures
        final(parts)@.map_values(|x: ResponsePart| x@) == old(parts)@.map_values(|x: ResponsePart| x@).push(p@),
{
    let ghost before = parts@;
    let ghost pv = p@;
    parts.push(p);
    assert(parts@.map_values(|x: ResponsePart| x@) =~= before.map_values(|x: ResponsePart| x@).push(pv));
}

/// Appends the steps that copy the request's header fields.
fn push_copy_parts(parts: &mut Vec<ResponsePart>, c: CopiedHeaders, tag: Option<String>)
    ensures
        final(parts)@.map_values(|x: ResponsePart| x@) == old(parts)@.map_values(|x: ResponsePart| x@)
            + copy_parts(c@, opt_view(tag)),
{
    let ghost start = parts@.map_values(|x: ResponsePart| x@);
    let ghost cv = c@;
    let ghost tv = opt_view(tag);
    let vias = c.vias;
    let mut i: usize = 0;
    while i < vias.len()
        invariant
            i <= vias@.len(),
            vias@ == cv.vias,
            parts@.map_values(|x: ResponsePart| x@) == start + vias@.take(i as int).map_values(
                |h: TypedHeader| ResponsePartView::Via(h),
            ),
        decreases vias.len() - i,
    {
        let ghost before = parts@.map_values(|x: ResponsePart| x@);
        push_rpart(parts, ResponsePart::Via(clone_header(&vias[i])));
        proof {
            assert(vias@.take(i + 1).map_values(|h: TypedHeader| ResponsePartView::Via(h)) =~= vias@.take(
                i as int,
            ).map_values(|h: TypedHeader| ResponsePartView::Via(h)).push(ResponsePartView::Via(vias@[i as int])));
        }
        i = i + 1;
    }
    assert(vias@.take(vias@.len() as int) =~= vias@);
    let ghost q0 = parts@.map_values(|x: ResponsePart| x@);
    match c.from {
        Some(h) => push_rpart(parts, ResponsePart::From(h)),
        None => {},
    }
    let ghost q1 = parts@.map_values(|x: ResponsePart| x@);
    match c.to {
        Some(h) => push_rpart(parts, ResponsePart::To { header: h, tag }),
        None => {},
    }
    let ghost q2 = parts@.map_values(|x: ResponsePart| x@);
    match c.call_id {
        Some(x) => push_rpart(parts, ResponsePart::CallId(x)),
        None => {},
    }
    let ghost q3 = parts@.map_values(|x: ResponsePart| x@);
    match c.cseq {
        Some(q) => push_rpart(parts, ResponsePart::CSeq { seq: q.seq, method: q.method }),
        None => {},
    }
    proof {
        let fr = match cv.from {
            Some(h) => seq![ResponsePartView::From(h)],
            None => Seq::<ResponsePartView>::empty(),
        };
        let to = match cv.to {
            Some(h) => seq![ResponsePartView::To { header: h, tag: tv }],
            None => Seq::<ResponsePartView>::empty(),
        };
        let ci = match cv.call_id {
            Some(x) => seq![ResponsePartView::CallId(x)],
            None => Seq::<ResponsePartView>::empty(),
        };
        let vs = cv.vias.map_values(|h: TypedHeader| ResponsePartView::Via(h));
        assert(q1 =~= start + vs + fr);
        assert(q2 =~= start + vs + fr + to);
        assert(q3 =~= start + vs + fr + to + ci);
        assert(parts@.map_values(|x: ResponsePart| x@) =~= start + copy_parts(cv, tv));
    }
}

impl ResponseBuilder {
    /// A builder for `status` with nothing set.
    pub fn new(status: u16) -> (r: Self)
        ensures
            r@ == response_empty(status),
    {
        let r = ResponseBuilder {
            status,
            reason_phrase: None,
            copied: None,
            to_tag: None,
            contact: None,
            content_type: None,
            expires: None,
            sdp_content: None,
            extra_headers: Vec::new(),
        };
        assert(r@.extra_headers =~= Seq::<ExtraView>::empty());
        r
    }

    /// A builder for a response in a dialog transaction: the request is
    /// copied, and a 2xx to an INVITE whose To has no tag gets a generated To
    /// tag (it creates the dialog).
    pub fn from_dialog_transaction(status: u16, request: &RequestInfo, dialog_id: Option<&str>) -> (r: Self)
        ensures
            copying_with_tag(r@, *request, status, dialog_response_needs_tag(status, *request)),
    {
        let b = ResponseBuilder::new(status).from_request(request);
        let needs_tag = match &request.to {
            Some(p) => p.tag.is_none(),
            None => false,
        };
        if status_is_success(status) && request.method.is_invite() && needs_tag {
            b.with_generated_to_tag()
        } else {
            b
        }
    }

    /// A builder that tells dialog-creating requests from in-dialog ones by
    /// the To tag: a 2xx to an INVITE without one gets a generated To tag.
    pub fn from_request_with_dialog_detection(status: u16, request: &RequestInfo) -> (r: Self)
        ensures
            copying_with_tag(r@, *request, status, detected_response_needs_tag(status, *request)),
    {
        let in_dialog = match &request.to {
            Some(p) => p.tag.is_some(),
            None => false,
        };
        let b = ResponseBuilder::new(status).from_request(request);
        if !in_dialog && status_is_success(status) && request.method.is_invite() {
            b.with_generated_to_tag()
        } else {
            b
        }
    }

    /// Copies the request's Via, From, To, Call-ID and CSeq into the response.
    pub fn from_request(self, request: &RequestInfo) -> (r: Self)
        ensures
            r@ == (ResponseBuilderView { copied: Some(copied_of(*request)), ..self@ }),
    {
        let cseq = match &request.cseq {
            Some(c) => Some(CSeqInfo { seq: c.seq, method: c.method.duplicate() }),
            None => None,
        };
        let copied = CopiedHeaders {
            vias: clone_headers(&request.via_headers),
            from: clone_opt_header(&request.from_header),
            to: clone_opt_header(&request.to_header),
            call_id: opt_str_clone(&request.call_id),
            cseq,
        };
        let mut b = self;
        b.copied = Some(copied);
        b
    }

    /// Sets the reason phrase.
    pub fn reason_phrase(self, phrase: &str) -> (r: Self)
        ensures
            r@ == (ResponseBuilderView { reason_phrase: Some(phrase@), ..self@ }),
    {
        let mut b = self;
        b.reason_phrase = Some(text(phrase));
        b
    }

    /// Sets the To tag.
    pub fn with_to_tag(self, tag: &str) -> (r: Self)
        ensures
            r@ == (ResponseBuilderView { to_tag: Some(tag@), ..self@ }),
    {
        let mut b = self;
        b.to_tag = Some(text(tag));
        b
    }

    /// Sets a generated To tag.
    pub fn with_generated_to_tag(self) -> (r: Self)
        ensures
            r@.to_tag matches Some(t) && is_generated_tag(t),
            r@ == (ResponseBuilderView { to_tag: r@.to_tag, ..self@ }),
    {
        let mut b = self;
        b.to_tag = Some(generate_tag());
        b
    }

    /// Sets the Contact URI.
    pub fn with_contact(self, contact: &str) -> (r: Self)
        ensures
            r@ == (ResponseBuilderView { contact: Some(contact@), ..self@ }),
    {
        let mut b = self;
        b.contact = Some(text(contact));
        b
    }

    /// Sets the Contact URI `sip:<user>@<local address>`, user `server` by default.
    pub fn with_contact_address(self, local_addr: &str, user: Option<&str>) -> (r: Self)
        ensures
            r@ == (ResponseBuilderView {
                contact: Some("sip:"@ + (match user {
                    Some(u) => u@,
                    None => "server"@,
                }) + "@"@ + local_addr@),
                ..self@
            }),
    {
        let user_part: &str = match user {
            Some(u) => u,
            None => "server",
        };
        let c = text("sip:").concat(user_part).concat("@").concat(local_addr);
        let mut b = self;
        b.contact = Some(c);
        b
    }

    /// Sets an SDP body, as `application/sdp`.
    pub fn with_sdp(self, sdp: &str) -> (r: Self)
        ensures
            r@ == (ResponseBuilderView {
                sdp_content: Some(sdp@),
                content_type: Some("application/sdp"@),
                ..self@
            }),
    {
        let mut b = self;
        b.sdp_content = Some(text(sdp));
        b.content_type = Some(text("application/sdp"));
        b
    }

    /// Sets Expires (for REGISTER responses).
    pub fn with_expires(self, seconds: u32) -> (r: Self)
        ensures
            r@ == (ResponseBuilderView { expires: Some(seconds), ..self@ }),
    {
        let mut b = self;
        b.expires = Some(seconds);
        b
    }

    /// Adds a header field after the others.
    pub fn header(self, header: TypedHeader) -> (r: Self)
        ensures
            r@ == (ResponseBuilderView { extra_headers: self@.extra_headers.push(ExtraView::Typed(header)), ..self@ }),
    {
        self.extra(ExtraHeader::Typed(header))
    }

    /// Adds an extra header field after the others.
    pub fn extra(self, header: ExtraHeader) -> (r: Self)
        ensures
            r@ == (ResponseBuilderView { extra_headers: self@.extra_headers.push(header@), ..self@ }),
    {
        let mut b = self;
        let ghost before = b.extra_headers@;
        let ghost hv = header@;
        b.extra_headers.push(header);
        assert(extras_view(b.extra_headers@) =~= extras_view(before).push(hv));
        b
    }

    /// Builds the response: fails when the Contact URI does not parse.
    #[verifier::spinoff_prover]
    #[verifier::rlimit(40)]
    pub fn build(self) -> (r: Result<ResponseDraft, ResponseBuildError>)
        ensures
            (self@.contact matches Some(c) && !uri_parses(c)) ==> r == Err::<ResponseDraft, ResponseBuildError>(
                ResponseBuildError::InvalidContactUri,
            ),
            !(self@.contact matches Some(c) && !uri_parses(c)) ==> (r matches Ok(d) && d@.status == self@.status
                && d@.reason_phrase == self@.reason_phrase && d@.parts == response_parts(self@)),
    {
        let ghost b = self@;
        match &self.contact {
            Some(c) => {
                if !uri_text_parses(c.as_str()) {
                    return Err(ResponseBuildError::InvalidContactUri);
                }
            },
            None => {},
        }
        let mut parts: Vec<ResponsePart> = Vec::new();
        match self.copied {
            Some(c) => push_copy_parts(&mut parts, c, self.to_tag),
            None => {},
        }
        let ghost p1 = parts@.map_values(|p: ResponsePart| p@);
        match self.contact {
            Some(u) => push_rpart(&mut parts, ResponsePart::Contact(u)),
            None => {},
        }
        let ghost p2 = parts@.map_values(|p: ResponsePart| p@);
        match self.expires {
            Some(e) => push_rpart(&mut parts, ResponsePart::Expires(e)),
            None => {},
        }
        let ghost p3 = parts@.map_values(|p: ResponsePart| p@);
        match self.sdp_content {
            Some(sdp) => {
                if self.content_type.is_some() {
                    push_rpart(&mut parts, ResponsePart::ContentTypeSdp);
                }
                let len = byte_length(&sdp);
                push_rpart(&mut parts, ResponsePart::ContentLength(len));
                push_rpart(&mut parts, ResponsePart::Body(sdp));
            },
            None => push_rpart(&mut parts, ResponsePart::ContentLength(0)),
        }
        let ghost p4 = parts@.map_values(|p: ResponsePart| p@);
        let mut rest = self.extra_headers;
        let total: usize = rest.len();
        let ghost all = rest@;
        let mut k: usize = 0;
        while rest.len() > 0
            invariant
                k <= all.len(),
                all.len() == total,
                rest@ == all.subrange(k as int, all.len() as int),
                parts@.map_values(|p: ResponsePart| p@) == p4 + extras_view(all.take(k as int)).map_values(
                    |h: ExtraView| ResponsePartView::Extra(h),
                ),
            decreases rest.len(),
        {
            let h = rest.remove(0);
            let ghost hv = h@;
            let ghost before = parts@.map_values(|p: ResponsePart| p@);
            push_rpart(&mut parts, ResponsePart::Extra(h));
            proof {
                assert(all.take(k + 1) =~= all.take(k as int).push(h));
                assert(extras_view(all.take(k + 1)).map_values(|x: ExtraView| ResponsePartView::Extra(x))
                    =~= extras_view(all.take(k as int)).map_values(|x: ExtraView| ResponsePartView::Extra(x)).push(
                    ResponsePartView::Extra(hv),
                ));
                assert(rest@ =~= all.subrange(k + 1, all.len() as int));
            }
            k = k + 1;
        }
        let d = ResponseDraft { status: self.status, reason_phrase: self.reason_phrase, parts };
        proof {
            assert(all.take(k as int) =~= all);
            assert(d@.parts =~= response_parts(b));
        }
        Ok(d)
    }
}

/// Whether the status asks an INVITE response for a To tag of its own: a
/// ringing or session progress (18x) or a success (2xx).
pub open spec fn invite_response_needs_tag(status: u16) -> bool {
    (180 <= status < 190) || (200 <= status < 300)
}

/// Builder for INVITE responses, with an SDP answer and early media.
#[derive(Debug)]
pub struct InviteResponseBuilder {
    pub inner: ResponseBuilder,
    pub sdp_answer: Option<String>,
    pub early_media: bool,
}

impl InviteResponseBuilder {
    /// A builder for `status` with nothing set.
    pub fn new(status: u16) -> (r: Self)
        ensures
            r.inner@ == response_empty(status),
            r.sdp_answer is None,
            !r.early_media,
    {
        InviteResponseBuilder { inner: ResponseBuilder::new(status), sdp_answer: None, early_media: false }
    }

    /// A builder for an INVITE response in a dialog transaction.
    pub fn from_dialog_context(status: u16, request: &RequestInfo, dialog_id: Option<&str>) -> (r: Self)
        ensures
            copying_with_tag(r.inner@, *request, status, dialog_response_needs_tag(status, *request)),
            r.sdp_answer is None,
            !r.early_media,
    {
        InviteResponseBuilder {
            inner: ResponseBuilder::from_dialog_transaction(status, request, dialog_id),
            sdp_answer: None,
            early_media: false,
        }
    }

    /// A 100 Trying for the INVITE.
    pub fn trying_for_dialog(request: &RequestInfo) -> (r: Self)
        ensures
            copying_with_tag(r.inner@, *request, 100, false),
            r.sdp_answer is None,
            !r.early_media,
    {
        InviteResponseBuilder::from_dialog_context(100, request, None)
    }

    /// A 180 Ringing, with early media when an SDP is given.
    pub fn ringing_for_dialog(request: &RequestInfo, dialog_id: Option<&str>, early_media_sdp: Option<String>) -> (r: Self)
        ensures
            copying_with_tag(r.inner@, *request, 180, false),
            opt_view(r.sdp_answer) == opt_view(early_media_sdp),
            r.early_media == early_media_sdp is Some,
    {
        let b = InviteResponseBuilder::from_dialog_context(180, request, dialog_id);
        match early_media_sdp {
            Some(sdp) => b.with_early_media(sdp.as_str()),
            None => b,
        }
    }

    /// A 200 OK with an SDP answer and a Contact.
    pub fn ok_for_dialog(request: &RequestInfo, dialog_id: Option<&str>, sdp_answer: &str, contact_uri: &str) -> (r: Self)
        ensures
            r.inner@ == (ResponseBuilderView {
                contact: Some(contact_uri@),
                to_tag: r.inner@.to_tag,
                copied: Some(copied_of(*request)),
                ..response_empty(200)
            }),
            dialog_response_needs_tag(200, *request) ==> (r.inner@.to_tag matches Some(t) && is_generated_tag(t)),
            !dialog_response_needs_tag(200, *request) ==> r.inner@.to_tag is None,
            opt_view(r.sdp_answer) == Some(sdp_answer@),
            !r.early_media,
    {
        InviteResponseBuilder::from_dialog_context(200, request, dialog_id).with_sdp_answer(sdp_answer).with_contact(
            contact_uri,
        )
    }

    /// An error response (4xx to 6xx), with a reason phrase when given.
    pub fn error_for_dialog(request: &RequestInfo, status: u16, reason: Option<String>) -> (r: Self)
        ensures
            r.inner@ == (ResponseBuilderView {
                reason_phrase: opt_view(reason),
                to_tag: r.inner@.to_tag,
                copied: Some(copied_of(*request)),
                ..response_empty(status)
            }),
            dialog_response_needs_tag(status, *request) ==> (r.inner@.to_tag matches Some(t) && is_generated_tag(t)),
            !dialog_response_needs_tag(status, *request) ==> r.inner@.to_tag is None,
            r.sdp_answer is None,
            !r.early_media,
    {
        let mut b = InviteResponseBuilder::from_dialog_context(status, request, None);
        match reason {
            Some(phrase) => {
                b.inner = b.inner.reason_phrase(phrase.as_str());
            },
            None => {},
        }
        b
    }

    /// Copies the request's header fields.
    pub fn from_request(self, request: &RequestInfo) -> (r: Self)
        ensures
            r.inner@ == (ResponseBuilderView { copied: Some(copied_of(*request)), ..self.inner@ }),
            opt_view(r.sdp_answer) == opt_view(self.sdp_answer),
            r.early_media == self.early_media,
    {
        let mut b = self;
        b.inner = b.inner.from_request(request);
        b
    }

    /// Sets the SDP answer.
    pub fn with_sdp_answer(self, sdp: &str) -> (r: Self)
        ensures
            r.inner@ == self.inner@,
            opt_view(r.sdp_answer) == Some(sdp@),
            r.early_media == self.early_media,
    {
        let mut b = self;
        b.sdp_answer = Some(text(sdp));
        b
    }

    /// Sets an early-media SDP (for 18x).
    pub fn with_early_media(self, sdp: &str) -> (r: Self)
        ensures
            r.inner@ == self.inner@,
            opt_view(r.sdp_answer) == Some(sdp@),
            r.early_media,
    {
        let mut b = self;
        b.sdp_answer = Some(text(sdp));
        b.early_media = true;
        b
    }

    /// Sets the Contact URI.
    pub fn with_contact(self, contact: &str) -> (r: Self)
        ensures
            r.inner@ == (ResponseBuilderView { contact: Some(contact@), ..self.inner@ }),
            opt_view(r.sdp_answer) == opt_view(self.sdp_answer),
            r.early_media == self.early_media,
    {
        let mut b = self;
        b.inner = b.inner.with_contact(contact);
        b
    }

    /// Sets the Contact URI from the local address.
    pub fn with_contact_address(self, local_addr: &str, user: Option<&str>) -> (r: Self)
        ensures
            r.inner@ == (ResponseBuilderView {
                contact: Some("sip:"@ + (match user {
                    Some(u) => u@,
                    None => "server"@,
                }) + "@"@ + local_addr@),
                ..self.inner@
            }),
            opt_view(r.sdp_answer) == opt_view(self.sdp_answer),
            r.early_media == self.early_media,
    {
        let mut b = self;
        b.inner = b.inner.with_contact_address(local_addr, user);
        b
    }

    /// Sets the To tag.
    pub fn with_to_tag(self, tag: &str) -> (r: Self)
        ensures
            r.inner@ == (ResponseBuilderView { to_tag: Some(tag@), ..self.inner@ }),
            opt_view(r.sdp_answer) == opt_view(self.sdp_answer),
            r.early_media == self.early_media,
    {
        let mut b = self;
        b.inner = b.inner.with_to_tag(tag);
        b
    }

    /// Adds a header field.
    pub fn header(self, header: TypedHeader) -> (r: Self)
        ensures
            r.inner@ == (ResponseBuilderView {
                extra_headers: self.inner@.extra_headers.push(ExtraView::Typed(header)),
                ..self.inner@
            }),
            opt_view(r.sdp_answer) == opt_view(self.sdp_answer),
            r.early_media == self.early_media,
    {
        let mut b = self;
        b.inner = b.inner.header(header);
        b
    }

    /// Builds the response: 18x and 2xx get a generated To tag when none is
    /// set, and the SDP answer becomes an `application/sdp` body.
    pub fn build(self) -> (r: Result<ResponseDraft, ResponseBuildError>)
        ensures
            invite_build_outcome(self.inner@, opt_view(self.sdp_answer), r),
    {
        let mut inner = self.inner;
        if ((180 <= inner.status && inner.status < 190) || (200 <= inner.status && inner.status < 300))
            && inner.to_tag.is_none() {
            inner = inner.with_generated_to_tag();
        }
        match self.sdp_answer {
            Some(sdp) => {
                inner = inner.with_sdp(sdp.as_str());
            },
            None => {},
        }
        let ghost fb = inner@;
        let r = inner.build();
        assert(response_build_result(fb, r));
        r
    }
}

/// Whether `r` is what an INVITE response builder with inner builder `inner`
/// and SDP answer `sdp` builds: 18x and 2xx get a generated To tag when
/// none is set, and the SDP answer becomes an `application/sdp` body.
pub open spec fn invite_build_outcome(
    inner: ResponseBuilderView,
    sdp: Option<Seq<char>>,
    r: Result<ResponseDraft, ResponseBuildError>,
) -> bool {
    exists|fb: ResponseBuilderView| {
        &&& fb == (ResponseBuilderView {
            to_tag: fb.to_tag,
            sdp_content: match sdp {
                Some(s) => Some(s),
                None => inner.sdp_content,
            },
            content_type: match sdp {
                Some(_) => Some("application/sdp"@),
                None => inner.content_type,
            },
            ..inner
        })
        &&& (invite_response_needs_tag(inner.status) && inner.to_tag is None) ==> (fb.to_tag matches Some(t)
            && is_generated_tag(t))
        &&& !(invite_response_needs_tag(inner.status) && inner.to_tag is None) ==> fb.to_tag == inner.to_tag
        &&& #[trigger] response_build_result(fb, r)
    }
}

/// Whether `r` is what `build` gives for a builder with value `b`.
pub open spec fn response_build_result(b: ResponseBuilderView, r: Result<ResponseDraft, ResponseBuildError>) -> bool {
    if b.contact matches Some(c) && !uri_parses(c) {
        r == Err::<ResponseDraft, ResponseBuildError>(ResponseBuildError::InvalidContactUri)
    } else {
        r matches Ok(d) && d@.status == b.status && d@.reason_phrase == b.reason_phrase && d@.parts
            == response_parts(b)
    }
}

/// The texts of a list of contacts.
pub open spec fn contact_uris(cs: Seq<String>) -> Seq<Seq<char>> {
    cs.map_values(|c: String| c@)
}

/// The builder `b` with a Contact header field added for each URI text of `us`.
pub open spec fn with_contacts(b: ResponseBuilderView, us: Seq<Seq<char>>) -> ResponseBuilderView {
    ResponseBuilderView {
        extra_headers: b.extra_headers + us.map_values(|u: Seq<char>| ExtraView::Contact(u)),
        ..b
    }
}

/// Builder for REGISTER responses: a 200 OK lists the registered contacts.
#[derive(Debug)]
pub struct RegisterResponseBuilder {
    pub inner: ResponseBuilder,
    pub registered_contacts: Vec<String>,
}

impl RegisterResponseBuilder {
    /// A builder for `status` with nothing set.
    pub fn new(status: u16) -> (r: Self)
        ensures
            r.inner@ == response_empty(status),
            r.registered_contacts@.len() == 0,
    {
        RegisterResponseBuilder { inner: ResponseBuilder::new(status), registered_contacts: Vec::new() }
    }

    /// Copies the request's header fields.
    pub fn from_request(self, request: &RequestInfo) -> (r: Self)
        ensures
            r.inner@ == (ResponseBuilderView { copied: Some(copied_of(*request)), ..self.inner@ }),
            r.registered_contacts@ == self.registered_contacts@,
    {
        let mut b = self;
        b.inner = b.inner.from_request(request);
        b
    }

    /// Sets Expires.
    pub fn with_expires(self, seconds: u32) -> (r: Self)
        ensures
            r.inner@ == (ResponseBuilderView { expires: Some(seconds), ..self.inner@ }),
            r.registered_contacts@ == self.registered_contacts@,
    {
        let mut b = self;
        b.inner = b.inner.with_expires(seconds);
        b
    }

    /// Sets the registered contacts.
    pub fn with_registered_contacts(self, contacts: Vec<String>) -> (r: Self)
        ensures
            r.inner@ == self.inner@,
            r.registered_contacts@ == contacts@,
    {
        let mut b = self;
        b.registered_contacts = contacts;
        b
    }

    /// Adds a header field.
    pub fn header(self, header: TypedHeader) -> (r: Self)
        ensures
            r.inner@ == (ResponseBuilderView {
                extra_headers: self.inner@.extra_headers.push(ExtraView::Typed(header)),
                ..self.inner@
            }),
            r.registered_contacts@ == self.registered_contacts@,
    {
        let mut b = self;
        b.inner = b.inner.header(header);
        b
    }

    /// Builds the response: a 200 OK gets a Contact for each registered
    /// contact, in order; one that does not parse fails the build.
    pub fn build(self) -> (r: Result<ResponseDraft, ResponseBuildError>)
        ensures
            (self.inner@.status == 200 && exists|i: int|
                0 <= i < self.registered_contacts@.len() && !uri_parses(#[trigger] self.registered_contacts@[i]@))
                ==> r == Err::<ResponseDraft, ResponseBuildError>(ResponseBuildError::InvalidContactUri),
            !(self.inner@.status == 200 && exists|i: int|
                0 <= i < self.registered_contacts@.len() && !uri_parses(#[trigger] self.registered_contacts@[i]@))
                ==> response_build_result(
                with_contacts(
                    self.inner@,
                    if self.inner@.status == 200 {
                        contact_uris(self.registered_contacts@)
                    } else {
                        Seq::empty()
                    },
                ),
                r,
            ),
    {
        let mut inner = self.inner;
        let ghost start = inner@;
        let contacts = self.registered_contacts;
        let ghost cs = contacts@;
        let ghost mut us: Seq<Seq<char>> = Seq::empty();
        if inner.status == 200 && contacts.len() > 0 {
            let mut i: usize = 0;
            while i < contacts.len()
                invariant
                    i <= contacts@.len(),
                    cs == contacts@,
                    cs == self.registered_contacts@,
                    start == self.inner@,
                    start.status == 200,
                    us == contact_uris(cs).take(i as int),
                    forall|j: int| 0 <= j < i ==> uri_parses(#[trigger] cs[j]@),
                    inner@ == with_contacts(start, us),
                decreases contacts.len() - i,
            {
                if uri_text_parses(contacts[i].as_str()) {
                    let ghost before = us;
                    let ghost u = contacts@[i as int]@;
                    inner = inner.extra(ExtraHeader::Contact(contacts[i].clone()));
                    proof {
                        us = us.push(u);
                        assert(us =~= contact_uris(cs).take(i + 1));
                        assert(us.map_values(|x: Seq<char>| ExtraView::Contact(x)) =~= before.map_values(
                            |x: Seq<char>| ExtraView::Contact(x),
                        ).push(ExtraView::Contact(u)));
                    }
                } else {
                    assert(!uri_parses(cs[i as int]@));
                    return Err(ResponseBuildError::InvalidContactUri);
                }
                i = i + 1;
            }
        } else {
            proof {
                assert(start.extra_headers + us.map_values(|u: Seq<char>| ExtraView::Contact(u)) =~= start.extra_headers);
                assert(with_contacts(start, us) == start);
            }
        }
        proof {
            if start.status == 200 && cs.len() > 0 {
                assert(us =~= contact_uris(cs));
            }
            if start.status == 200 && cs.len() == 0 {
                assert(contact_uris(cs) =~= Seq::<Seq<char>>::empty());
            }
        }
        let ghost fb = inner@;
        let r = inner.build();
        assert(response_build_result(fb, r));
        r
    }
}

/// Which responses get a To tag of their own: an INVITE response of 180 to
/// 189 or 200 to 299 (the ones that can create a dialog); for a dialog
/// transaction, only a 2xx to an INVITE whose To has no tag.
pub proof fn lemma_response_tags_follow_rfc(status: u16, request: RequestInfo)
    ensures
        invite_response_needs_tag(status) <==> (180 <= status < 190 || 200 <= status < 300),
        dialog_response_needs_tag(status, request) <==> (200 <= status < 300 && request.method@
            == MethodView::Invite && request.to is Some && request.to.unwrap().tag is None),
        detected_response_needs_tag(status, request) <==> (200 <= status < 300 && request.method@
            == MethodView::Invite && !(request.to is Some && request.to.unwrap().tag is Some)),
{
}

} // verus!
