use vstd::prelude::*;
use vstd::utf8::encode_utf8;
use rvoip_sip_core::{Uri, TypedHeader};
use crate::method::{Method, MethodView};
use crate::message::opt_view;
use crate::branch::{generate_branch, generate_tag, generate_id, is_generated_branch, is_generated_tag, is_generated_id};
use crate::sip_types::{subscription_state_parses, subscription_state_valid, uri_parses, uri_text_parses};

verus! {

/// One step of building a request, in the order the steps are taken. A
/// request draft is rendered into a message by taking its steps in turn.
#[derive(Debug)]
pub enum RequestPart {
    /// The From header field.
    From { display_name: String, uri: String, tag: Option<String> },
    /// The To header field.
    To { display_name: String, uri: String, tag: Option<String> },
    /// The Call-ID header field.
    CallId(String),
    /// The CSeq header field; its method is the request's.
    CSeq(u32),
    /// A Via header field.
    Via { host: String, transport: String, branch: String },
    /// Max-Forwards, set through the request builder.
    MaxForwards(u32),
    /// Max-Forwards, added as a typed header field.
    MaxForwardsHeader(u32),
    /// A Contact header field with this URI text and no display name.
    Contact(String),
    /// A Contact header field with the URI this text parses into (an address
    /// without display name or parameters).
    ContactUri(String),
    /// A Route header field with this URI.
    Route(Uri),
    /// A Route header field with the URI this text parses into.
    RouteText(String),
    /// A Content-Type header field from a type and a subtype.
    ContentType { media_type: String, subtype: String },
    /// A Content-Type header field parsed from its text.
    ContentTypeText(String),
    /// A Content-Length header field.
    ContentLength(u32),
    /// The message body.
    Body(String),
    /// An Event header field with this event token.
    Event(String),
    /// A Subscription-State header field parsed from this text.
    SubscriptionState(String),
    /// An Expires header field.
    Expires(u32),
    /// A header field given as is.
    Custom(TypedHeader),
}

/// The plain value of a [`RequestPart`].
pub enum PartView {
    From { display_name: Seq<char>, uri: Seq<char>, tag: Option<Seq<char>> },
    To { display_name: Seq<char>, uri: Seq<char>, tag: Option<Seq<char>> },
    CallId(Seq<char>),
    CSeq(u32),
    Via { host: Seq<char>, transport: Seq<char>, branch: Seq<char> },
    MaxForwards(u32),
    MaxForwardsHeader(u32),
    Contact(Seq<char>),
    ContactUri(Seq<char>),
    Route(Uri),
    RouteText(Seq<char>),
    ContentType { media_type: Seq<char>, subtype: Seq<char> },
    ContentTypeText(Seq<char>),
    ContentLength(u32),
    Body(Seq<char>),
    Event(Seq<char>),
    SubscriptionState(Seq<char>),
    Expires(u32),
    Custom(TypedHeader),
}

impl View for RequestPart {
    type V = PartView;

    open spec fn view(&self) -> PartView {
        match self {
            RequestPart::From { display_name, uri, tag } => PartView::From {
                display_name: display_name@,
                uri: uri@,
                tag: opt_view(*tag),
            },
            RequestPart::To { display_name, uri, tag } => PartView::To {
                display_name: display_name@,
                uri: uri@,
                tag: opt_view(*tag),
            },
            RequestPart::CallId(s) => PartView::CallId(s@),
            RequestPart::CSeq(n) => PartView::CSeq(*n),
            RequestPart::Via { host, transport, branch } => PartView::Via {
                host: host@,
                transport: transport@,
                branch: branch@,
            },
            RequestPart::MaxForwards(n) => PartView::MaxForwards(*n),
            RequestPart::MaxForwardsHeader(n) => PartView::MaxForwardsHeader(*n),
            RequestPart::Contact(s) => PartView::Contact(s@),
            RequestPart::ContactUri(u) => PartView::ContactUri(u@),
            RequestPart::Route(u) => PartView::Route(*u),
            RequestPart::RouteText(u) => PartView::RouteText(u@),
            RequestPart::ContentType { media_type, subtype } => PartView::ContentType {
                media_type: media_type@,
                subtype: subtype@,
            },
            RequestPart::ContentTypeText(s) => PartView::ContentTypeText(s@),
            RequestPart::ContentLength(n) => PartView::ContentLength(*n),
            RequestPart::Body(s) => PartView::Body(s@),
            RequestPart::Event(s) => PartView::Event(s@),
            RequestPart::SubscriptionState(s) => PartView::SubscriptionState(s@),
            RequestPart::Expires(n) => PartView::Expires(*n),
            RequestPart::Custom(h) => PartView::Custom(*h),
        }
    }
}

/// A request ready to be rendered: its method, its Request-URI and the
/// steps that add its header fields and body.
#[derive(Debug)]
pub struct RequestDraft {
    pub method: Method,
    pub request_uri: String,
    pub parts: Vec<RequestPart>,
}

/// The plain value of a [`RequestDraft`].
pub struct DraftView {
    pub method: MethodView,
    pub request_uri: Seq<char>,
    pub parts: Seq<PartView>,
}

impl View for RequestDraft {
    type V = DraftView;

    open spec fn view(&self) -> DraftView {
        DraftView {
            method: self.method@,
            request_uri: self.request_uri@,
            parts: self.parts@.map_values(|p: RequestPart| p@),
        }
    }
}

/// What a builder reports when a field it needs was never set.
#[derive(Debug, Clone, Copy, PartialEq, Eq, Structural)]
pub enum BuildError {
    FromUriRequired,
    ToUriRequired,
    LocalAddressRequired,
    CallIdRequired,
    FromTagRequired,
    ToTagRequired,
    RegistrarUriRequired,
    /// A Request-URI that does not parse.
    InvalidRequestUri,
    /// A Subscription-State value that does not parse.
    InvalidSubscriptionState,
}

/// The number of bytes of the UTF-8 form of a text, as a Content-Length
/// (cut to 32 bits).
pub open spec fn content_length(s: Seq<char>) -> u32 {
    (encode_utf8(s).len() as usize) as u32
}

/// The Content-Length of a text, computed from its bytes.
pub fn byte_length(s: &String) -> (n: u32)
    ensures
        n == content_length(s@),
{
    let len: usize = s.as_str().len();
    assert(len == (encode_utf8(s@).len() as usize));
    #[verifier::truncate]
    (len as u32)
}

/// The value of an optional text, or `default` when there is none.
pub open spec fn or_default(o: Option<Seq<char>>, default: Seq<char>) -> Seq<char> {
    match o {
        Some(s) => s,
        None => default,
    }
}

/// A copy of a text.
pub fn text(s: &str) -> (r: String)
    ensures
        r@ == s@,
{
    String::from_str(s)
}

/// The text inside an option, or a copy of `default`.
pub fn unwrap_or_text(o: Option<String>, default: &str) -> (r: String)
    ensures
        r@ == or_default(opt_view(o), default@),
{
    match o {
        Some(s) => s,
        None => text(default),
    }
}

/// The steps that add the routes of a route set.
pub open spec fn route_parts(routes: Seq<Uri>) -> Seq<PartView> {
    routes.map_values(|u: Uri| PartView::Route(u))
}

/// The steps that add custom header fields.
pub open spec fn custom_parts(headers: Seq<TypedHeader>) -> Seq<PartView> {
    headers.map_values(|h: TypedHeader| PartView::Custom(h))
}

/// Appends a Route step for each URI, in order.
pub fn push_routes(parts: &mut Vec<RequestPart>, routes: Vec<Uri>)
    ensures
        final(parts)@.map_values(|p: RequestPart| p@) == old(parts)@.map_values(|p: RequestPart| p@)
            + route_parts(routes@),
{
    let mut rest = routes;
    let total: usize = rest.len();
    let ghost all = routes@;
    let ghost start = parts@.map_values(|p: RequestPart| p@);
    let mut k: usize = 0;
    while rest.len() > 0
        invariant
            k <= all.len(),
            all.len() == total,
            rest@ == all.subrange(k as int, all.len() as int),
            parts@.map_values(|p: RequestPart| p@) == start + route_parts(all.take(k as int)),
        decreases rest.len(),
    {
        let u = rest.remove(0);
        let ghost before = parts@;
        parts.push(RequestPart::Route(u));
        proof {
            assert(all.take(k + 1) =~= all.take(k as int).push(u));
            assert(route_parts(all.take(k + 1)) =~= route_parts(all.take(k as int)).push(PartView::Route(u)));
            assert(parts@.map_values(|p: RequestPart| p@) =~= before.map_values(|p: RequestPart| p@).push(PartView::Route(u)));
            assert(rest@ =~= all.subrange(k + 1, all.len() as int));
        }
        k = k + 1;
    }
    proof {
        assert(all.take(k as int) =~= all);
    }
}

/// Appends a Custom step for each header field, in order.
pub fn push_custom(parts: &mut Vec<RequestPart>, headers: Vec<TypedHeader>)
    ensures
        final(parts)@.map_values(|p: RequestPart| p@) == old(parts)@.map_values(|p: RequestPart| p@)
            + custom_parts(headers@),
{
    let mut rest = headers;
    let total: usize = rest.len();
    let ghost all = headers@;
    let ghost start = parts@.map_values(|p: RequestPart| p@);
    let mut k: usize = 0;
    while rest.len() > 0
        invariant
            k <= all.len(),
            all.len() == total,
            rest@ == all.subrange(k as int, all.len() as int),
            parts@.map_values(|p: RequestPart| p@) == start + custom_parts(all.take(k as int)),
        decreases rest.len(),
    {
        let h = rest.remove(0);
        let ghost before = parts@;
        parts.push(RequestPart::Custom(h));
        proof {
            assert(all.take(k + 1) =~= all.take(k as int).push(h));
            assert(custom_parts(all.take(k + 1)) =~= custom_parts(all.take(k as int)).push(PartView::Custom(h)));
            assert(parts@.map_values(|p: RequestPart| p@) =~= before.map_values(|p: RequestPart| p@).push(PartView::Custom(h)));
            assert(rest@ =~= all.subrange(k + 1, all.len() as int));
        }
        k = k + 1;
    }
    proof {
        assert(all.take(k as int) =~= all);
    }
}

/// Appends one step.
pub fn push_part(parts: &mut Vec<RequestPart>, p: RequestPart)
    ensures
        final(parts)@.map_values(|x: RequestPart| x@) == old(parts)@.map_values(|x: RequestPart| x@).push(p@),
{
    let ghost before = parts@;
    let ghost pv = p@;
    parts.push(p);
    assert(parts@.map_values(|x: RequestPart| x@) =~= before.map_values(|x: RequestPart| x@).push(pv));
}

/// The value an optional field takes: the one set, or a generated one of the
/// right shape.
pub open spec fn set_or_generated(set: Option<Seq<char>>, v: Seq<char>, generated: bool) -> bool {
    match set {
        Some(s) => v == s,
        None => generated,
    }
}

// ---------------------------------------------------------------------------
// INVITE

/// Builder for INVITE requests: From, To, Request-URI and local address are
/// needed; Call-ID, branch and From tag are generated when not given.
#[derive(Debug)]
pub struct InviteBuilder {
    pub from_uri: Option<String>,
    pub from_display_name: Option<String>,
    pub from_tag: Option<String>,
    pub to_uri: Option<String>,
    pub to_display_name: Option<String>,
    pub to_tag: Option<String>,
    pub request_uri: Option<String>,
    pub call_id: Option<String>,
    pub cseq: u32,
    /// The local transport address, as the text used in Via (`host:port`).
    pub local_address: Option<String>,
    pub branch: Option<String>,
    pub route_set: Vec<Uri>,
    pub contact: Option<String>,
    pub sdp_content: Option<String>,
    pub custom_headers: Vec<TypedHeader>,
    pub max_forwards: u8,
}

/// The plain value of an [`InviteBuilder`].
pub struct InviteBuilderView {
    pub from_uri: Option<Seq<char>>,
    pub from_display_name: Option<Seq<char>>,
    pub from_tag: Option<Seq<char>>,
    pub to_uri: Option<Seq<char>>,
    pub to_display_name: Option<Seq<char>>,
    pub to_tag: Option<Seq<char>>,
    pub request_uri: Option<Seq<char>>,
    pub call_id: Option<Seq<char>>,
    pub cseq: u32,
    pub local_address: Option<Seq<char>>,
    pub branch: Option<Seq<char>>,
    pub route_set: Seq<Uri>,
    pub contact: Option<Seq<char>>,
    pub sdp_content: Option<Seq<char>>,
    pub custom_headers: Seq<TypedHeader>,
    pub max_forwards: u8,
}

impl View for InviteBuilder {
    type V = InviteBuilderView;

    open spec fn view(&self) -> InviteBuilderView {
        InviteBuilderView {
            from_uri: opt_view(self.from_uri),
            from_display_name: opt_view(self.from_display_name),
            from_tag: opt_view(self.from_tag),
            to_uri: opt_view(self.to_uri),
            to_display_name: opt_view(self.to_display_name),
            to_tag: opt_view(self.to_tag),
            request_uri: opt_view(self.request_uri),
            call_id: opt_view(self.call_id),
            cseq: self.cseq,
            local_address: opt_view(self.local_address),
            branch: opt_view(self.branch),
            route_set: self.route_set@,
            contact: opt_view(self.contact),
            sdp_content: opt_view(self.sdp_content),
            custom_headers: self.custom_headers@,
            max_forwards: self.max_forwards,
        }
    }
}

/// The error an INVITE builder reports, if any: From, then To, then the local
/// address must be set, and then the Request-URI (the To URI unless one is
/// set) must parse.
pub open spec fn invite_build_error(b: InviteBuilderView) -> Option<BuildError> {
    if b.from_uri is None {
        Some(BuildError::FromUriRequired)
    } else if b.to_uri is None {
        Some(BuildError::ToUriRequired)
    } else if b.local_address is None {
        Some(BuildError::LocalAddressRequired)
    } else if !uri_parses(or_default(b.request_uri, b.to_uri.unwrap())) {
        Some(BuildError::InvalidRequestUri)
    } else {
        None
    }
}

/// The steps of an INVITE built from `b` with this Call-ID, branch and From tag.
pub open spec fn invite_parts(
    b: InviteBuilderView,
    call_id: Seq<char>,
    branch: Seq<char>,
    from_tag: Seq<char>,
) -> Seq<PartView> {
    seq![
        PartView::From {
            display_name: or_default(b.from_display_name, "User"@),
            uri: b.from_uri.unwrap(),
            tag: Some(from_tag),
        },
        PartView::To {
            display_name: or_default(b.to_display_name, "User"@),
            uri: b.to_uri.unwrap(),
            tag: b.to_tag,
        },
        PartView::CallId(call_id),
        PartView::CSeq(b.cseq),
        PartView::Via { host: b.local_address.unwrap(), transport: "UDP"@, branch },
        PartView::MaxForwards(b.max_forwards as u32),
    ] + (match b.contact {
        Some(c) => seq![PartView::Contact(c)],
        None => Seq::empty(),
    }) + route_parts(b.route_set) + (match b.sdp_content {
        Some(sdp) => seq![
            PartView::ContentType { media_type: "application"@, subtype: "sdp"@ },
            PartView::ContentLength(content_length(sdp)),
            PartView::Body(sdp),
        ],
        None => seq![PartView::ContentLength(0)],
    }) + custom_parts(b.custom_headers)
}

/// Whether `d` is the INVITE that `b` builds with these generated values.
pub open spec fn invite_draft_with(
    b: InviteBuilderView,
    d: DraftView,
    call_id: Seq<char>,
    branch: Seq<char>,
    from_tag: Seq<char>,
) -> bool {
    &&& set_or_generated(b.call_id, call_id, is_generated_id("call-"@, call_id))
    &&& set_or_generated(b.branch, branch, is_generated_branch(branch))
    &&& set_or_generated(b.from_tag, from_tag, is_generated_tag(from_tag))
    &&& d.method == MethodView::Invite
    &&& d.request_uri == or_default(b.request_uri, b.to_uri.unwrap())
    &&& d.parts == invite_parts(b, call_id, branch, from_tag)
}

impl InviteBuilder {
    /// A builder with nothing set, CSeq 1 and Max-Forwards 70.
    pub fn new() -> (r: Self)
        ensures
            r@ == (InviteBuilderView {
                from_uri: None,
                from_display_name: None,
                from_tag: None,
                to_uri: None,
                to_display_name: None,
                to_tag: None,
                request_uri: None,
                call_id: None,
                cseq: 1,
                local_address: None,
                branch: None,
                route_set: Seq::empty(),
                contact: None,
                sdp_content: None,
                custom_headers: Seq::empty(),
                max_forwards: 70,
            }),
    {
        InviteBuilder {
            from_uri: None,
            from_display_name: None,
            from_tag: None,
            to_uri: None,
            to_display_name: None,
            to_tag: None,
            request_uri: None,
            call_id: None,
            cseq: 1,
            local_address: None,
            branch: None,
            route_set: Vec::new(),
            contact: None,
            sdp_content: None,
            custom_headers: Vec::new(),
            max_forwards: 70,
        }
    }

    /// A builder for an INVITE inside a dialog (a re-INVITE): the dialog's
    /// Call-ID, tags and URIs, the To URI as Request-URI.
    pub fn from_dialog(
        call_id: &str,
        from_uri: &str,
        from_tag: &str,
        to_uri: &str,
        to_tag: &str,
        cseq: u32,
        local_address: &str,
    ) -> (r: Self)
        ensures
            r@ == (InviteBuilderView {
                from_uri: Some(from_uri@),
                from_display_name: None,
                from_tag: Some(from_tag@),
                to_uri: Some(to_uri@),
                to_display_name: None,
                to_tag: Some(to_tag@),
                request_uri: Some(to_uri@),
                call_id: Some(call_id@),
                cseq,
                local_address: Some(local_address@),
                branch: None,
                route_set: Seq::empty(),
                contact: None,
                sdp_content: None,
                custom_headers: Seq::empty(),
                max_forwards: 70,
            }),
    {
        InviteBuilder {
            from_uri: Some(text(from_uri)),
            from_display_name: None,
            from_tag: Some(text(from_tag)),
            to_uri: Some(text(to_uri)),
            to_display_name: None,
            to_tag: Some(text(to_tag)),
            request_uri: Some(text(to_uri)),
            call_id: Some(text(call_id)),
            cseq,
            local_address: Some(text(local_address)),
            branch: None,
            route_set: Vec::new(),
            contact: None,
            sdp_content: None,
            custom_headers: Vec::new(),
            max_forwards: 70,
        }
    }

    /// A builder with the whole dialog context: display names, Request-URI,
    /// route set and Contact as well.
    pub fn from_dialog_enhanced(
        call_id: &str,
        from_uri: &str,
        from_tag: &str,
        from_display_name: Option<String>,
        to_uri: &str,
        to_tag: &str,
        to_display_name: Option<String>,
        request_uri: &str,
        cseq: u32,
        local_address: &str,
        route_set: Vec<Uri>,
        contact: Option<String>,
    ) -> (r: Self)
        ensures
            r@ == (InviteBuilderView {
                from_uri: Some(from_uri@),
                from_display_name: opt_view(from_display_name),
                from_tag: Some(from_tag@),
                to_uri: Some(to_uri@),
                to_display_name: opt_view(to_display_name),
                to_tag: Some(to_tag@),
                request_uri: Some(request_uri@),
                call_id: Some(call_id@),
                cseq,
                local_address: Some(local_address@),
                branch: None,
                route_set: route_set@,
                contact: opt_view(contact),
                sdp_content: None,
                custom_headers: Seq::empty(),
                max_forwards: 70,
            }),
    {
        InviteBuilder {
            from_uri: Some(text(from_uri)),
            from_display_name,
            from_tag: Some(text(from_tag)),
            to_uri: Some(text(to_uri)),
            to_display_name,
            to_tag: Some(text(to_tag)),
            request_uri: Some(text(request_uri)),
            call_id: Some(text(call_id)),
            cseq,
            local_address: Some(text(local_address)),
            branch: None,
            route_set,
            contact,
            sdp_content: None,
            custom_headers: Vec::new(),
            max_forwards: 70,
        }
    }

    /// Sets From and To; the Request-URI becomes the To URI, and a From tag
    /// is generated when none is set.
    pub fn from_to(self, from: &str, to: &str) -> (r: Self)
        ensures
            r@.from_tag matches Some(t) && set_or_generated(self@.from_tag, t, is_generated_tag(t)),
            r@ == (InviteBuilderView {
                from_uri: Some(from@),
                to_uri: Some(to@),
                request_uri: Some(to@),
                from_tag: r@.from_tag,
                ..self@
            }),
    {
        let mut b = self;
        b.from_uri = Some(text(from));
        b.to_uri = Some(text(to));
        b.request_uri = Some(text(to));
        if b.from_tag.is_none() {
            b.from_tag = Some(generate_tag());
        }
        b
    }

    /// Sets From with a display name and a tag; a tag is generated when none
    /// is given.
    pub fn from_detailed(self, display_name: Option<&str>, uri: &str, tag: Option<&str>) -> (r: Self)
        ensures
            r@.from_tag matches Some(t) && match tag {
                Some(x) => t == x@,
                None => is_generated_tag(t),
            },
            r@ == (InviteBuilderView {
                from_uri: Some(uri@),
                from_display_name: match display_name {
                    Some(d) => Some(d@),
                    None => None,
                },
                from_tag: r@.from_tag,
                ..self@
            }),
    {
        let mut b = self;
        b.from_uri = Some(text(uri));
        b.from_display_name = match display_name {
            Some(d) => Some(text(d)),
            None => None,
        };
        b.from_tag = match tag {
            Some(t) => Some(text(t)),
            None => Some(generate_tag()),
        };
        b
    }

    /// Sets To with a display name and an optional tag; the Request-URI
    /// becomes the To URI when none is set.
    pub fn to_detailed(self, display_name: Option<&str>, uri: &str, tag: Option<&str>) -> (r: Self)
        ensures
            r@ == (InviteBuilderView {
                to_uri: Some(uri@),
                to_display_name: match display_name {
                    Some(d) => Some(d@),
                    None => None,
                },
                to_tag: match tag {
                    Some(t) => Some(t@),
                    None => None,
                },
                request_uri: match self@.request_uri {
                    Some(u) => Some(u),
                    None => Some(uri@),
                },
                ..self@
            }),
    {
        let mut b = self;
        b.to_uri = Some(text(uri));
        b.to_display_name = match display_name {
            Some(d) => Some(text(d)),
            None => None,
        };
        b.to_tag = match tag {
            Some(t) => Some(text(t)),
            None => None,
        };
        if b.request_uri.is_none() {
            b.request_uri = Some(text(uri));
        }
        b
    }

    /// Sets the Request-URI.
    pub fn request_uri(self, uri: &str) -> (r: Self)
        ensures
            r@ == (InviteBuilderView { request_uri: Some(uri@), ..self@ }),
    {
        let mut b = self;
        b.request_uri = Some(text(uri));
        b
    }

    /// Sets the local address used in Via.
    pub fn local_address(self, addr: &str) -> (r: Self)
        ensures
            r@ == (InviteBuilderView { local_address: Some(addr@), ..self@ }),
    {
        let mut b = self;
        b.local_address = Some(text(addr));
        b
    }

    /// Sets the Call-ID.
    pub fn call_id(self, call_id: &str) -> (r: Self)
        ensures
            r@ == (InviteBuilderView { call_id: Some(call_id@), ..self@ }),
    {
        let mut b = self;
        b.call_id = Some(text(call_id));
        b
    }

    /// Sets the CSeq number.
    pub fn cseq(self, cseq: u32) -> (r: Self)
        ensures
            r@ == (InviteBuilderView { cseq, ..self@ }),
    {
        let mut b = self;
        b.cseq = cseq;
        b
    }

    /// Sets an SDP body (with its Content-Type and Content-Length).
    pub fn with_sdp(self, sdp: &str) -> (r: Self)
        ensures
            r@ == (InviteBuilderView { sdp_content: Some(sdp@), ..self@ }),
    {
        let mut b = self;
        b.sdp_content = Some(text(sdp));
        b
    }

    /// Adds a route at the end of the route set.
    pub fn add_route(self, route: Uri) -> (r: Self)
        ensures
            r@ == (InviteBuilderView { route_set: self@.route_set.push(route), ..self@ }),
    {
        let mut b = self;
        b.route_set.push(route);
        b
    }

    /// Sets the Contact URI.
    pub fn contact(self, contact: &str) -> (r: Self)
        ensures
            r@ == (InviteBuilderView { contact: Some(contact@), ..self@ }),
    {
        let mut b = self;
        b.contact = Some(text(contact));
        b
    }

    /// Adds a custom header field.
    pub fn header(self, header: TypedHeader) -> (r: Self)
        ensures
            r@ == (InviteBuilderView { custom_headers: self@.custom_headers.push(header), ..self@ }),
    {
        let mut b = self;
        b.custom_headers.push(header);
        b
    }

    /// Sets Max-Forwards.
    pub fn max_forwards(self, max_forwards: u8) -> (r: Self)
        ensures
            r@ == (InviteBuilderView { max_forwards, ..self@ }),
    {
        let mut b = self;
        b.max_forwards = max_forwards;
        b
    }

    /// Builds the INVITE: fails when From, To or the local address is missing;
    /// otherwise generates what is missing of Call-ID, branch and From tag.
    pub fn build(self) -> (r: Result<RequestDraft, BuildError>)
        ensures
            invite_build_error(self@) matches Some(e) ==> r == Err::<RequestDraft, BuildError>(e),
            invite_build_error(self@) is None ==> (r matches Ok(d) && exists|c: Seq<char>, br: Seq<char>, t: Seq<char>|
                invite_draft_with(self@, d@, c, br, t)),
    {
        let ghost b = self@;
        let from_uri = match self.from_uri {
            Some(u) => u,
            None => return Err(BuildError::FromUriRequired),
        };
        let to_uri = match self.to_uri {
            Some(u) => u,
            None => return Err(BuildError::ToUriRequired),
        };
        let local = match self.local_address {
            Some(a) => a,
            None => return Err(BuildError::LocalAddressRequired),
        };
        let request_uri = match self.request_uri {
            Some(u) => u,
            None => to_uri.clone(),
        };
        if !uri_text_parses(request_uri.as_str()) {
            return Err(BuildError::InvalidRequestUri);
        }
        let call_id = match self.call_id {
            Some(c) => c,
            None => generate_id("call-"),
        };
        let branch = match self.branch {
            Some(x) => x,
            None => generate_branch(),
        };
        let from_tag = match self.from_tag {
            Some(t) => t,
            None => generate_tag(),
        };
        proof {
            reveal_strlit("call-");
        }
        let ghost cid = call_id@;
        let ghost br = branch@;
        let ghost ft = from_tag@;
        let mut parts: Vec<RequestPart> = Vec::new();
        push_part(&mut parts, RequestPart::From {
            display_name: unwrap_or_text(self.from_display_name, "User"),
            uri: from_uri,
            tag: Some(from_tag),
        });
        push_part(&mut parts, RequestPart::To {
            display_name: unwrap_or_text(self.to_display_name, "User"),
            uri: to_uri,
            tag: self.to_tag,
        });
        push_part(&mut parts, RequestPart::CallId(call_id));
        push_part(&mut parts, RequestPart::CSeq(self.cseq));
        push_part(&mut parts, RequestPart::Via { host: local, transport: text("UDP"), branch });
        push_part(&mut parts, RequestPart::MaxForwards(self.max_forwards as u32));
        let ghost head = parts@.map_values(|p: RequestPart| p@);
        match self.contact {
            Some(c) => push_part(&mut parts, RequestPart::Contact(c)),
            None => {},
        }
        let ghost with_contact = parts@.map_values(|p: RequestPart| p@);
        push_routes(&mut parts, self.route_set);
        let ghost with_routes = parts@.map_values(|p: RequestPart| p@);
        match self.sdp_content {
            Some(sdp) => {
                let len = byte_length(&sdp);
                push_part(&mut parts, RequestPart::ContentType {
                    media_type: text("application"),
                    subtype: text("sdp"),
                });
                push_part(&mut parts, RequestPart::ContentLength(len));
                push_part(&mut parts, RequestPart::Body(sdp));
            },
            None => push_part(&mut parts, RequestPart::ContentLength(0)),
        }
        let ghost with_body = parts@.map_values(|p: RequestPart| p@);
        push_custom(&mut parts, self.custom_headers);
        let d = RequestDraft { method: Method::Invite, request_uri, parts };
        proof {
            let first = seq![
                PartView::From {
                    display_name: or_default(b.from_display_name, "User"@),
                    uri: b.from_uri.unwrap(),
                    tag: Some(ft),
                },
                PartView::To {
                    display_name: or_default(b.to_display_name, "User"@),
                    uri: b.to_uri.unwrap(),
                    tag: b.to_tag,
                },
                PartView::CallId(cid),
                PartView::CSeq(b.cseq),
                PartView::Via { host: b.local_address.unwrap(), transport: "UDP"@, branch: br },
                PartView::MaxForwards(b.max_forwards as u32),
            ];
            assert(head =~= first);
            assert(with_contact =~= first + match b.contact {
                Some(c) => seq![PartView::Contact(c)],
                None => Seq::<PartView>::empty(),
            });
            assert(d@.parts =~= invite_parts(b, cid, br, ft));
            assert(invite_draft_with(b, d@, cid, br, ft));
        }
        Ok(d)
    }
}

/// The body steps of a request with an optional SDP body: Content-Type
/// `application/sdp`, Content-Length and the body; Content-Length 0 without one.
pub open spec fn sdp_parts(sdp: Option<Seq<char>>) -> Seq<PartView> {
    match sdp {
        Some(s) => seq![
            PartView::ContentType { media_type: "application"@, subtype: "sdp"@ },
            PartView::ContentLength(content_length(s)),
            PartView::Body(s),
        ],
        None => seq![PartView::ContentLength(0)],
    }
}

/// The body steps of an UPDATE (RFC 3311) with an optional new SDP offer.
pub fn sdp_body_parts(sdp: Option<String>) -> (parts: Vec<RequestPart>)
    ensures
        parts@.map_values(|p: RequestPart| p@) == sdp_parts(opt_view(sdp)),
{
    let mut parts: Vec<RequestPart> = Vec::new();
    let ghost v = opt_view(sdp);
    match sdp {
        Some(s) => {
            let len = byte_length(&s);
            push_part(&mut parts, RequestPart::ContentType { media_type: text("application"), subtype: text("sdp") });
            push_part(&mut parts, RequestPart::ContentLength(len));
            push_part(&mut parts, RequestPart::Body(s));
        },
        None => push_part(&mut parts, RequestPart::ContentLength(0)),
    }
    proof {
        assert(parts@.map_values(|p: RequestPart| p@) =~= sdp_parts(v));
    }
    parts
}

// ---------------------------------------------------------------------------
// BYE

/// Builder for BYE requests inside a dialog: Call-ID, both URIs, both tags and
/// the local address are needed; a fresh branch is generated.
#[derive(Debug)]
pub struct ByeBuilder {
    pub call_id: Option<String>,
    pub from_uri: Option<String>,
    pub from_tag: Option<String>,
    pub to_uri: Option<String>,
    pub to_tag: Option<String>,
    pub request_uri: Option<String>,
    pub cseq: u32,
    pub local_address: Option<String>,
    pub route_set: Vec<Uri>,
    pub custom_headers: Vec<TypedHeader>,
    pub max_forwards: u8,
}

/// The plain value of a [`ByeBuilder`].
pub struct ByeBuilderView {
    pub call_id: Option<Seq<char>>,
    pub from_uri: Option<Seq<char>>,
    pub from_tag: Option<Seq<char>>,
    pub to_uri: Option<Seq<char>>,
    pub to_tag: Option<Seq<char>>,
    pub request_uri: Option<Seq<char>>,
    pub cseq: u32,
    pub local_address: Option<Seq<char>>,
    pub route_set: Seq<Uri>,
    pub custom_headers: Seq<TypedHeader>,
    pub max_forwards: u8,
}

impl View for ByeBuilder {
    type V = ByeBuilderView;

    open spec fn view(&self) -> ByeBuilderView {
        ByeBuilderView {
            call_id: opt_view(self.call_id),
            from_uri: opt_view(self.from_uri),
            from_tag: opt_view(self.from_tag),
            to_uri: opt_view(self.to_uri),
            to_tag: opt_view(self.to_tag),
            request_uri: opt_view(self.request_uri),
            cseq: self.cseq,
            local_address: opt_view(self.local_address),
            route_set: self.route_set@,
            custom_headers: self.custom_headers@,
            max_forwards: self.max_forwards,
        }
    }
}

/// The error of an in-dialog build, checked in this order: Call-ID, From
/// URI, From tag, To URI, To tag, local address.
pub open spec fn dialog_build_error(
    call_id: Option<Seq<char>>,
    from_uri: Option<Seq<char>>,
    from_tag: Option<Seq<char>>,
    to_uri: Option<Seq<char>>,
    to_tag: Option<Seq<char>>,
    local_address: Option<Seq<char>>,
) -> Option<BuildError> {
    if call_id is None {
        Some(BuildError::CallIdRequired)
    } else if from_uri is None {
        Some(BuildError::FromUriRequired)
    } else if from_tag is None {
        Some(BuildError::FromTagRequired)
    } else if to_uri is None {
        Some(BuildError::ToUriRequired)
    } else if to_tag is None {
        Some(BuildError::ToTagRequired)
    } else if local_address is None {
        Some(BuildError::LocalAddressRequired)
    } else {
        None
    }
}

/// The error of a BYE build: a missing field (see [`dialog_build_error`]),
/// then a Request-URI (the To URI unless one is set) that does not parse.
pub open spec fn bye_build_error(b: ByeBuilderView) -> Option<BuildError> {
    match dialog_build_error(b.call_id, b.from_uri, b.from_tag, b.to_uri, b.to_tag, b.local_address) {
        Some(e) => Some(e),
        None => if !uri_parses(or_default(b.request_uri, b.to_uri.unwrap())) {
            Some(BuildError::InvalidRequestUri)
        } else {
            None
        },
    }
}

/// The first steps of an in-dialog request: From and To with display name
/// `User` and their tags, Call-ID, CSeq, a UDP Via and Max-Forwards.
pub open spec fn dialog_head(
    call_id: Seq<char>,
    from_uri: Seq<char>,
    from_tag: Seq<char>,
    to_uri: Seq<char>,
    to_tag: Seq<char>,
    cseq: u32,
    host: Seq<char>,
    branch: Seq<char>,
    max_forwards: u8,
) -> Seq<PartView> {
    seq![
        PartView::From { display_name: "User"@, uri: from_uri, tag: Some(from_tag) },
        PartView::To { display_name: "User"@, uri: to_uri, tag: Some(to_tag) },
        PartView::CallId(call_id),
        PartView::CSeq(cseq),
        PartView::Via { host, transport: "UDP"@, branch },
        PartView::MaxForwards(max_forwards as u32),
    ]
}

/// Appends the first steps of an in-dialog request.
fn push_dialog_head(
    parts: &mut Vec<RequestPart>,
    call_id: String,
    from_uri: String,
    from_tag: String,
    to_uri: String,
    to_tag: String,
    cseq: u32,
    host: String,
    branch: String,
    max_forwards: u8,
)
    ensures
        final(parts)@.map_values(|p: RequestPart| p@) == old(parts)@.map_values(|p: RequestPart| p@)
            + dialog_head(call_id@, from_uri@, from_tag@, to_uri@, to_tag@, cseq, host@, branch@, max_forwards),
{
    let ghost start = parts@.map_values(|p: RequestPart| p@);
    let ghost head = dialog_head(call_id@, from_uri@, from_tag@, to_uri@, to_tag@, cseq, host@, branch@, max_forwards);
    proof {
        reveal_strlit("User");
        reveal_strlit("UDP");
    }
    push_part(parts, RequestPart::From { display_name: text("User"), uri: from_uri, tag: Some(from_tag) });
    push_part(parts, RequestPart::To { display_name: text("User"), uri: to_uri, tag: Some(to_tag) });
    push_part(parts, RequestPart::CallId(call_id));
    push_part(parts, RequestPart::CSeq(cseq));
    push_part(parts, RequestPart::Via { host, transport: text("UDP"), branch });
    push_part(parts, RequestPart::MaxForwards(max_forwards as u32));
    assert(parts@.map_values(|p: RequestPart| p@) =~= start + head);
}

/// Whether `d` is the BYE that `b` builds with this generated branch.
pub open spec fn bye_draft_with(b: ByeBuilderView, d: DraftView, branch: Seq<char>) -> bool {
    &&& is_generated_branch(branch)
    &&& d.method == MethodView::Bye
    &&& d.request_uri == or_default(b.request_uri, b.to_uri.unwrap())
    &&& d.parts == dialog_head(
        b.call_id.unwrap(),
        b.from_uri.unwrap(),
        b.from_tag.unwrap(),
        b.to_uri.unwrap(),
        b.to_tag.unwrap(),
        b.cseq,
        b.local_address.unwrap(),
        branch,
        b.max_forwards,
    ) + seq![PartView::ContentLength(0)] + route_parts(b.route_set) + custom_parts(b.custom_headers)
}

impl ByeBuilder {
    /// A builder with nothing set, CSeq 1 and Max-Forwards 70.
    pub fn new() -> (r: Self)
        ensures
            r@ == (ByeBuilderView {
                call_id: None,
                from_uri: None,
                from_tag: None,
                to_uri: None,
                to_tag: None,
                request_uri: None,
                cseq: 1,
                local_address: None,
                route_set: Seq::empty(),
                custom_headers: Seq::empty(),
                max_forwards: 70,
            }),
    {
        ByeBuilder {
            call_id: None,
            from_uri: None,
            from_tag: None,
            to_uri: None,
            to_tag: None,
            request_uri: None,
            cseq: 1,
            local_address: None,
            route_set: Vec::new(),
            custom_headers: Vec::new(),
            max_forwards: 70,
        }
    }

    /// Sets the dialog: Call-ID, URIs and tags; the To URI becomes the
    /// Request-URI.
    pub fn from_dialog(self, call_id: &str, from_uri: &str, from_tag: &str, to_uri: &str, to_tag: &str) -> (r: Self)
        ensures
            r@ == (ByeBuilderView {
                call_id: Some(call_id@),
                from_uri: Some(from_uri@),
                from_tag: Some(from_tag@),
                to_uri: Some(to_uri@),
                to_tag: Some(to_tag@),
                request_uri: Some(to_uri@),
                ..self@
            }),
    {
        let mut b = self;
        b.call_id = Some(text(call_id));
        b.from_uri = Some(text(from_uri));
        b.from_tag = Some(text(from_tag));
        b.to_uri = Some(text(to_uri));
        b.to_tag = Some(text(to_tag));
        b.request_uri = Some(text(to_uri));
        b
    }

    /// A builder with the whole dialog context, route set included.
    pub fn from_dialog_enhanced(
        call_id: &str,
        from_uri: &str,
        from_tag: &str,
        to_uri: &str,
        to_tag: &str,
        request_uri: &str,
        cseq: u32,
        local_address: &str,
        route_set: Vec<Uri>,
    ) -> (r: Self)
        ensures
            r@ == (ByeBuilderView {
                call_id: Some(call_id@),
                from_uri: Some(from_uri@),
                from_tag: Some(from_tag@),
                to_uri: Some(to_uri@),
                to_tag: Some(to_tag@),
                request_uri: Some(request_uri@),
                cseq,
                local_address: Some(local_address@),
                route_set: route_set@,
                custom_headers: Seq::empty(),
                max_forwards: 70,
            }),
    {
        ByeBuilder {
            call_id: Some(text(call_id)),
            from_uri: Some(text(from_uri)),
            from_tag: Some(text(from_tag)),
            to_uri: Some(text(to_uri)),
            to_tag: Some(text(to_tag)),
            request_uri: Some(text(request_uri)),
            cseq,
            local_address: Some(text(local_address)),
            route_set,
            custom_headers: Vec::new(),
            max_forwards: 70,
        }
    }

    /// Sets the Request-URI.
    pub fn request_uri(self, uri: &str) -> (r: Self)
        ensures
            r@ == (ByeBuilderView { request_uri: Some(uri@), ..self@ }),
    {
        let mut b = self;
        b.request_uri = Some(text(uri));
        b
    }

    /// Sets the local address used in Via.
    pub fn local_address(self, addr: &str) -> (r: Self)
        ensures
            r@ == (ByeBuilderView { local_address: Some(addr@), ..self@ }),
    {
        let mut b = self;
        b.local_address = Some(text(addr));
        b
    }

    /// Sets the CSeq number.
    pub fn cseq(self, cseq: u32) -> (r: Self)
        ensures
            r@ == (ByeBuilderView { cseq, ..self@ }),
    {
        let mut b = self;
        b.cseq = cseq;
        b
    }

    /// Adds a route at the end of the route set.
    pub fn add_route(self, route: Uri) -> (r: Self)
        ensures
            r@ == (ByeBuilderView { route_set: self@.route_set.push(route), ..self@ }),
    {
        let mut b = self;
        b.route_set.push(route);
        b
    }

    /// Adds a custom header field.
    pub fn header(self, header: TypedHeader) -> (r: Self)
        ensures
            r@ == (ByeBuilderView { custom_headers: self@.custom_headers.push(header), ..self@ }),
    {
        let mut b = self;
        b.custom_headers.push(header);
        b
    }

    /// Builds the BYE: fails when a required field is missing or the
    /// Request-URI does not parse.
    pub fn build(self) -> (r: Result<RequestDraft, BuildError>)
        ensures
            bye_build_error(self@) matches Some(e) ==> r == Err::<RequestDraft, BuildError>(e),
            bye_build_error(self@) is None ==> (r matches Ok(d) && exists|br: Seq<char>| bye_draft_with(self@, d@, br)),
    {
        let ghost b = self@;
        let call_id = match self.call_id { Some(x) => x, None => return Err(BuildError::CallIdRequired) };
        let from_uri = match self.from_uri { Some(x) => x, None => return Err(BuildError::FromUriRequired) };
        let from_tag = match self.from_tag { Some(x) => x, None => return Err(BuildError::FromTagRequired) };
        let to_uri = match self.to_uri { Some(x) => x, None => return Err(BuildError::ToUriRequired) };
        let to_tag = match self.to_tag { Some(x) => x, None => return Err(BuildError::ToTagRequired) };
        let request_uri = match self.request_uri { Some(x) => x, None => to_uri.clone() };
        let local = match self.local_address { Some(x) => x, None => return Err(BuildError::LocalAddressRequired) };
        if !uri_text_parses(request_uri.as_str()) {
            return Err(BuildError::InvalidRequestUri);
        }
        let branch = generate_branch();
        let ghost br = branch@;
        let mut parts: Vec<RequestPart> = Vec::new();
        push_dialog_head(&mut parts, call_id, from_uri, from_tag, to_uri, to_tag, self.cseq, local, branch, self.max_forwards);
        push_part(&mut parts, RequestPart::ContentLength(0));
        push_routes(&mut parts, self.route_set);
        push_custom(&mut parts, self.custom_headers);
        let d = RequestDraft { method: Method::Bye, request_uri, parts };
        proof {
            assert(d@.parts =~= dialog_head(
                b.call_id.unwrap(),
                b.from_uri.unwrap(),
                b.from_tag.unwrap(),
                b.to_uri.unwrap(),
                b.to_tag.unwrap(),
                b.cseq,
                b.local_address.unwrap(),
                br,
                b.max_forwards,
            ) + seq![PartView::ContentLength(0)] + route_parts(b.route_set) + custom_parts(b.custom_headers));
            assert(bye_draft_with(b, d@, br));
        }
        Ok(d)
    }
}

// ---------------------------------------------------------------------------
// REGISTER

/// Builder for REGISTER requests: registrar, user and local address are
/// needed; Call-ID, From tag and branch are generated, the Contact defaults
/// to `sip:user@` and the local address.
#[derive(Debug)]
pub struct RegisterBuilder {
    pub registrar_uri: Option<String>,
    pub from_uri: Option<String>,
    pub from_display_name: Option<String>,
    pub contact_uri: Option<String>,
    pub local_address: Option<String>,
    pub expires: Option<u32>,
    pub call_id: Option<String>,
    pub cseq: u32,
    pub custom_headers: Vec<TypedHeader>,
    pub max_forwards: u8,
}

/// The plain value of a [`RegisterBuilder`].
pub struct RegisterBuilderView {
    pub registrar_uri: Option<Seq<char>>,
    pub from_uri: Option<Seq<char>>,
    pub from_display_name: Option<Seq<char>>,
    pub contact_uri: Option<Seq<char>>,
    pub local_address: Option<Seq<char>>,
    pub expires: Option<u32>,
    pub call_id: Option<Seq<char>>,
    pub cseq: u32,
    pub custom_headers: Seq<TypedHeader>,
    pub max_forwards: u8,
}

impl View for RegisterBuilder {
    type V = RegisterBuilderView;

    open spec fn view(&self) -> RegisterBuilderView {
        RegisterBuilderView {
            registrar_uri: opt_view(self.registrar_uri),
            from_uri: opt_view(self.from_uri),
            from_display_name: opt_view(self.from_display_name),
            contact_uri: opt_view(self.contact_uri),
            local_address: opt_view(self.local_address),
            expires: self.expires,
            call_id: opt_view(self.call_id),
            cseq: self.cseq,
            custom_headers: self.custom_headers@,
            max_forwards: self.max_forwards,
        }
    }
}

/// The error a REGISTER builder reports, if any: registrar, From and local
/// address must be set, and the registrar URI must parse.
pub open spec fn register_build_error(b: RegisterBuilderView) -> Option<BuildError> {
    if b.registrar_uri is None {
        Some(BuildError::RegistrarUriRequired)
    } else if b.from_uri is None {
        Some(BuildError::FromUriRequired)
    } else if b.local_address is None {
        Some(BuildError::LocalAddressRequired)
    } else if !uri_parses(b.registrar_uri.unwrap()) {
        Some(BuildError::InvalidRequestUri)
    } else {
        None
    }
}

/// Whether `d` is the REGISTER that `b` builds with these generated values.
pub open spec fn register_draft_with(
    b: RegisterBuilderView,
    d: DraftView,
    call_id: Seq<char>,
    from_tag: Seq<char>,
    branch: Seq<char>,
) -> bool {
    let registrar = b.registrar_uri.unwrap();
    let local = b.local_address.unwrap();
    &&& set_or_generated(b.call_id, call_id, is_generated_id("reg-"@, call_id))
    &&& is_generated_tag(from_tag)
    &&& is_generated_branch(branch)
    &&& d.method == MethodView::Register
    &&& d.request_uri == registrar
    &&& d.parts == seq![
        PartView::From {
            display_name: or_default(b.from_display_name, "User"@),
            uri: b.from_uri.unwrap(),
            tag: Some(from_tag),
        },
        PartView::To { display_name: Seq::empty(), uri: registrar, tag: None },
        PartView::CallId(call_id),
        PartView::CSeq(b.cseq),
        PartView::Via { host: local, transport: "UDP"@, branch },
        PartView::MaxForwards(b.max_forwards as u32),
        PartView::Contact(or_default(b.contact_uri, "sip:user@"@ + local)),
        PartView::ContentLength(0),
    ] + (match b.expires {
        Some(e) => seq![PartView::Expires(e)],
        None => Seq::empty(),
    }) + custom_parts(b.custom_headers)
}

impl RegisterBuilder {
    /// A builder with nothing set, CSeq 1 and Max-Forwards 70.
    pub fn new() -> (r: Self)
        ensures
            r@ == (RegisterBuilderView {
                registrar_uri: None,
                from_uri: None,
                from_display_name: None,
                contact_uri: None,
                local_address: None,
                expires: None,
                call_id: None,
                cseq: 1,
                custom_headers: Seq::empty(),
                max_forwards: 70,
            }),
    {
        RegisterBuilder {
            registrar_uri: None,
            from_uri: None,
            from_display_name: None,
            contact_uri: None,
            local_address: None,
            expires: None,
            call_id: None,
            cseq: 1,
            custom_headers: Vec::new(),
            max_forwards: 70,
        }
    }

    /// Sets the registrar URI (Request-URI and To).
    pub fn registrar(self, uri: &str) -> (r: Self)
        ensures
            r@ == (RegisterBuilderView { registrar_uri: Some(uri@), ..self@ }),
    {
        let mut b = self;
        b.registrar_uri = Some(text(uri));
        b
    }

    /// Sets the user (From URI and display name).
    pub fn user_info(self, uri: &str, display_name: &str) -> (r: Self)
        ensures
            r@ == (RegisterBuilderView {
                from_uri: Some(uri@),
                from_display_name: Some(display_name@),
                ..self@
            }),
    {
        let mut b = self;
        b.from_uri = Some(text(uri));
        b.from_display_name = Some(text(display_name));
        b
    }

    /// Sets the Contact URI.
    pub fn contact(self, uri: &str) -> (r: Self)
        ensures
            r@ == (RegisterBuilderView { contact_uri: Some(uri@), ..self@ }),
    {
        let mut b = self;
        b.contact_uri = Some(text(uri));
        b
    }

    /// Sets the local address.
    pub fn local_address(self, addr: &str) -> (r: Self)
        ensures
            r@ == (RegisterBuilderView { local_address: Some(addr@), ..self@ }),
    {
        let mut b = self;
        b.local_address = Some(text(addr));
        b
    }

    /// Sets the registration lifetime in seconds.
    pub fn expires(self, seconds: u32) -> (r: Self)
        ensures
            r@ == (RegisterBuilderView { expires: Some(seconds), ..self@ }),
    {
        let mut b = self;
        b.expires = Some(seconds);
        b
    }

    /// Sets the Call-ID.
    pub fn call_id(self, call_id: &str) -> (r: Self)
        ensures
            r@ == (RegisterBuilderView { call_id: Some(call_id@), ..self@ }),
    {
        let mut b = self;
        b.call_id = Some(text(call_id));
        b
    }

    /// Sets the CSeq number.
    pub fn cseq(self, cseq: u32) -> (r: Self)
        ensures
            r@ == (RegisterBuilderView { cseq, ..self@ }),
    {
        let mut b = self;
        b.cseq = cseq;
        b
    }

    /// Adds a custom header field.
    pub fn header(self, header: TypedHeader) -> (r: Self)
        ensures
            r@ == (RegisterBuilderView { custom_headers: self@.custom_headers.push(header), ..self@ }),
    {
        let mut b = self;
        b.custom_headers.push(header);
        b
    }

    /// Builds the REGISTER.
    pub fn build(self) -> (r: Result<RequestDraft, BuildError>)
        ensures
            register_build_error(self@) matches Some(e) ==> r == Err::<RequestDraft, BuildError>(e),
            register_build_error(self@) is None ==> (r matches Ok(d) && exists|c: Seq<char>, t: Seq<char>, br: Seq<char>|
                register_draft_with(self@, d@, c, t, br)),
    {
        let ghost b = self@;
        let registrar = match self.registrar_uri { Some(x) => x, None => return Err(BuildError::RegistrarUriRequired) };
        let from_uri = match self.from_uri { Some(x) => x, None => return Err(BuildError::FromUriRequired) };
        let local = match self.local_address { Some(x) => x, None => return Err(BuildError::LocalAddressRequired) };
        if !uri_text_parses(registrar.as_str()) {
            return Err(BuildError::InvalidRequestUri);
        }
        let call_id = match self.call_id { Some(c) => c, None => generate_id("reg-") };
        let from_tag = generate_tag();
        let branch = generate_branch();
        let contact = match self.contact_uri {
            Some(c) => c,
            None => text("sip:user@").concat(local.as_str()),
        };
        proof {
            reveal_strlit("reg-");
            reveal_strlit("User");
            reveal_strlit("UDP");
            reveal_strlit("");
        }
        let ghost cid = call_id@;
        let ghost ft = from_tag@;
        let ghost br = branch@;
        let request_uri = registrar.clone();
        let mut parts: Vec<RequestPart> = Vec::new();
        push_part(&mut parts, RequestPart::From {
            display_name: unwrap_or_text(self.from_display_name, "User"),
            uri: from_uri,
            tag: Some(from_tag),
        });
        push_part(&mut parts, RequestPart::To { display_name: text(""), uri: registrar, tag: None });
        push_part(&mut parts, RequestPart::CallId(call_id));
        push_part(&mut parts, RequestPart::CSeq(self.cseq));
        push_part(&mut parts, RequestPart::Via { host: local, transport: text("UDP"), branch });
        push_part(&mut parts, RequestPart::MaxForwards(self.max_forwards as u32));
        push_part(&mut parts, RequestPart::Contact(contact));
        push_part(&mut parts, RequestPart::ContentLength(0));
        match self.expires {
            Some(e) => push_part(&mut parts, RequestPart::Expires(e)),
            None => {},
        }
        push_custom(&mut parts, self.custom_headers);
        let d = RequestDraft { method: Method::Register, request_uri, parts };
        proof {
            assert(""@ =~= Seq::<char>::empty());
            assert(d@.parts =~= seq![
                PartView::From {
                    display_name: or_default(b.from_display_name, "User"@),
                    uri: b.from_uri.unwrap(),
                    tag: Some(ft),
                },
                PartView::To { display_name: Seq::empty(), uri: b.registrar_uri.unwrap(), tag: None },
                PartView::CallId(cid),
                PartView::CSeq(b.cseq),
                PartView::Via { host: b.local_address.unwrap(), transport: "UDP"@, branch: br },
                PartView::MaxForwards(b.max_forwards as u32),
                PartView::Contact(or_default(b.contact_uri, "sip:user@"@ + b.local_address.unwrap())),
                PartView::ContentLength(0),
            ] + (match b.expires {
                Some(e) => seq![PartView::Expires(e)],
                None => Seq::<PartView>::empty(),
            }) + custom_parts(b.custom_headers));
            assert(register_draft_with(b, d@, cid, ft, br));
        }
        Ok(d)
    }
}

// ---------------------------------------------------------------------------
// Other requests inside a dialog

/// The positions of the slashes of a text, in order.
pub open spec fn slash_positions(s: Seq<char>) -> Seq<int>
    decreases s.len(),
{
    if s.len() == 0 {
        Seq::empty()
    } else if s.last() == '/' {
        slash_positions(s.drop_last()).push(s.len() - 1)
    } else {
        slash_positions(s.drop_last())
    }
}

/// A media type `type/subtype` split at its only slash; none when the text
/// has no slash or more than one.
pub open spec fn media_type_split(s: Seq<char>) -> Option<(Seq<char>, Seq<char>)> {
    let p = slash_positions(s);
    if p.len() == 1 {
        Some((s.subrange(0, p[0]), s.subrange(p[0] + 1, s.len() as int)))
    } else {
        None
    }
}

/// Splits a media type at its only slash.
pub fn split_media_type(s: &str) -> (r: Option<(String, String)>)
    ensures
        match r {
            Some((a, b)) => media_type_split(s@) == Some((a@, b@)),
            None => media_type_split(s@) is None,
        },
{
    let n = s.unicode_len();
    let mut count: usize = 0;
    let mut first: usize = 0;
    let mut i: usize = 0;
    while i < n
        invariant
            i <= n == s@.len(),
            count as int == slash_positions(s@.subrange(0, i as int)).len(),
            count <= i,
            count >= 1 ==> first as int == slash_positions(s@.subrange(0, i as int))[0] && first < i,
        decreases n - i,
    {
        assert(s@.subrange(0, i + 1).drop_last() =~= s@.subrange(0, i as int));
        if s.get_char(i) == '/' {
            if count == 0 {
                first = i;
            }
            count = count + 1;
        }
        i = i + 1;
    }
    assert(s@.subrange(0, n as int) =~= s@);
    if count == 1 {
        Some((text(s.substring_char(0, first)), text(s.substring_char(first + 1, n))))
    } else {
        None
    }
}

/// Builder for other requests inside a dialog (REFER, UPDATE, INFO, NOTIFY,
/// MESSAGE, ...): Call-ID, both URIs, both tags and the local address are
/// needed; a fresh branch is generated.
#[derive(Debug)]
pub struct InDialogRequestBuilder {
    pub method: Method,
    pub call_id: Option<String>,
    pub from_uri: Option<String>,
    pub from_tag: Option<String>,
    pub to_uri: Option<String>,
    pub to_tag: Option<String>,
    pub request_uri: Option<String>,
    pub cseq: u32,
    pub local_address: Option<String>,
    pub route_set: Vec<Uri>,
    pub body: Option<String>,
    pub content_type: Option<String>,
    /// The Event of a NOTIFY.
    pub event_type: Option<String>,
    /// The Subscription-State of a NOTIFY (RFC 6665), as text.
    pub subscription_state: Option<String>,
    pub custom_headers: Vec<TypedHeader>,
    pub max_forwards: u8,
}

/// The plain value of an [`InDialogRequestBuilder`].
pub struct InDialogView {
    pub method: MethodView,
    pub call_id: Option<Seq<char>>,
    pub from_uri: Option<Seq<char>>,
    pub from_tag: Option<Seq<char>>,
    pub to_uri: Option<Seq<char>>,
    pub to_tag: Option<Seq<char>>,
    pub request_uri: Option<Seq<char>>,
    pub cseq: u32,
    pub local_address: Option<Seq<char>>,
    pub route_set: Seq<Uri>,
    pub body: Option<Seq<char>>,
    pub content_type: Option<Seq<char>>,
    pub event_type: Option<Seq<char>>,
    pub subscription_state: Option<Seq<char>>,
    pub custom_headers: Seq<TypedHeader>,
    pub max_forwards: u8,
}

impl View for InDialogRequestBuilder {
    type V = InDialogView;

    open spec fn view(&self) -> InDialogView {
        InDialogView {
            method: self.method@,
            call_id: opt_view(self.call_id),
            from_uri: opt_view(self.from_uri),
            from_tag: opt_view(self.from_tag),
            to_uri: opt_view(self.to_uri),
            to_tag: opt_view(self.to_tag),
            request_uri: opt_view(self.request_uri),
            cseq: self.cseq,
            local_address: opt_view(self.local_address),
            route_set: self.route_set@,
            body: opt_view(self.body),
            content_type: opt_view(self.content_type),
            event_type: opt_view(self.event_type),
            subscription_state: opt_view(self.subscription_state),
            custom_headers: self.custom_headers@,
            max_forwards: self.max_forwards,
        }
    }
}

/// The empty in-dialog builder of a method.
pub open spec fn in_dialog_empty(m: MethodView) -> InDialogView {
    InDialogView {
        method: m,
        call_id: None,
        from_uri: None,
        from_tag: None,
        to_uri: None,
        to_tag: None,
        request_uri: None,
        cseq: 1,
        local_address: None,
        route_set: Seq::empty(),
        body: None,
        content_type: None,
        event_type: None,
        subscription_state: None,
        custom_headers: Seq::empty(),
        max_forwards: 70,
    }
}

/// The body steps of an in-dialog request: a Content-Type when one is set and
/// splits at one slash, then Content-Length and the body; Content-Length 0
/// without a body.
pub open spec fn in_dialog_body_parts(body: Option<Seq<char>>, content_type: Option<Seq<char>>) -> Seq<PartView> {
    match body {
        Some(text) => (match content_type {
            Some(ct) => match media_type_split(ct) {
                Some((a, b)) => seq![PartView::ContentType { media_type: a, subtype: b }],
                None => Seq::empty(),
            },
            None => Seq::empty(),
        }) + seq![PartView::ContentLength(content_length(text)), PartView::Body(text)],
        None => seq![PartView::ContentLength(0)],
    }
}

/// The error of an in-dialog build: a missing field (see
/// [`dialog_build_error`]), then a Request-URI (the To URI unless one is set)
/// that does not parse, then a Subscription-State that does not parse.
pub open spec fn in_dialog_build_error(b: InDialogView) -> Option<BuildError> {
    match dialog_build_error(b.call_id, b.from_uri, b.from_tag, b.to_uri, b.to_tag, b.local_address) {
        Some(e) => Some(e),
        None => if !uri_parses(or_default(b.request_uri, b.to_uri.unwrap())) {
            Some(BuildError::InvalidRequestUri)
        } else if b.subscription_state matches Some(st) && !subscription_state_parses(st) {
            Some(BuildError::InvalidSubscriptionState)
        } else {
            None
        },
    }
}

/// Whether `d` is the request that `b` builds with this generated branch.
pub open spec fn in_dialog_draft_with(b: InDialogView, d: DraftView, branch: Seq<char>) -> bool {
    &&& is_generated_branch(branch)
    &&& d.method == b.method
    &&& d.request_uri == or_default(b.request_uri, b.to_uri.unwrap())
    &&& d.parts == dialog_head(
        b.call_id.unwrap(),
        b.from_uri.unwrap(),
        b.from_tag.unwrap(),
        b.to_uri.unwrap(),
        b.to_tag.unwrap(),
        b.cseq,
        b.local_address.unwrap(),
        branch,
        b.max_forwards,
    ) + (match b.event_type {
        Some(e) => seq![PartView::Event(e)],
        None => Seq::empty(),
    }) + (match b.subscription_state {
        Some(st) => seq![PartView::SubscriptionState(st)],
        None => Seq::empty(),
    }) + route_parts(b.route_set) + in_dialog_body_parts(b.body, b.content_type) + custom_parts(
        b.custom_headers,
    )
}

impl InDialogRequestBuilder {
    /// A builder for `method` with nothing set, CSeq 1 and Max-Forwards 70.
    pub fn new(method: Method) -> (r: Self)
        ensures
            r@ == in_dialog_empty(method@),
    {
        InDialogRequestBuilder {
            method,
            call_id: None,
            from_uri: None,
            from_tag: None,
            to_uri: None,
            to_tag: None,
            request_uri: None,
            cseq: 1,
            local_address: None,
            route_set: Vec::new(),
            body: None,
            content_type: None,
            event_type: None,
            subscription_state: None,
            custom_headers: Vec::new(),
            max_forwards: 70,
        }
    }

    /// Sets the dialog; the To URI becomes the Request-URI.
    pub fn from_dialog(
        self,
        call_id: &str,
        from_uri: &str,
        from_tag: &str,
        to_uri: &str,
        to_tag: &str,
        cseq: u32,
        local_address: &str,
    ) -> (r: Self)
        ensures
            r@ == (InDialogView {
                call_id: Some(call_id@),
                from_uri: Some(from_uri@),
                from_tag: Some(from_tag@),
                to_uri: Some(to_uri@),
                to_tag: Some(to_tag@),
                request_uri: Some(to_uri@),
                cseq,
                local_address: Some(local_address@),
                ..self@
            }),
    {
        let mut b = self;
        b.call_id = Some(text(call_id));
        b.from_uri = Some(text(from_uri));
        b.from_tag = Some(text(from_tag));
        b.to_uri = Some(text(to_uri));
        b.to_tag = Some(text(to_tag));
        b.request_uri = Some(text(to_uri));
        b.cseq = cseq;
        b.local_address = Some(text(local_address));
        b
    }

    /// Sets the dialog with its Request-URI and route set.
    pub fn from_dialog_enhanced(
        self,
        call_id: &str,
        from_uri: &str,
        from_tag: &str,
        to_uri: &str,
        to_tag: &str,
        request_uri: &str,
        cseq: u32,
        local_address: &str,
        route_set: Vec<Uri>,
    ) -> (r: Self)
        ensures
            r@ == (InDialogView {
                call_id: Some(call_id@),
                from_uri: Some(from_uri@),
                from_tag: Some(from_tag@),
                to_uri: Some(to_uri@),
                to_tag: Some(to_tag@),
                request_uri: Some(request_uri@),
                cseq,
                local_address: Some(local_address@),
                route_set: route_set@,
                ..self@
            }),
    {
        let mut b = self;
        b.call_id = Some(text(call_id));
        b.from_uri = Some(text(from_uri));
        b.from_tag = Some(text(from_tag));
        b.to_uri = Some(text(to_uri));
        b.to_tag = Some(text(to_tag));
        b.request_uri = Some(text(request_uri));
        b.cseq = cseq;
        b.local_address = Some(text(local_address));
        b.route_set = route_set;
        b
    }

    /// Sets the body.
    pub fn with_body(self, body: &str) -> (r: Self)
        ensures
            r@ == (InDialogView { body: Some(body@), ..self@ }),
    {
        let mut b = self;
        b.body = Some(text(body));
        b
    }

    /// Sets the Content-Type, as `type/subtype`.
    pub fn with_content_type(self, content_type: &str) -> (r: Self)
        ensures
            r@ == (InDialogView { content_type: Some(content_type@), ..self@ }),
    {
        let mut b = self;
        b.content_type = Some(text(content_type));
        b
    }

    /// Sets the Request-URI.
    pub fn request_uri(self, uri: &str) -> (r: Self)
        ensures
            r@ == (InDialogView { request_uri: Some(uri@), ..self@ }),
    {
        let mut b = self;
        b.request_uri = Some(text(uri));
        b
    }

    /// Adds a route at the end of the route set.
    pub fn add_route(self, route: Uri) -> (r: Self)
        ensures
            r@ == (InDialogView { route_set: self@.route_set.push(route), ..self@ }),
    {
        let mut b = self;
        b.route_set.push(route);
        b
    }

    /// Adds a custom header field.
    pub fn header(self, header: TypedHeader) -> (r: Self)
        ensures
            r@ == (InDialogView { custom_headers: self@.custom_headers.push(header), ..self@ }),
    {
        let mut b = self;
        b.custom_headers.push(header);
        b
    }

    /// Sets Max-Forwards.
    pub fn max_forwards(self, max_forwards: u8) -> (r: Self)
        ensures
            r@ == (InDialogView { max_forwards, ..self@ }),
    {
        let mut b = self;
        b.max_forwards = max_forwards;
        b
    }

    /// Sets the Event (for NOTIFY).
    pub fn with_event(self, event: &str) -> (r: Self)
        ensures
            r@ == (InDialogView { event_type: Some(event@), ..self@ }),
    {
        let mut b = self;
        b.event_type = Some(text(event));
        b
    }

    /// Sets the Subscription-State (for NOTIFY), such as `active;expires=3600`.
    pub fn with_subscription_state(self, state: &str) -> (r: Self)
        ensures
            r@ == (InDialogView { subscription_state: Some(state@), ..self@ }),
    {
        let mut b = self;
        b.subscription_state = Some(text(state));
        b
    }

    /// Builds the request: fails when a required field is missing, or the
    /// Request-URI or the Subscription-State does not parse.
    pub fn build(self) -> (r: Result<RequestDraft, BuildError>)
        ensures
            in_dialog_build_error(self@) matches Some(e) ==> r == Err::<RequestDraft, BuildError>(e),
            in_dialog_build_error(self@) is None ==> (r matches Ok(d) && exists|br: Seq<char>|
                in_dialog_draft_with(self@, d@, br)),
    {
        let ghost b = self@;
        let call_id = match self.call_id { Some(x) => x, None => return Err(BuildError::CallIdRequired) };
        let from_uri = match self.from_uri { Some(x) => x, None => return Err(BuildError::FromUriRequired) };
        let from_tag = match self.from_tag { Some(x) => x, None => return Err(BuildError::FromTagRequired) };
        let to_uri = match self.to_uri { Some(x) => x, None => return Err(BuildError::ToUriRequired) };
        let to_tag = match self.to_tag { Some(x) => x, None => return Err(BuildError::ToTagRequired) };
        let request_uri = match self.request_uri { Some(x) => x, None => to_uri.clone() };
        let local = match self.local_address { Some(x) => x, None => return Err(BuildError::LocalAddressRequired) };
        if !uri_text_parses(request_uri.as_str()) {
            return Err(BuildError::InvalidRequestUri);
        }
        match &self.subscription_state {
            Some(st) => {
                if !subscription_state_valid(st.as_str()) {
                    return Err(BuildError::InvalidSubscriptionState);
                }
            },
            None => {},
        }
        let branch = generate_branch();
        let ghost br = branch@;
        let mut parts: Vec<RequestPart> = Vec::new();
        push_dialog_head(&mut parts, call_id, from_uri, from_tag, to_uri, to_tag, self.cseq, local, branch, self.max_forwards);
        let ghost p0 = parts@.map_values(|p: RequestPart| p@);
        match self.event_type {
            Some(e) => push_part(&mut parts, RequestPart::Event(e)),
            None => {},
        }
        let ghost p1 = parts@.map_values(|p: RequestPart| p@);
        match self.subscription_state {
            Some(st) => push_part(&mut parts, RequestPart::SubscriptionState(st)),
            None => {},
        }
        let ghost p2 = parts@.map_values(|p: RequestPart| p@);
        push_routes(&mut parts, self.route_set);
        let ghost p3 = parts@.map_values(|p: RequestPart| p@);
        match self.body {
            Some(body) => {
                match self.content_type {
                    Some(ct) => {
                        match split_media_type(ct.as_str()) {
                            Some((a, sub)) => push_part(&mut parts, RequestPart::ContentType { media_type: a, subtype: sub }),
                            None => {},
                        }
                    },
                    None => {},
                }
                let len = byte_length(&body);
                push_part(&mut parts, RequestPart::ContentLength(len));
                push_part(&mut parts, RequestPart::Body(body));
            },
            None => push_part(&mut parts, RequestPart::ContentLength(0)),
        }
        let ghost p4 = parts@.map_values(|p: RequestPart| p@);
        push_custom(&mut parts, self.custom_headers);
        let d = RequestDraft { method: self.method, request_uri, parts };
        proof {
            let head = dialog_head(
                b.call_id.unwrap(),
                b.from_uri.unwrap(),
                b.from_tag.unwrap(),
                b.to_uri.unwrap(),
                b.to_tag.unwrap(),
                b.cseq,
                b.local_address.unwrap(),
                br,
                b.max_forwards,
            );
            let ev = match b.event_type {
                Some(e) => seq![PartView::Event(e)],
                None => Seq::<PartView>::empty(),
            };
            let ss = match b.subscription_state {
                Some(st) => seq![PartView::SubscriptionState(st)],
                None => Seq::<PartView>::empty(),
            };
            assert(p0 =~= head);
            assert(p1 =~= head + ev);
            assert(p2 =~= head + ev + ss);
            assert(p4 =~= head + ev + ss + route_parts(b.route_set) + in_dialog_body_parts(b.body, b.content_type));
            assert(d@.parts =~= head + ev + ss + route_parts(b.route_set) + in_dialog_body_parts(b.body, b.content_type)
                + custom_parts(b.custom_headers));
            assert(in_dialog_draft_with(b, d@, br));
        }
        Ok(d)
    }

    /// A REFER to `target_uri`: body `Refer-To: <target>` and CRLF, as
    /// `message/sipfrag`.
    pub fn for_refer(target_uri: &str) -> (r: Self)
        ensures
            r@ == (InDialogView {
                body: Some("Refer-To: "@ + target_uri@ + "\r\n"@),
                content_type: Some("message/sipfrag"@),
                ..in_dialog_empty(MethodView::Refer)
            }),
    {
        let body = text("Refer-To: ").concat(target_uri).concat("\r\n");
        InDialogRequestBuilder::new(Method::Refer).with_body(body.as_str()).with_content_type("message/sipfrag")
    }

    /// An UPDATE, with an SDP body as `application/sdp` when one is given.
    pub fn for_update(sdp: Option<String>) -> (r: Self)
        ensures
            r@ == match sdp {
                Some(s) => InDialogView {
                    body: Some(s@),
                    content_type: Some("application/sdp"@),
                    ..in_dialog_empty(MethodView::Update)
                },
                None => in_dialog_empty(MethodView::Update),
            },
    {
        let b = InDialogRequestBuilder::new(Method::Update);
        match sdp {
            Some(s) => b.with_body(s.as_str()).with_content_type("application/sdp"),
            None => b,
        }
    }

    /// An INFO with this content, as `application/info` unless another
    /// content type is given.
    pub fn for_info(content: &str, content_type: Option<String>) -> (r: Self)
        ensures
            r@ == (InDialogView {
                body: Some(content@),
                content_type: Some(or_default(opt_view(content_type), "application/info"@)),
                ..in_dialog_empty(MethodView::Info)
            }),
    {
        let ct = unwrap_or_text(content_type, "application/info");
        InDialogRequestBuilder::new(Method::Info).with_body(content).with_content_type(ct.as_str())
    }

    /// A NOTIFY for `event`, with a body when one is given.
    pub fn for_notify(event: &str, body: Option<String>) -> (r: Self)
        ensures
            r@ == (InDialogView {
                event_type: Some(event@),
                body: opt_view(body),
                ..in_dialog_empty(MethodView::Notify)
            }),
    {
        let b = InDialogRequestBuilder::new(Method::Notify).with_event(event);
        match body {
            Some(x) => b.with_body(x.as_str()),
            None => b,
        }
    }

    /// A MESSAGE with this content, as `text/plain` unless another content
    /// type is given.
    pub fn for_message(content: &str, content_type: Option<String>) -> (r: Self)
        ensures
            r@ == (InDialogView {
                body: Some(content@),
                content_type: Some(or_default(opt_view(content_type), "text/plain"@)),
                ..in_dialog_empty(MethodView::Message)
            }),
    {
        let ct = unwrap_or_text(content_type, "text/plain");
        InDialogRequestBuilder::new(Method::Message).with_body(content).with_content_type(ct.as_str())
    }
}

} // verus!
