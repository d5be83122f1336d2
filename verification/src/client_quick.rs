use vstd::prelude::*;
use crate::method::{Method, MethodView};
use crate::branch::{generate_tag, generate_id, is_generated_tag, is_generated_id};
use crate::request_builders::{
    RequestDraft, RequestPart, PartView, BuildError, InviteBuilder, InviteBuilderView, ByeBuilder,
    ByeBuilderView, RegisterBuilder, RegisterBuilderView, invite_draft_with, bye_draft_with,
    register_draft_with, content_length, text, push_part, byte_length,
};
use crate::sip_types::{uri_parses, uri_text_parses};

verus! {

/// The view of an optional text.
pub open spec fn opt_str_view(o: Option<&str>) -> Option<Seq<char>> {
    match o {
        Some(s) => Some(s@),
        None => None,
    }
}

/// The INVITE builder that [`invite`] fills, with generated From tag `t`.
pub open spec fn quick_invite_view(
    from: Seq<char>,
    to: Seq<char>,
    local_addr: Seq<char>,
    sdp: Option<Seq<char>>,
    t: Seq<char>,
) -> InviteBuilderView {
    InviteBuilderView {
        from_uri: Some(from),
        from_display_name: None,
        from_tag: Some(t),
        to_uri: Some(to),
        to_display_name: None,
        to_tag: None,
        request_uri: Some(to),
        call_id: None,
        cseq: 1,
        local_address: Some(local_addr),
        branch: None,
        route_set: Seq::empty(),
        contact: None,
        sdp_content: sdp,
        custom_headers: Seq::empty(),
        max_forwards: 70,
    }
}

/// A simple INVITE from `from` to `to`, with an SDP body when one is given;
/// fails when `to` does not parse as a URI.
pub fn invite(from: &str, to: &str, local_addr: &str, sdp: Option<&str>) -> (r: Result<RequestDraft, BuildError>)
    ensures
        !uri_parses(to@) ==> r == Err::<RequestDraft, BuildError>(BuildError::InvalidRequestUri),
        uri_parses(to@) ==> r is Ok,
        r matches Ok(d) ==> exists|t: Seq<char>, c: Seq<char>, br: Seq<char>|
            is_generated_tag(t) && #[trigger] invite_draft_with(
                quick_invite_view(from@, to@, local_addr@, opt_str_view(sdp), t),
                d@,
                c,
                br,
                t,
            ),
{
    let mut b = InviteBuilder::new().from_to(from, to).local_address(local_addr);
    match sdp {
        Some(s) => {
            b = b.with_sdp(s);
        },
        None => {},
    }
    let ghost t = b@.from_tag.unwrap();
    let ghost sv = opt_str_view(sdp);
    assert(b@ == quick_invite_view(from@, to@, local_addr@, sv, t));
    b.build()
}

/// A BYE for an established dialog; fails when `to_uri` does not parse as a URI.
pub fn bye(
    call_id: &str,
    from_uri: &str,
    from_tag: &str,
    to_uri: &str,
    to_tag: &str,
    local_addr: &str,
    cseq: u32,
) -> (r: Result<RequestDraft, BuildError>)
    ensures
        !uri_parses(to_uri@) ==> r == Err::<RequestDraft, BuildError>(BuildError::InvalidRequestUri),
        uri_parses(to_uri@) ==> r is Ok,
        r matches Ok(d) ==> exists|br: Seq<char>|
            bye_draft_with(
                ByeBuilderView {
                    call_id: Some(call_id@),
                    from_uri: Some(from_uri@),
                    from_tag: Some(from_tag@),
                    to_uri: Some(to_uri@),
                    to_tag: Some(to_tag@),
                    request_uri: Some(to_uri@),
                    cseq,
                    local_address: Some(local_addr@),
                    route_set: Seq::empty(),
                    custom_headers: Seq::empty(),
                    max_forwards: 70,
                },
                d@,
                br,
            ),
{
    ByeBuilder::new().from_dialog(call_id, from_uri, from_tag, to_uri, to_tag).local_address(local_addr).cseq(
        cseq,
    ).build()
}

/// A REGISTER of `user_uri` at `registrar`, with Expires when given; fails
/// when `registrar` does not parse as a URI.
pub fn register(
    registrar: &str,
    user_uri: &str,
    display_name: &str,
    local_addr: &str,
    expires: Option<u32>,
) -> (r: Result<RequestDraft, BuildError>)
    ensures
        !uri_parses(registrar@) ==> r == Err::<RequestDraft, BuildError>(BuildError::InvalidRequestUri),
        uri_parses(registrar@) ==> r is Ok,
        r matches Ok(d) ==> exists|c: Seq<char>, t: Seq<char>, br: Seq<char>|
            register_draft_with(
                RegisterBuilderView {
                    registrar_uri: Some(registrar@),
                    from_uri: Some(user_uri@),
                    from_display_name: Some(display_name@),
                    contact_uri: None,
                    local_address: Some(local_addr@),
                    expires,
                    call_id: None,
                    cseq: 1,
                    custom_headers: Seq::empty(),
                    max_forwards: 70,
                },
                d@,
                c,
                t,
                br,
            ),
{
    let mut b = RegisterBuilder::new().registrar(registrar).user_info(user_uri, display_name).local_address(
        local_addr,
    );
    match expires {
        Some(e) => {
            b = b.expires(e);
        },
        None => {},
    }
    b.build()
}

/// The steps shared by the stand-alone OPTIONS and MESSAGE: From with a tag,
/// To without, Call-ID, CSeq 1 and a Max-Forwards header of 70.
pub open spec fn standalone_head(target: Seq<char>, from: Seq<char>, tag: Seq<char>, call_id: Seq<char>) -> Seq<PartView> {
    seq![
        PartView::From { display_name: "User"@, uri: from, tag: Some(tag) },
        PartView::To { display_name: "User"@, uri: target, tag: None },
        PartView::CallId(call_id),
        PartView::CSeq(1),
        PartView::MaxForwardsHeader(70),
    ]
}

fn push_standalone_head(parts: &mut Vec<RequestPart>, target: &str, from: &str, tag: String, call_id: String)
    ensures
        final(parts)@.map_values(|p: RequestPart| p@) == old(parts)@.map_values(|p: RequestPart| p@)
            + standalone_head(target@, from@, tag@, call_id@),
{
    let ghost start = parts@.map_values(|p: RequestPart| p@);
    let ghost head = standalone_head(target@, from@, tag@, call_id@);
    proof {
        reveal_strlit("User");
    }
    push_part(parts, RequestPart::From { display_name: text("User"), uri: text(from), tag: Some(tag) });
    push_part(parts, RequestPart::To { display_name: text("User"), uri: text(target), tag: None });
    push_part(parts, RequestPart::CallId(call_id));
    push_part(parts, RequestPart::CSeq(1));
    push_part(parts, RequestPart::MaxForwardsHeader(70));
    assert(parts@.map_values(|p: RequestPart| p@) =~= start + head);
}

/// A stand-alone OPTIONS to `target_uri` (no Via: the transport adds one);
/// fails when `target_uri` does not parse as a URI.
pub fn options(target_uri: &str, from_uri: &str, local_addr: &str) -> (r: Result<RequestDraft, BuildError>)
    ensures
        !uri_parses(target_uri@) ==> r == Err::<RequestDraft, BuildError>(BuildError::InvalidRequestUri),
        uri_parses(target_uri@) ==> r is Ok,
        r matches Ok(d) ==> d@.method == MethodView::Options,
        r matches Ok(d) ==> d@.request_uri == target_uri@,
        r matches Ok(d) ==> exists|t: Seq<char>, c: Seq<char>|
            is_generated_tag(t) && is_generated_id("options-"@, c) && d@.parts == standalone_head(
                target_uri@,
                from_uri@,
                t,
                c,
            ) + seq![PartView::ContentLength(0)],
{
    if !uri_text_parses(target_uri) {
        return Err(BuildError::InvalidRequestUri);
    }
    Ok(options_draft(target_uri, from_uri))
}

/// The OPTIONS draft for a target URI that parses.
fn options_draft(target_uri: &str, from_uri: &str) -> (d: RequestDraft)
    ensures
        d@.method == MethodView::Options,
        d@.request_uri == target_uri@,
        exists|t: Seq<char>, c: Seq<char>|
            is_generated_tag(t) && is_generated_id("options-"@, c) && d@.parts == standalone_head(
                target_uri@,
                from_uri@,
                t,
                c,
            ) + seq![PartView::ContentLength(0)],
{
    let tag = generate_tag();
    let call_id = generate_id("options-");
    let ghost t = tag@;
    let ghost c = call_id@;
    let mut parts: Vec<RequestPart> = Vec::new();
    push_standalone_head(&mut parts, target_uri, from_uri, tag, call_id);
    push_part(&mut parts, RequestPart::ContentLength(0));
    let d = RequestDraft { method: Method::Options, request_uri: text(target_uri), parts };
    assert(d@.parts =~= standalone_head(target_uri@, from_uri@, t, c) + seq![PartView::ContentLength(0)]);
    d
}

/// A stand-alone MESSAGE with a `text/plain` body; fails when `target_uri`
/// does not parse as a URI.
pub fn message(target_uri: &str, from_uri: &str, local_addr: &str, content: &str) -> (r: Result<RequestDraft, BuildError>)
    ensures
        !uri_parses(target_uri@) ==> r == Err::<RequestDraft, BuildError>(BuildError::InvalidRequestUri),
        uri_parses(target_uri@) ==> r is Ok,
        r matches Ok(d) ==> d@.method == MethodView::Message,
        r matches Ok(d) ==> d@.request_uri == target_uri@,
        r matches Ok(d) ==> exists|t: Seq<char>, c: Seq<char>|
            is_generated_tag(t) && is_generated_id("message-"@, c) && d@.parts == standalone_head(
                target_uri@,
                from_uri@,
                t,
                c,
            ) + seq![
                PartView::ContentTypeText("text/plain"@),
                PartView::ContentLength(content_length(content@)),
                PartView::Body(content@),
            ],
{
    if !uri_text_parses(target_uri) {
        return Err(BuildError::InvalidRequestUri);
    }
    Ok(message_draft(target_uri, from_uri, content))
}

/// The MESSAGE draft for a target URI that parses.
fn message_draft(target_uri: &str, from_uri: &str, content: &str) -> (d: RequestDraft)
    ensures
        d@.method == MethodView::Message,
        d@.request_uri == target_uri@,
        exists|t: Seq<char>, c: Seq<char>|
            is_generated_tag(t) && is_generated_id("message-"@, c) && d@.parts == standalone_head(
                target_uri@,
                from_uri@,
                t,
                c,
            ) + seq![
                PartView::ContentTypeText("text/plain"@),
                PartView::ContentLength(content_length(content@)),
                PartView::Body(content@),
            ],
{
    let tag = generate_tag();
    let call_id = generate_id("message-");
    let ghost t = tag@;
    let ghost c = call_id@;
    let mut parts: Vec<RequestPart> = Vec::new();
    push_standalone_head(&mut parts, target_uri, from_uri, tag, call_id);
    let body = text(content);
    let len = byte_length(&body);
    push_part(&mut parts, RequestPart::ContentTypeText(text("text/plain")));
    push_part(&mut parts, RequestPart::ContentLength(len));
    push_part(&mut parts, RequestPart::Body(body));
    let d = RequestDraft { method: Method::Message, request_uri: text(target_uri), parts };
    assert(d@.parts =~= standalone_head(target_uri@, from_uri@, t, c) + seq![
        PartView::ContentTypeText("text/plain"@),
        PartView::ContentLength(content_length(content@)),
        PartView::Body(content@),
    ]);
    d
}

} // verus!
