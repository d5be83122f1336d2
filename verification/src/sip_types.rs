use vstd::prelude::*;

verus! {

/// A SIP URI of `rvoip_sip_core`, carried through as is.
#[verifier::external_type_specification]
#[verifier::external_body]
pub struct ExUri(rvoip_sip_core::Uri);

/// A typed header field of `rvoip_sip_core`, carried through as is.
#[verifier::external_type_specification]
#[verifier::external_body]
pub struct ExTypedHeader(rvoip_sip_core::TypedHeader);

/// Whether `rvoip_sip_core` accepts the text as a URI (`Uri::from_str`
/// succeeds on it). Whether it succeeds depends on the text alone. The
/// parsed value itself is not named: a `Uri` keeps its header parameters in
/// a `HashMap` with a per-process hasher, so two parses of one text need not
/// be the same value.
pub uninterp spec fn uri_parses(s: Seq<char>) -> bool;

/// Calls `<rvoip_sip_core::Uri as FromStr>::from_str`: whether the text parses.
#[verifier::external_body]
pub(crate) fn uri_text_parses(s: &str) -> (r: bool)
    ensures
        r == uri_parses(s@),
{
    s.parse::<rvoip_sip_core::Uri>().is_ok()
}

/// Whether `rvoip_sip_core` accepts the text as a Subscription-State header
/// value (`SubscriptionState::from_str` succeeds on it). The parser is
/// deterministic.
pub uninterp spec fn subscription_state_parses(s: Seq<char>) -> bool;

/// Calls `<rvoip_sip_core::types::subscription_state::SubscriptionState as
/// FromStr>::from_str`: whether the text parses.
#[verifier::external_body]
pub(crate) fn subscription_state_valid(s: &str) -> (r: bool)
    ensures
        r == subscription_state_parses(s@),
{
    s.parse::<rvoip_sip_core::types::subscription_state::SubscriptionState>().is_ok()
}

/// Calls `Clone::clone` on a list of `rvoip_sip_core::Uri`, whose `Clone`
/// is derived: the same URIs in the same order.
#[verifier::external_body]
pub(crate) fn clone_uris(v: &Vec<rvoip_sip_core::Uri>) -> (r: Vec<rvoip_sip_core::Uri>)
    ensures
        r@ == v@,
{
    v.clone()
}

/// Calls `Clone::clone` on a `rvoip_sip_core::TypedHeader`, whose `Clone`
/// is derived: the same header field.
#[verifier::external_body]
pub(crate) fn clone_header(h: &rvoip_sip_core::TypedHeader) -> (r: rvoip_sip_core::TypedHeader)
    ensures
        r == *h,
{
    h.clone()
}

/// A copy of an optional header field.
pub fn clone_opt_header(h: &Option<rvoip_sip_core::TypedHeader>) -> (r: Option<rvoip_sip_core::TypedHeader>)
    ensures
        r == *h,
{
    match h {
        Some(x) => Some(clone_header(x)),
        None => None,
    }
}

/// A copy of a list of header fields, in order.
pub fn clone_headers(v: &Vec<rvoip_sip_core::TypedHeader>) -> (r: Vec<rvoip_sip_core::TypedHeader>)
    ensures
        r@ == v@,
{
    let mut r: Vec<rvoip_sip_core::TypedHeader> = Vec::new();
    let mut i: usize = 0;
    while i < v.len()
        invariant
            i <= v@.len(),
            r@ == v@.take(i as int),
        decreases v.len() - i,
    {
        r.push(clone_header(&v[i]));
        i = i + 1;
        assert(r@ =~= v@.take(i as int));
    }
    assert(v@.take(v@.len() as int) =~= v@);
    r
}

} // verus!
