use vstd::prelude::*;
use rvoip_sip_core::TypedHeader;
use crate::method::{Method, MethodView};

verus! {

/// The view of an optional string.
pub open spec fn opt_view(o: Option<String>) -> Option<Seq<char>> {
    match o {
        Some(s) => Some(s@),
        None => None,
    }
}

/// Whether two optional strings hold the same value.
pub fn opt_str_eq(a: &Option<String>, b: &Option<String>) -> (r: bool)
    ensures
        r == (opt_view(*a) == opt_view(*b)),
{
    match (a, b) {
        (Some(x), Some(y)) => *x == *y,
        (None, None) => true,
        _ => false,
    }
}

/// A copy of an optional string.
pub fn opt_str_clone(a: &Option<String>) -> (r: Option<String>)
    ensures
        opt_view(r) == opt_view(*a),
{
    match a {
        Some(x) => Some(x.clone()),
        None => None,
    }
}

/// What the transaction layer reads of a From or To header field.
#[derive(Debug)]
pub struct Party {
    /// The display name, if any.
    pub display_name: Option<String>,
    /// The URI of the address.
    pub uri: String,
    /// The `tag` parameter, if any.
    pub tag: Option<String>,
}

/// The mathematical value of a [`Party`].
pub struct PartyView {
    pub display_name: Option<Seq<char>>,
    pub uri: Seq<char>,
    pub tag: Option<Seq<char>>,
}

impl View for Party {
    type V = PartyView;

    open spec fn view(&self) -> PartyView {
        PartyView { display_name: opt_view(self.display_name), uri: self.uri@, tag: opt_view(self.tag) }
    }
}

impl Party {
    /// A copy of the party.
    pub fn duplicate(&self) -> (r: Party)
        ensures
            r@ == self@,
    {
        Party {
            display_name: opt_str_clone(&self.display_name),
            uri: self.uri.clone(),
            tag: opt_str_clone(&self.tag),
        }
    }

    /// Whether two parties are the same header value.
    pub fn same_as(&self, other: &Party) -> (r: bool)
        ensures
            r == (self@ == other@),
    {
        opt_str_eq(&self.display_name, &other.display_name) && self.uri == other.uri
            && opt_str_eq(&self.tag, &other.tag)
    }
}

/// The view of an optional party.
pub open spec fn opt_party(o: Option<Party>) -> Option<PartyView> {
    match o {
        Some(p) => Some(p@),
        None => None,
    }
}

/// The tag of an optional party.
pub open spec fn party_tag(o: Option<Party>) -> Option<Seq<char>> {
    match o {
        Some(p) => opt_view(p.tag),
        None => None,
    }
}

/// A CSeq header field: sequence number and method.
#[derive(Debug)]
pub struct CSeqInfo {
    pub seq: u32,
    pub method: Method,
}

/// The view of an optional CSeq.
pub open spec fn opt_cseq(o: Option<CSeqInfo>) -> Option<(u32, MethodView)> {
    match o {
        Some(c) => Some((c.seq, c.method@)),
        None => None,
    }
}

/// The branch parameters of the Via header fields, top-most first.
pub open spec fn branches_view(v: Seq<Option<String>>) -> Seq<Option<Seq<char>>> {
    v.map_values(|o: Option<String>| opt_view(o))
}

/// The branch of the top-most Via, when there is a Via and it carries a branch.
pub open spec fn top_branch(v: Seq<Option<String>>) -> Option<Seq<char>> {
    if v.len() == 0 {
        None
    } else {
        opt_view(v[0])
    }
}

/// What the transaction layer reads of a SIP request.
#[derive(Debug)]
pub struct RequestInfo {
    pub method: Method,
    /// The Request-URI.
    pub uri: String,
    /// The branch parameter of each Via header field, top-most first.
    pub via_branches: Vec<Option<String>>,
    pub call_id: Option<String>,
    pub from: Option<Party>,
    pub to: Option<Party>,
    pub cseq: Option<CSeqInfo>,
    /// Whether a Max-Forwards header field is present.
    pub has_max_forwards: bool,
    /// Whether a Contact header field is present.
    pub has_contact: bool,
    /// The URI of each Route header field entry, in order, as text.
    pub routes: Vec<String>,
    /// The Via header fields as received, top-most first, kept so that a
    /// response can copy them.
    pub via_headers: Vec<TypedHeader>,
    /// The From header field as received, kept for responses.
    pub from_header: Option<TypedHeader>,
    /// The To header field as received, kept for responses.
    pub to_header: Option<TypedHeader>,
}

/// The views of a list of strings.
pub open spec fn strs_view(v: Seq<String>) -> Seq<Seq<char>> {
    v.map_values(|s: String| s@)
}

/// Whether two lists of strings hold the same values in the same order.
pub fn same_strings(a: &Vec<String>, b: &Vec<String>) -> (r: bool)
    ensures
        r == (strs_view(a@) == strs_view(b@)),
{
    if a.len() != b.len() {
        assert(strs_view(a@).len() != strs_view(b@).len());
        return false;
    }
    let mut i: usize = 0;
    while i < a.len()
        invariant
            a@.len() == b@.len(),
            i <= a@.len(),
            forall|j: int| 0 <= j < i ==> a@[j]@ == b@[j]@,
        decreases a.len() - i,
    {
        if a[i] != b[i] {
            assert(strs_view(a@)[i as int] != strs_view(b@)[i as int]);
            return false;
        }
        i = i + 1;
    }
    assert(strs_view(a@) =~= strs_view(b@));
    true
}

/// A copy of a list of strings.
pub fn clone_strings(v: &Vec<String>) -> (r: Vec<String>)
    ensures
        strs_view(r@) == strs_view(v@),
{
    let mut r: Vec<String> = Vec::new();
    let mut i: usize = 0;
    while i < v.len()
        invariant
            i <= v@.len(),
            r@.len() == i,
            forall|j: int| 0 <= j < i ==> r@[j]@ == v@[j]@,
        decreases v.len() - i,
    {
        r.push(v[i].clone());
        i = i + 1;
    }
    assert(strs_view(r@) =~= strs_view(v@));
    r
}

/// What the transaction layer reads of a SIP response.
#[derive(Debug)]
pub struct ResponseInfo {
    /// The status code.
    pub status: u16,
    /// The branch parameter of each Via header field, top-most first.
    pub via_branches: Vec<Option<String>>,
    pub call_id: Option<String>,
    pub from: Option<Party>,
    pub to: Option<Party>,
    pub cseq: Option<CSeqInfo>,
}

/// A SIP message as the transaction layer sees it.
#[derive(Debug)]
pub enum Message {
    Request(RequestInfo),
    Response(ResponseInfo),
}

/// The branch of the top-most Via of a list, when present.
pub fn first_branch(v: &Vec<Option<String>>) -> (r: Option<&String>)
    ensures
        r matches Some(b) ==> top_branch(v@) == Some(b@),
        r is None <==> top_branch(v@) is None,
{
    if v.len() == 0 {
        None
    } else {
        match &v[0] {
            Some(b) => Some(b),
            None => None,
        }
    }
}

/// Status codes 100 to 199.
pub open spec fn is_provisional(status: u16) -> bool {
    100 <= status < 200
}

/// Status codes 200 to 299.
pub open spec fn is_success(status: u16) -> bool {
    200 <= status < 300
}

/// Whether a status code is provisional (1xx).
pub fn status_is_provisional(status: u16) -> (r: bool)
    ensures
        r == is_provisional(status),
{
    100 <= status && status < 200
}

/// Whether a status code is a success (2xx).
pub fn status_is_success(status: u16) -> (r: bool)
    ensures
        r == is_success(status),
{
    200 <= status && status < 300
}

} // verus!
