use vstd::prelude::*;
use crate::method::{Method, MethodView, method_name, parse_method, is_canonical, str_eq,
    lemma_parse_name_roundtrip};
use crate::message::{RequestInfo, ResponseInfo, top_branch, opt_cseq, first_branch};

verus! {

/// Identifies a transaction (RFC 3261 Sections 17.1.3 and 17.2.3): the branch
/// of the top-most Via, the method of the request, and whether the
/// transaction is a server transaction.
#[derive(Debug, Hash)]
pub struct TransactionKey {
    /// The `branch` parameter of the top-most Via.
    pub branch: String,
    /// The method of the request that created the transaction.
    pub method: Method,
    /// `true` for a server transaction, `false` for a client transaction.
    pub is_server: bool,
}

/// Another name for a transaction key.
pub type TransactionId = TransactionKey;

/// The mathematical value of a [`TransactionKey`].
pub struct KeyView {
    pub branch: Seq<char>,
    pub method: MethodView,
    pub is_server: bool,
}

impl View for TransactionKey {
    type V = KeyView;

    open spec fn view(&self) -> KeyView {
        KeyView { branch: self.branch@, method: self.method@, is_server: self.is_server }
    }
}

/// Why a text could not be read as a transaction key.
#[derive(Debug, Clone, Copy, PartialEq, Eq, Structural)]
pub enum KeyParseError {
    /// The text does not split into exactly `branch:METHOD:side`.
    WrongFieldCount,
    /// The method field is empty.
    InvalidMethod,
    /// The side is neither `server` nor `client`.
    InvalidSide,
}

/// The word for a side: `server` or `client`.
pub open spec fn side_name(is_server: bool) -> Seq<char> {
    if is_server {
        "server"@
    } else {
        "client"@
    }
}

/// The text form of a key: `branch:METHOD:side`.
pub open spec fn key_text(k: KeyView) -> Seq<char> {
    k.branch + ":"@ + method_name(k.method) + ":"@ + side_name(k.is_server)
}

/// The display form of a key: `Key(branch:METHOD:side)`.
pub open spec fn key_display_text(k: KeyView) -> Seq<char> {
    "Key("@ + key_text(k) + ")"@
}

/// The positions of the colons of a text, in order.
pub open spec fn colon_positions(s: Seq<char>) -> Seq<int>
    decreases s.len(),
{
    if s.len() == 0 {
        Seq::empty()
    } else if s.last() == ':' {
        colon_positions(s.drop_last()).push(s.len() - 1)
    } else {
        colon_positions(s.drop_last())
    }
}

/// `s` ends with `suffix`.
pub open spec fn ends_with(s: Seq<char>, suffix: Seq<char>) -> bool {
    s.len() >= suffix.len() && s.subrange(s.len() - suffix.len(), s.len() as int) == suffix
}

/// A text without colons.
pub open spec fn no_colon(s: Seq<char>) -> bool {
    forall|i: int| 0 <= i < s.len() ==> s[i] != ':'
}

/// Strips the display wrapping `Key(` ... `)`, when both ends are there.
pub open spec fn strip_display(s: Seq<char>) -> Seq<char> {
    if s.len() >= 5 && s.subrange(0, 4) == "Key("@ && s.last() == ')' {
        s.subrange(4, s.len() - 1)
    } else {
        s
    }
}

/// Strips a trailing `:INVITE_LIKE` or `:NON_INVITE_LIKE` of an older text
/// form: the text is cut at the colon that starts the suffix, when an earlier
/// colon exists.
pub open spec fn strip_kind_suffix(s: Seq<char>) -> Seq<char> {
    if ends_with(s, ":INVITE_LIKE"@) || ends_with(s, ":NON_INVITE_LIKE"@) {
        let idx = if ends_with(s, ":INVITE_LIKE"@) {
            s.len() - 12
        } else {
            s.len() - 16
        };
        if no_colon(s.subrange(0, idx)) {
            s
        } else {
            s.subrange(0, idx)
        }
    } else {
        s
    }
}

/// Reads a key from its text form or its display form.
pub open spec fn parse_key(s: Seq<char>) -> Result<KeyView, KeyParseError> {
    let t = strip_kind_suffix(strip_display(s));
    let c = colon_positions(t);
    if c.len() != 2 {
        Err(KeyParseError::WrongFieldCount)
    } else {
        let branch = t.subrange(0, c[0]);
        let method = t.subrange(c[0] + 1, c[1]);
        let side = t.subrange(c[1] + 1, t.len() as int);
        match parse_method(method) {
            None => Err(KeyParseError::InvalidMethod),
            Some(m) => if side == "server"@ {
                Ok(KeyView { branch, method: m, is_server: true })
            } else if side == "client"@ {
                Ok(KeyView { branch, method: m, is_server: false })
            } else {
                Err(KeyParseError::InvalidSide)
            },
        }
    }
}

/// The key of the server transaction that a request belongs to: the top Via
/// must carry a non-empty branch.
pub open spec fn key_of_request(method: MethodView, vias: Seq<Option<String>>) -> Option<KeyView> {
    match top_branch(vias) {
        Some(b) => if b.len() == 0 {
            None
        } else {
            Some(KeyView { branch: b, method, is_server: true })
        },
        None => None,
    }
}

/// The key of the client transaction that a response belongs to: the top Via
/// must carry a non-empty branch and the CSeq gives the method.
pub open spec fn key_of_response(
    vias: Seq<Option<String>>,
    cseq: Option<(u32, MethodView)>,
) -> Option<KeyView> {
    match top_branch(vias) {
        Some(b) => if b.len() == 0 {
            None
        } else {
            match cseq {
                Some(c) => Some(KeyView { branch: b, method: c.1, is_server: false }),
                None => None,
            }
        },
        None => None,
    }
}

impl TransactionKey {
    /// Creates a key.
    pub fn new(branch: String, method: Method, is_server: bool) -> (k: Self)
        ensures
            k@ == (KeyView { branch: branch@, method: method@, is_server }),
    {
        TransactionKey { branch, method, is_server }
    }

    /// The key of the server transaction for an incoming request, or `None`
    /// when the top Via is missing or has no (or an empty) branch.
    pub fn from_request(request: &RequestInfo) -> (k: Option<Self>)
        ensures
            k matches Some(x) ==> key_of_request(request.method@, request.via_branches@) == Some(x@),
            k is None <==> key_of_request(request.method@, request.via_branches@) is None,
    {
        match first_branch(&request.via_branches) {
            Some(b) => {
                if b.unicode_len() == 0 {
                    None
                } else {
                    Some(TransactionKey::new(b.clone(), request.method.duplicate(), true))
                }
            },
            None => None,
        }
    }

    /// The key of the client transaction for a response, or `None` when the
    /// top Via has no usable branch or the CSeq is missing.
    pub fn from_response(response: &ResponseInfo) -> (k: Option<Self>)
        ensures
            k matches Some(x) ==> key_of_response(response.via_branches@, opt_cseq(response.cseq))
                == Some(x@),
            k is None <==> key_of_response(response.via_branches@, opt_cseq(response.cseq)) is None,
    {
        match first_branch(&response.via_branches) {
            Some(b) => {
                if b.unicode_len() == 0 {
                    None
                } else {
                    match &response.cseq {
                        Some(c) => Some(TransactionKey::new(b.clone(), c.method.duplicate(), false)),
                        None => None,
                    }
                }
            },
            None => None,
        }
    }

    /// The branch parameter.
    pub fn branch(&self) -> (b: &str)
        ensures
            b@ == self.branch@,
    {
        self.branch.as_str()
    }

    /// The method.
    pub fn method(&self) -> (m: &Method)
        ensures
            m@ == self.method@,
    {
        &self.method
    }

    /// Whether this is the key of a server transaction.
    pub fn is_server(&self) -> (r: bool)
        ensures
            r == self.is_server,
    {
        self.is_server
    }

    /// The key with the same branch and side but another method, as for the
    /// CANCEL or ACK that belongs with an INVITE.
    pub fn with_method(&self, method: Method) -> (k: Self)
        ensures
            k@ == (KeyView { branch: self.branch@, method: method@, is_server: self.is_server }),
    {
        TransactionKey { branch: self.branch.clone(), method, is_server: self.is_server }
    }

    /// A copy of the key.
    pub fn duplicate(&self) -> (k: Self)
        ensures
            k@ == self@,
    {
        TransactionKey {
            branch: self.branch.clone(),
            method: self.method.duplicate(),
            is_server: self.is_server,
        }
    }

    /// Whether two keys identify the same transaction: same branch, method and side.
    pub fn same_as(&self, other: &TransactionKey) -> (r: bool)
        ensures
            r == (self@ == other@),
    {
        self.branch == other.branch && self.method.same_as(&other.method) && self.is_server
            == other.is_server
    }

    /// The text form `branch:METHOD:side`.
    pub fn to_text(&self) -> (s: String)
        ensures
            s@ == key_text(self@),
    {
        let side = if self.is_server {
            "server"
        } else {
            "client"
        };
        String::from_str(self.branch.as_str()).concat(":").concat(self.method.as_str()).concat(
            ":",
        ).concat(side)
    }

    /// The display form `Key(branch:METHOD:side)`.
    pub fn to_display_text(&self) -> (s: String)
        ensures
            s@ == key_display_text(self@),
    {
        let t = self.to_text();
        String::from_str("Key(").concat(t.as_str()).concat(")")
    }
}

/// Whether the first `upto` characters of `t` hold a colon.
fn has_colon_before(t: &str, upto: usize) -> (r: bool)
    requires
        upto <= t@.len(),
    ensures
        r == !no_colon(t@.subrange(0, upto as int)),
{
    let mut i: usize = 0;
    while i < upto
        invariant
            i <= upto <= t@.len(),
            no_colon(t@.subrange(0, i as int)),
        decreases upto - i,
    {
        if t.get_char(i) == ':' {
            assert(t@.subrange(0, upto as int)[i as int] == ':');
            return true;
        }
        assert(no_colon(t@.subrange(0, i + 1))) by {
            assert forall|j: int| 0 <= j < i + 1 implies #[trigger] t@.subrange(0, i + 1)[j] != ':' by {
                if j < i {
                    assert(t@.subrange(0, i + 1)[j] == t@.subrange(0, i as int)[j]);
                }
            }
        }
        i = i + 1;
    }
    false
}

/// One more character extends the colon positions of a prefix by at most its own position.
proof fn lemma_colon_positions_step(s: Seq<char>, i: int)
    requires
        0 <= i < s.len(),
    ensures
        s.subrange(0, i + 1).drop_last() == s.subrange(0, i),
        s.subrange(0, i + 1).last() == s[i],
        colon_positions(s.subrange(0, i + 1)) == if s[i] == ':' {
            colon_positions(s.subrange(0, i)).push(i)
        } else {
            colon_positions(s.subrange(0, i))
        },
{
    assert(s.subrange(0, i + 1).drop_last() =~= s.subrange(0, i));
}

/// Appending colon-free text adds no colon position.
proof fn lemma_colon_positions_append_plain(x: Seq<char>, y: Seq<char>)
    requires
        no_colon(y),
    ensures
        colon_positions(x + y) == colon_positions(x),
    decreases y.len(),
{
    if y.len() == 0 {
        assert(x + y =~= x);
    } else {
        let y0 = y.drop_last();
        assert(no_colon(y0)) by {
            assert forall|i: int| 0 <= i < y0.len() implies #[trigger] y0[i] != ':' by {
                assert(y0[i] == y[i]);
            }
        }
        lemma_colon_positions_append_plain(x, y0);
        assert((x + y).drop_last() =~= x + y0);
        assert((x + y).last() == y[y.len() - 1]);
    }
}

/// Appending a colon adds its position.
proof fn lemma_colon_positions_append_colon(x: Seq<char>)
    ensures
        colon_positions(x + ":"@) == colon_positions(x).push(x.len() as int),
{
    reveal_strlit(":");
    assert((x + ":"@).drop_last() =~= x);
}

/// The side words hold no colon and end in a letter other than `)` and `E`.
proof fn lemma_side_name_facts(is_server: bool)
    ensures
        no_colon(side_name(is_server)),
        side_name(is_server).len() == 6,
        side_name(is_server).last() != ')',
        side_name(is_server).last() != 'E',
        side_name(true) != side_name(false),
{
    reveal_strlit("server");
    reveal_strlit("client");
    let w = side_name(is_server);
    assert forall|i: int| 0 <= i < w.len() implies #[trigger] w[i] != ':' by {
        if i == 0 {
        } else if i == 1 {
        } else if i == 2 {
        } else if i == 3 {
        } else if i == 4 {
        } else {
        }
    }
    assert(side_name(true)[0] != side_name(false)[0]);
}

/// Reading back the text form, or the display form, of a key gives the key,
/// when neither the branch nor the method name holds a colon and the method
/// is one the parser produces.
pub proof fn lemma_key_text_roundtrip(k: KeyView)
    requires
        no_colon(k.branch),
        no_colon(method_name(k.method)),
        is_canonical(k.method),
    ensures
        parse_key(key_text(k)) == Ok::<KeyView, KeyParseError>(k),
        parse_key(key_display_text(k)) == Ok::<KeyView, KeyParseError>(k),
{
    reveal_strlit(":");
    reveal_strlit("Key(");
    reveal_strlit(")");
    reveal_strlit(":INVITE_LIKE");
    reveal_strlit(":NON_INVITE_LIKE");
    let b = k.branch;
    let n = method_name(k.method);
    let w = side_name(k.is_server);
    lemma_side_name_facts(k.is_server);
    let t = key_text(k);
    let p1 = b + ":"@;
    let p2 = p1 + n;
    let p3 = p2 + ":"@;
    assert(t == p3 + w);
    lemma_colon_positions_append_plain(Seq::empty(), b);
    assert(Seq::<char>::empty() + b =~= b);
    lemma_colon_positions_append_colon(b);
    lemma_colon_positions_append_plain(p1, n);
    lemma_colon_positions_append_colon(p2);
    lemma_colon_positions_append_plain(p3, w);
    let c = colon_positions(t);
    assert(c =~= seq![b.len() as int, (b.len() + 1 + n.len()) as int]);
    assert(t.last() == w.last());
    assert(strip_display(t) == t);
    assert(!ends_with(t, ":INVITE_LIKE"@)) by {
        if ends_with(t, ":INVITE_LIKE"@) {
            assert(t.subrange(t.len() - 12, t.len() as int)[11] == t.last());
        }
    }
    assert(!ends_with(t, ":NON_INVITE_LIKE"@)) by {
        if ends_with(t, ":NON_INVITE_LIKE"@) {
            assert(t.subrange(t.len() - 16, t.len() as int)[15] == t.last());
        }
    }
    assert(strip_kind_suffix(t) == t);
    assert(t.subrange(0, c[0]) =~= b);
    assert(t.subrange(c[0] + 1, c[1]) =~= n);
    assert(t.subrange(c[1] + 1, t.len() as int) =~= w);
    lemma_parse_name_roundtrip(k.method);
    let d = key_display_text(k);
    assert(d.subrange(0, 4) =~= "Key("@);
    assert(d.subrange(4, d.len() - 1) =~= t);
    assert(strip_display(d) == t);
}

impl TransactionKey {
    /// Reads a key from its text form `branch:METHOD:side` or its display
    /// form `Key(branch:METHOD:side)`; a trailing `:INVITE_LIKE` or
    /// `:NON_INVITE_LIKE` of an older text form is ignored.
    pub fn parse(s: &str) -> (r: Result<Self, KeyParseError>)
        ensures
            r matches Ok(k) ==> parse_key(s@) == Ok::<KeyView, KeyParseError>(k@),
            r matches Err(e) ==> parse_key(s@) == Err::<KeyView, KeyParseError>(e),
    {
        proof {
            reveal_strlit("Key(");
            reveal_strlit(":INVITE_LIKE");
            reveal_strlit(":NON_INVITE_LIKE");
        }
        let n = s.unicode_len();
        let display = n >= 5 && str_eq(s.substring_char(0, 4), "Key(") && s.get_char(n - 1) == ')';
        let inner: &str = if display {
            s.substring_char(4, n - 1)
        } else {
            s
        };
        assert(inner@ == strip_display(s@));
        let m = inner.unicode_len();
        let ends_inv = m >= 12 && str_eq(inner.substring_char(m - 12, m), ":INVITE_LIKE");
        let ends_non = m >= 16 && str_eq(inner.substring_char(m - 16, m), ":NON_INVITE_LIKE");
        let t: &str = if ends_inv || ends_non {
            let idx = if ends_inv {
                m - 12
            } else {
                m - 16
            };
            if has_colon_before(inner, idx) {
                inner.substring_char(0, idx)
            } else {
                inner
            }
        } else {
            inner
        };
        assert(t@ == strip_kind_suffix(inner@));
        let tl = t.unicode_len();
        let mut count: usize = 0;
        let mut c0: usize = 0;
        let mut c1: usize = 0;
        let mut i: usize = 0;
        while i < tl
            invariant
                i <= tl == t@.len(),
                count as int == colon_positions(t@.subrange(0, i as int)).len(),
                count <= i,
                count >= 1 ==> c0 as int == colon_positions(t@.subrange(0, i as int))[0] && c0 < i,
                count >= 2 ==> c1 as int == colon_positions(t@.subrange(0, i as int))[1] && c0 < c1
                    && c1 < i,
            decreases tl - i,
        {
            proof {
                lemma_colon_positions_step(t@, i as int);
            }
            if t.get_char(i) == ':' {
                if count == 0 {
                    c0 = i;
                } else if count == 1 {
                    c1 = i;
                }
                count = count + 1;
            }
            i = i + 1;
        }
        assert(t@.subrange(0, tl as int) =~= t@);
        if count != 2 {
            return Err(KeyParseError::WrongFieldCount);
        }
        let branch = t.substring_char(0, c0);
        let method_text = t.substring_char(c0 + 1, c1);
        let side = t.substring_char(c1 + 1, tl);
        match Method::parse(method_text) {
            None => Err(KeyParseError::InvalidMethod),
            Some(method) => {
                if str_eq(side, "server") {
                    Ok(TransactionKey { branch: String::from_str(branch), method, is_server: true })
                } else if str_eq(side, "client") {
                    Ok(TransactionKey { branch: String::from_str(branch), method, is_server: false })
                } else {
                    Err(KeyParseError::InvalidSide)
                }
            },
        }
    }
}

impl Clone for TransactionKey {
    fn clone(&self) -> (k: Self)
        ensures
            k@ == self@,
    {
        self.duplicate()
    }
}

} // verus!

verus! {

impl PartialEq for TransactionKey {
    fn eq(&self, other: &Self) -> (r: bool) {
        self.same_as(other)
    }
}

impl vstd::std_specs::cmp::PartialEqSpecImpl for TransactionKey {
    open spec fn obeys_eq_spec() -> bool {
        true
    }

    open spec fn eq_spec(&self, other: &Self) -> bool {
        self@ == other@
    }
}

impl Eq for TransactionKey {}

/// A request belongs to the server transaction keyed by its top-most Via's
/// branch, its method and the server side; there is none when the top Via
/// is missing or carries no (or an empty) branch. A response belongs to the
/// client transaction keyed by its top-most Via's branch, its CSeq method and
/// the client side; there is none without a CSeq either.
pub proof fn lemma_keys_follow_rfc(
    method: MethodView,
    vias: Seq<Option<String>>,
    cseq: Option<(u32, MethodView)>,
)
    ensures
        key_of_request(method, vias) is Some <==> (vias.len() > 0 && vias[0] is Some && vias[0].unwrap()@.len() > 0),
        key_of_request(method, vias) matches Some(k) ==> k.branch == vias[0].unwrap()@ && k.method == method
            && k.is_server,
        key_of_response(vias, cseq) is Some <==> (vias.len() > 0 && vias[0] is Some && vias[0].unwrap()@.len() > 0
            && cseq is Some),
        key_of_response(vias, cseq) matches Some(k) ==> k.branch == vias[0].unwrap()@ && k.method
            == cseq.unwrap().1 && !k.is_server,
{
}

} // verus!
