use vstd::prelude::*;
use crate::method::{Method, MethodView};
use crate::key::TransactionKey;
use crate::message::{ResponseInfo, top_branch, opt_cseq, first_branch};

verus! {

/// A response belongs to a client transaction when its top Via carries the
/// transaction's branch and its CSeq names `method` (RFC 3261 Section 17.1.3).
pub open spec fn spec_response_matches(
    vias: Seq<Option<String>>,
    cseq: Option<(u32, MethodView)>,
    branch: Seq<char>,
    method: MethodView,
) -> bool {
    &&& top_branch(vias) == Some(branch)
    &&& cseq matches Some(c) && c.1 == method
}

/// Whether a response belongs to the client transaction `key` whose request
/// had method `original_method`.
pub fn response_matches_transaction(
    response: &ResponseInfo,
    key: &TransactionKey,
    original_method: &Method,
) -> (r: bool)
    ensures
        r == spec_response_matches(
            response.via_branches@,
            opt_cseq(response.cseq),
            key.branch@,
            original_method@,
        ),
{
    match first_branch(&response.via_branches) {
        Some(b) => {
            if *b != key.branch {
                return false;
            }
        },
        None => return false,
    }
    match &response.cseq {
        Some(c) => c.method.same_as(original_method),
        None => false,
    }
}

/// Whether a response matches a client transaction: the top Via branch is
/// the key's and the CSeq method is the key's.
pub fn client_transaction_matches(response: &ResponseInfo, key: &TransactionKey) -> (r: bool)
    ensures
        r == spec_response_matches(
            response.via_branches@,
            opt_cseq(response.cseq),
            key.branch@,
            key.method@,
        ),
{
    response_matches_transaction(response, key, &key.method)
}

/// A response belongs to a client transaction exactly when its top-most Via
/// carries the transaction's branch and its CSeq names the transaction's
/// method (RFC 3261 Section 17.1.3); a response without a Via, whose top Via
/// has no branch, or without a CSeq never matches.
pub proof fn lemma_response_matching_follows_rfc(
    vias: Seq<Option<String>>,
    cseq: Option<(u32, MethodView)>,
    branch: Seq<char>,
    method: MethodView,
)
    ensures
        spec_response_matches(vias, cseq, branch, method) <==> (vias.len() > 0 && vias[0] is Some
            && vias[0].unwrap()@ == branch && cseq is Some && cseq.unwrap().1 == method),
{
}

} // verus!
