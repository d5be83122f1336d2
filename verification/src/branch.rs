use vstd::prelude::*;

verus! {

/// The magic cookie that starts every RFC 3261 branch parameter.
pub const RFC3261_BRANCH_MAGIC_COOKIE: &'static str = "z9hG4bK";

/// A lowercase hexadecimal digit.
pub open spec fn is_lower_hex(c: char) -> bool {
    ('0' <= c && c <= '9') || ('a' <= c && c <= 'f')
}

/// Calls `uuid::Uuid::new_v4` and renders it with `as_simple`: a random
/// version 4 UUID as 32 lowercase hexadecimal digits. Only the shape of the
/// text is claimed; its digits are random.
#[verifier::external_body]
fn random_uuid_simple() -> (s: String)
    ensures
        s@.len() == 32,
        forall|i: int| 0 <= i < 32 ==> is_lower_hex(#[trigger] s@[i]),
{
    uuid::Uuid::new_v4().as_simple().to_string()
}

/// A branch parameter made of the magic cookie and a random UUID.
pub open spec fn is_generated_branch(b: Seq<char>) -> bool {
    &&& b.len() == 39
    &&& b.subrange(0, 7) == "z9hG4bK"@
    &&& forall|i: int| 7 <= i < 39 ==> is_lower_hex(#[trigger] b[i])
}

/// A fresh branch parameter: `z9hG4bK` followed by a random UUID in simple form.
pub fn generate_branch() -> (b: String)
    ensures
        is_generated_branch(b@),
{
    proof {
        reveal_strlit("z9hG4bK");
    }
    let u = random_uuid_simple();
    let b = String::from_str(RFC3261_BRANCH_MAGIC_COOKIE).concat(u.as_str());
    assert(b@.subrange(0, 7) =~= "z9hG4bK"@);
    assert forall|i: int| 7 <= i < 39 implies is_lower_hex(#[trigger] b@[i]) by {
        assert(b@[i] == u@[i - 7]);
    }
    b
}

/// A fresh random token of 32 lowercase hexadecimal digits, as used for tags.
pub fn generate_token() -> (t: String)
    ensures
        t@.len() == 32,
        forall|i: int| 0 <= i < 32 ==> is_lower_hex(#[trigger] t@[i]),
{
    random_uuid_simple()
}

/// The text of a UUID in hyphenated form: 36 characters, hyphens at 8, 13,
/// 18 and 23, lowercase hexadecimal digits elsewhere.
pub open spec fn is_uuid_text(u: Seq<char>) -> bool {
    &&& u.len() == 36
    &&& forall|i: int|
        0 <= i < 36 ==> if i == 8 || i == 13 || i == 18 || i == 23 {
            #[trigger] u[i] == '-'
        } else {
            is_lower_hex(u[i])
        }
}

/// Calls `uuid::Uuid::new_v4` and renders it with `to_string`, whose
/// `Display` is the lowercase hyphenated form. Only the shape of the text is
/// claimed; its digits are random.
#[verifier::external_body]
fn random_uuid_hyphenated() -> (s: String)
    ensures
        is_uuid_text(s@),
{
    uuid::Uuid::new_v4().to_string()
}

/// A generated tag: `tag-` followed by 32 lowercase hexadecimal digits.
pub open spec fn is_generated_tag(t: Seq<char>) -> bool {
    &&& t.len() == 36
    &&& t.subrange(0, 4) == "tag-"@
    &&& forall|i: int| 4 <= i < 36 ==> is_lower_hex(#[trigger] t[i])
}

/// A fresh tag for a From or To header field: `tag-` and a random UUID in
/// simple form.
pub fn generate_tag() -> (t: String)
    ensures
        is_generated_tag(t@),
{
    proof {
        reveal_strlit("tag-");
    }
    let u = random_uuid_simple();
    let t = String::from_str("tag-").concat(u.as_str());
    assert(t@.subrange(0, 4) =~= "tag-"@);
    assert forall|i: int| 4 <= i < 36 implies is_lower_hex(#[trigger] t@[i]) by {
        assert(t@[i] == u@[i - 4]);
    }
    t
}

/// An identifier made of `prefix` and a random UUID in hyphenated form.
pub open spec fn is_generated_id(prefix: Seq<char>, id: Seq<char>) -> bool {
    &&& id.len() == prefix.len() + 36
    &&& id.subrange(0, prefix.len() as int) == prefix
    &&& is_uuid_text(id.subrange(prefix.len() as int, id.len() as int))
}

/// A fresh identifier: `prefix` followed by a random UUID in hyphenated form,
/// as used for Call-IDs.
pub fn generate_id(prefix: &str) -> (id: String)
    ensures
        is_generated_id(prefix@, id@),
{
    let u = random_uuid_hyphenated();
    let id = String::from_str(prefix).concat(u.as_str());
    assert(id@.subrange(0, prefix@.len() as int) =~= prefix@);
    assert(id@.subrange(prefix@.len() as int, id@.len() as int) =~= u@);
    id
}

} // verus!
