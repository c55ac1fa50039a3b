//! JSON text: string literals as `serde_json` writes them, and flat objects
//! of string keys with number or string values.

use vstd::prelude::*;

use crate::text::int_text;

verus! {

/// `serde_json::to_string` of the string `s`: `s` as a JSON string literal,
/// quotes included.
pub uninterp spec fn serde_json_string(s: Seq<char>) -> Seq<char>;

#[verifier::external_type_specification]
#[verifier::external_body]
pub struct ExSerdeJsonError(serde_json::Error);

/// Calls `serde_json::to_string(s)`. The contract names the result (a
/// function of `s` alone) and claims that the call succeeds: a string is
/// written into a `Vec<u8>`, which never fails.
#[verifier::external_body]
fn json_string_literal(s: &str) -> (r: Result<String, serde_json::Error>)
    ensures
        r is Ok,
        r matches Ok(t) ==> t@ == serde_json_string(s@),
{
    serde_json::to_string(s)
}

/// Appends `s` to `out` as a JSON string literal.
pub fn push_json_string(out: &mut String, s: &str)
    ensures
        final(out)@ == old(out)@ + serde_json_string(s@),
{
    match json_string_literal(s) {
        Ok(t) => out.append(t.as_str()),
        Err(_) => {},
    }
}

/// One member of a flat JSON object: a key with a number or a string.
pub enum JsonMember {
    Number(Seq<char>, int),
    Text(Seq<char>, Seq<char>),
}

/// The text of one member: the key as a JSON string, a colon, the value.
pub open spec fn member_text(m: JsonMember) -> Seq<char> {
    match m {
        JsonMember::Number(k, n) => serde_json_string(k) + seq![':'] + int_text(n),
        JsonMember::Text(k, v) => serde_json_string(k) + seq![':'] + serde_json_string(v),
    }
}

/// The members of an object, separated by commas.
pub open spec fn members_text(ms: Seq<JsonMember>) -> Seq<char>
    decreases ms.len(),
{
    if ms.len() == 0 {
        Seq::<char>::empty()
    } else if ms.len() == 1 {
        member_text(ms[0])
    } else {
        members_text(ms.drop_last()) + seq![','] + member_text(ms.last())
    }
}

/// The JSON object of the members `ms`, without white space.
pub open spec fn object_text(ms: Seq<JsonMember>) -> Seq<char> {
    seq!['{'] + members_text(ms) + seq!['}']
}

} // verus!
