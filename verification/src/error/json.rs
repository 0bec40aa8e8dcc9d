use vstd::prelude::*;

verus! {

/// `serde_json::Error`, which is carried and never looked into.
#[verifier::external_type_specification]
#[verifier::external_body]
pub struct ExJsonError(serde_json::Error);

/// The JSON string literal that stands for `text`: the text between double
/// quotes, with the characters that JSON cannot hold as they are written as
/// escapes.
pub uninterp spec fn json_string(text: Seq<char>) -> Seq<char>;

/// `serde_json::to_string`, on a string slice. Believed, not proved: the call
/// succeeds, since a string slice always serialises and the buffer that
/// receives it never refuses a write; and what it returns depends on the text
/// alone, which is what gives [`json_string`] its meaning.
#[verifier::external_body]
pub(crate) fn to_json_string(text: &str) -> (quoted: Result<String, serde_json::Error>)
    ensures
        quoted is Ok,
        quoted matches Ok(literal) ==> literal@ == json_string(text@),
{
    serde_json::to_string(text)
}

} // verus!
