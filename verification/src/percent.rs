//! Percent-encoding of device ids, through the `urlencoding` crate.

use vstd::prelude::*;

verus! {

/// What `urlencoding::encode` returns for a text: its UTF-8 bytes with every
/// byte outside `A-Z a-z 0-9 - . _ ~` written as `%` and two upper-case hex
/// digits.
pub uninterp spec fn percent_encoded(text: Seq<char>) -> Seq<char>;

/// What `urlencoding::decode` returns for a text, `None` where the decoded
/// bytes are not UTF-8.
pub uninterp spec fn percent_decoded(text: Seq<char>) -> Option<Seq<char>>;

/// The characters of an optional text.
pub open spec fn optional_text(value: Option<String>) -> Option<Seq<char>> {
    match value {
        Some(text) => Some(text@),
        None => None,
    }
}

/// Calls `urlencoding::encode`; the contract names its result.
#[verifier::external_body]
pub fn percent_encode(text: &str) -> (encoded: String)
    ensures
        encoded@ == percent_encoded(text@),
{
    urlencoding::encode(text).into_owned()
}

/// Calls `urlencoding::decode`, keeping the text when the decoded bytes are
/// UTF-8. The contract names the result and states the crate's round trip:
/// decoding what `encode` produced gives back the text that was encoded.
#[verifier::external_body]
pub fn percent_decode(text: &str) -> (decoded: Option<String>)
    ensures
        optional_text(decoded) == percent_decoded(text@),
        forall|plain: Seq<char>| #[trigger] percent_encoded(plain) == text@ ==> optional_text(decoded) == Some(plain),
{
    match urlencoding::decode(text) {
        Ok(value) => Some(value.into_owned()),
        Err(_) => None,
    }
}

} // verus!
