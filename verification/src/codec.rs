//! Base64 text, in which the sibling memory service carries bytes.

use vstd::prelude::*;

verus! {

/// The base64 text of `bytes`, as `base64::encode` writes it: standard
/// alphabet, padded. Nothing but the name is known of it here.
pub uninterp spec fn base64_text(bytes: Seq<u8>) -> Seq<char>;

/// The bytes that `base64::decode` reads out of `text`, or `None` where it
/// refuses the text. Nothing but the name is known of it here.
pub uninterp spec fn base64_bytes(text: Seq<char>) -> Option<Seq<u8>>;

/// `base64::DecodeError`, of which nothing is read here.
#[verifier::external_type_specification]
#[verifier::external_body]
pub struct ExDecodeError(base64::DecodeError);

/// Calls `base64::encode`. Trusted: the text returned is the one that
/// [`base64_text`] names. The call panics where the length of the text would
/// not fit in a `usize`, which the precondition leaves out.
#[verifier::external_body]
pub(crate) fn encode(bytes: &Vec<u8>) -> (text: String)
    requires
        bytes@.len() / 3 * 4 + 4 <= usize::MAX,
    ensures
        text@ == base64_text(bytes@),
{
    base64::encode(bytes)
}

/// Calls `base64::decode`. Trusted: the bytes returned are those that
/// [`base64_bytes`] names, and the call fails exactly where that is `None`.
#[verifier::external_body]
pub(crate) fn decode(text: &str) -> (decoded: Result<Vec<u8>, base64::DecodeError>)
    ensures
        match decoded {
            Ok(bytes) => base64_bytes(text@) == Some(bytes@),
            Err(_) => base64_bytes(text@) is None,
        },
{
    base64::decode(text)
}

} // verus!
