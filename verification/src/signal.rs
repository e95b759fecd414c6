//! Text encoding of signalling payloads.

use vstd::prelude::*;
use vstd::string::StringSliceAdditionalSpecFns;

verus! {

/// The base64 text, in the standard alphabet with padding, of the UTF-8
/// bytes of `input`.
pub uninterp spec fn base64_text(input: Seq<char>) -> Seq<char>;

/// Number of characters that padded base64 takes for `bytes` bytes of input:
/// four for every three bytes, the last group filled up.
pub open spec fn base64_len(bytes: nat) -> nat {
    4 * ((bytes + 2) / 3)
}

/// Encodes the input in base64.
///
/// Calls `base64::encode`. Trusted: the result is the standard padded base64
/// text of the bytes of `b`, and so has four characters for every three
/// bytes of input, the last group padded.
#[verifier::external_body]
pub fn encode(b: &str) -> (text: String)
    ensures
        text@ == base64_text(b@),
        text@.len() == base64_len(b.spec_bytes().len()),
{
    base64::encode(b)
}

} // verus!
