//! The binary-safe text encoding used for captured program output.
//!
//! Captured stdout/stderr text is embedded into the structured report
//! through a binary-safe encoding, so arbitrary bytes and control
//! characters cannot corrupt the report format.

use vstd::prelude::*;

verus! {

/// What the binary-safe text encoding returns for a given piece of text.
/// The encoding of a text is a function of its characters alone; contracts
/// speak of the encoded output through this name.
pub uninterp spec fn base64_of(s: Seq<char>) -> Seq<char>;

/// Relies on base64's `Engine::encode` with the `STANDARD` engine: the
/// result is a function of the input bytes alone, hence of the input
/// text's characters.
#[verifier::external_body]
pub(crate) fn encode_output(s: &str) -> (r: String)
    ensures
        r@ == base64_of(s@),
{
    base64::Engine::encode(&base64::engine::general_purpose::STANDARD, s)
}

} // verus!
