//! Topic matcher: exact, case-sensitive comparison of a discovered topic name
//! with the configured target name.
//!
//! A discovered name arrives as the bytes of a C string. It counts as text
//! only if those bytes are well-formed UTF-8; a name that is not text never
//! matches and is reported as an error of its own, so that a corrupted
//! discovery record is not mistaken for an ordinary mismatch.

use vstd::prelude::*;
use vstd::string::*;
use vstd::utf8::*;

verus! {

/// The discovered name is not valid text.
#[derive(Clone, Copy, Debug, PartialEq, Eq, Structural)]
pub struct NotText;

/// What the matcher says of the name bytes `name` against the target text
/// `target`: an error if the bytes are not text, otherwise whether the text
/// they encode is exactly the target.
pub open spec fn match_outcome(name: Seq<u8>, target: Seq<char>) -> Result<bool, NotText> {
    if valid_utf8(name) {
        Ok(decode_utf8(name) == target)
    } else {
        Err(NotText)
    }
}

/// Whether `name` is text and that text is exactly `target`.
pub open spec fn is_match(name: Seq<u8>, target: Seq<char>) -> bool {
    match_outcome(name, target) == Ok::<bool, NotText>(true)
}

/// A name matches a target exactly when its bytes are the target's encoding.
pub proof fn lemma_match_is_byte_equality(name: Seq<u8>, target: Seq<char>)
    ensures
        is_match(name, target) <==> name == encode_utf8(target),
{
    broadcast use {encode_utf8_valid_utf8, encode_utf8_decode_utf8};

    if valid_utf8(name) && decode_utf8(name) == target {
        decode_utf8_encode_utf8(name);
    }
}

/// Calls `core::str::from_utf8`. The standard library documents that it
/// succeeds exactly on well-formed UTF-8 and that the string slice it returns
/// is the given bytes seen as text. The error it returns otherwise is
/// dropped.
#[verifier::external_body]
fn decode_text<'a>(bytes: &'a [u8]) -> (text: Option<&'a str>)
    ensures
        text is Some <==> valid_utf8(bytes@),
        text matches Some(s) ==> s.spec_bytes() == bytes@,
{
    core::str::from_utf8(bytes).ok()
}

/// Compares two byte slices element by element.
fn same_bytes(a: &[u8], b: &[u8]) -> (same: bool)
    ensures
        same == (a@ == b@),
{
    if a.len() != b.len() {
        return false;
    }
    let mut i: usize = 0;
    while i < a.len()
        invariant
            a.len() == b.len(),
            i <= a.len(),
            forall|k: int| 0 <= k < i ==> a@[k] == b@[k],
        decreases a.len() - i,
    {
        if a[i] != b[i] {
            return false;
        }
        i = i + 1;
    }
    assert(a@ =~= b@);
    true
}

/// Decides whether the discovered topic name `name` is the target.
///
/// Returns `Err(NotText)` exactly when `name` is not well-formed UTF-8.
/// Otherwise returns whether the decoded name equals `target`, character for
/// character.
pub fn matches(name: &[u8], target: &str) -> (res: Result<bool, NotText>)
    ensures
        res == match_outcome(name@, target@),
{
    match decode_text(name) {
        None => Err(NotText),
        Some(text) => {
            proof {
                encode_utf8_decode_utf8(text@);
                lemma_match_is_byte_equality(name@, target@);
            }
            Ok(same_bytes(text.as_bytes(), target.as_bytes()))
        },
    }
}

} // verus!
