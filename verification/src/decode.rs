//! Direct byte-to-code-point decoding of raw command output.
//!
//! Each output byte (0..=255) becomes the character whose code point equals
//! the byte's value. This is deliberately not UTF-8 validation: non-text or
//! non-ASCII bytes are preserved without loss or substitution, and the
//! decoded text has exactly one character per input byte.

use vstd::prelude::*;

verus! {

/// The decoding of a byte sequence: the i-th character's code point equals
/// the value of the i-th byte.
pub open spec fn decoded(bytes: Seq<u8>) -> Seq<char> {
    Seq::new(bytes.len(), |i: int| bytes[i] as char)
}

/// Relies on String::push: appends the given character at the end.
#[verifier::external_body]
fn push_char(s: &mut String, c: char)
    ensures
        final(s)@ == old(s)@.push(c),
{
    s.push(c);
}

/// Decode raw output bytes into text, one character per byte, never through
/// a text-encoding validator.
pub fn ascii_bytes_to_string(bytes: Vec<u8>) -> (result: String)
    ensures
        result@ == decoded(bytes@),
        result@.len() == bytes@.len(),
        forall|i: int| 0 <= i < bytes@.len() ==> result@[i] == bytes@[i] as char,
{
    let mut result = String::new();
    let mut k: usize = 0;
    while k < bytes.len()
        invariant
            k <= bytes.len(),
            result@ == decoded(bytes@).take(k as int),
        decreases bytes.len() - k,
    {
        push_char(&mut result, bytes[k] as char);
        k = k + 1;
        proof {
            assert(result@ =~= decoded(bytes@).take(k as int));
        }
    }
    proof {
        assert(result@ =~= decoded(bytes@));
    }
    result
}

} // verus!
