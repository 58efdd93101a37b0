//! Shapes of single-document store operations, and the validation of the
//! document identifiers requests carry.
//!
//! The store addresses every entity by a 12-byte identifier written as 24
//! hexadecimal characters; a request string that is not of that shape is
//! rejected before any store call.

use vstd::prelude::*;
use vstd::string::StrSliceExecFns;

verus! {

/// What one update-by-id call against a collection came back with: it
/// matched a document, it matched nothing, or the store faulted.
#[derive(Debug, Clone)]
pub enum UpdateAttempt {
    Matched,
    NotMatched,
    Fault(String),
}

/// What one delete-by-id call came back with.
#[derive(Debug, Clone)]
pub enum DeleteAttempt {
    Deleted,
    Missing,
    Fault(String),
}

/// One hexadecimal digit, either case.
pub open spec fn is_hex_digit_char(c: char) -> bool {
    let u = c as u32;
    (48 <= u && u <= 57) || (97 <= u && u <= 102) || (65 <= u && u <= 70)
}

/// A well-formed document identifier: exactly 24 hexadecimal characters,
/// the written form of a 12-byte store identifier.
pub open spec fn spec_object_id_valid(s: Seq<char>) -> bool {
    s.len() == 24 && forall|i: int| 0 <= i < s.len() ==> is_hex_digit_char(#[trigger] s[i])
}

/// Runtime test for `spec_object_id_valid`.
pub fn object_id_valid(s: &str) -> (r: bool)
    ensures
        r == spec_object_id_valid(s@),
{
    let len = s.unicode_len();
    if len != 24 {
        return false;
    }
    let mut i: usize = 0;
    while i < len
        invariant
            0 <= i <= len,
            len == s@.len(),
            forall|j: int| 0 <= j < i ==> is_hex_digit_char(#[trigger] s@[j]),
        decreases len - i,
    {
        let u = s.get_char(i) as u32;
        if !((48 <= u && u <= 57) || (97 <= u && u <= 102) || (65 <= u && u <= 70)) {
            return false;
        }
        i += 1;
    }
    true
}

} // verus!
