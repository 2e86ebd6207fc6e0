//! Comparing text in verified code.

use vstd::prelude::*;
use vstd::utf8::{encode_utf8, encode_utf8_decode_utf8};

verus! {

/// Whether two string slices hold the same text.
///
/// The slices are compared byte by byte. Equal bytes mean equal text because
/// the UTF-8 encoding of a text decodes back to it.
pub fn same_text(a: &str, b: &str) -> (same: bool)
    ensures
        same == (a@ == b@),
{
    let left = a.as_bytes();
    let right = b.as_bytes();
    proof {
        encode_utf8_decode_utf8(a@);
        encode_utf8_decode_utf8(b@);
    }
    if left.len() != right.len() {
        return false;
    }
    let mut i: usize = 0;
    while i < left.len()
        invariant
            i <= left.len(),
            left.len() == right.len(),
            left@ == encode_utf8(a@),
            right@ == encode_utf8(b@),
            forall|j: int| 0 <= j < i ==> left@[j] == right@[j],
        decreases left.len() - i,
    {
        if left[i] != right[i] {
            return false;
        }
        i = i + 1;
    }
    assert(left@ =~= right@);
    true
}

/// Whether bytes are a string as the host reads one: they end in a zero byte
/// and hold no other.
pub open spec fn c_string(bytes: Seq<u8>) -> bool {
    &&& bytes.len() > 0
    &&& bytes[bytes.len() - 1] == 0
    &&& forall|i: int| 0 <= i < bytes.len() - 1 ==> bytes[i] != 0
}

/// Whether bytes are a string as the host reads one. The names in the
/// description of a plugin have to be such strings.
pub fn is_c_string(bytes: &[u8]) -> (well_formed: bool)
    ensures
        well_formed == c_string(bytes@),
{
    let length = bytes.len();
    if length == 0 {
        return false;
    }
    if bytes[length - 1] != 0 {
        return false;
    }
    let mut i: usize = 0;
    while i < length - 1
        invariant
            length == bytes@.len(),
            length > 0,
            i <= length - 1,
            bytes@[length - 1] == 0,
            forall|j: int| 0 <= j < i ==> bytes@[j] != 0,
        decreases length - 1 - i,
    {
        if bytes[i] == 0 {
            return false;
        }
        i = i + 1;
    }
    true
}

} // verus!
