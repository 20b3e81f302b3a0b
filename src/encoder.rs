//! Building tables from the three kinds of literal value.
use vstd::prelude::*;
use vstd::string::StringSliceAdditionalSpecFns;
use vstd::utf8::{encode_utf8, encode_utf8_valid_utf8};

use crate::codec::{encode, unmask_all};
use crate::data::{nul_terminated, Bytes, CText, Text};
use crate::obfuscated::Obfuscated;

verus! {

/// Obfuscates the UTF-8 bytes of a string.
pub fn obfuscate_str(value: &str) -> (r: Obfuscated<Text>)
    ensures
        unmask_all(r@) == encode_utf8(value@),
        unmask_all(r@) == value.spec_bytes(),
        r@.len() == value.spec_bytes().len(),
{
    let bytes = value.as_bytes();
    let units = encode(bytes);
    proof {
        encode_utf8_valid_utf8(value@);
    }
    Obfuscated::new_unchecked(units)
}

/// Obfuscates a byte string.
pub fn obfuscate_byte_str(value: &[u8]) -> (r: Obfuscated<Bytes>)
    ensures
        unmask_all(r@) == value@,
        r@.len() == value@.len(),
{
    Obfuscated::new_unchecked(encode(value))
}

/// Obfuscates the bytes of a C string, which hold no NUL, followed by the
/// closing NUL.
pub fn obfuscate_cstr(value: &[u8]) -> (r: Obfuscated<CText>)
    requires
        forall|i: int| 0 <= i < value@.len() ==> value@[i] != 0u8,
    ensures
        unmask_all(r@) == value@.push(0u8),
        r@.len() == value@.len() + 1,
{
    let mut with_nul = vstd::slice::slice_to_vec(value);
    with_nul.push(0u8);
    assert(with_nul@ =~= value@.push(0u8));
    let units = encode(with_nul.as_slice());
    assert(nul_terminated(value@.push(0u8))) by {
        assert(value@.push(0u8).last() == 0u8);
        assert forall|j: int| 0 <= j < value@.push(0u8).len() - 1 implies value@.push(0u8)[j]
            != 0u8 by {
            assert(value@.push(0u8)[j] == value@[j]);
        }
    }
    Obfuscated::new_unchecked(units)
}

} // verus!
