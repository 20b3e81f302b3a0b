//! The three kinds of data a table can decode to, each with the rule its bytes obey.
use vstd::prelude::*;
use vstd::utf8::valid_utf8;

verus! {

/// A kind of data that decoded bytes are read as.
pub trait Data {
    /// Whether `bytes` are a valid value of this kind.
    spec fn valid(bytes: Seq<u8>) -> bool;
}

/// UTF-8 text.
pub struct Text;

/// Raw bytes, with no rule on them.
pub struct Bytes;

/// A C string: bytes with no NUL but the one at the end.
pub struct CText;

/// Whether `bytes` end with the one NUL they hold.
pub open spec fn nul_terminated(bytes: Seq<u8>) -> bool {
    &&& bytes.len() >= 1
    &&& bytes.last() == 0u8
    &&& forall|i: int| 0 <= i < bytes.len() - 1 ==> bytes[i] != 0u8
}

impl Data for Text {
    open spec fn valid(bytes: Seq<u8>) -> bool {
        valid_utf8(bytes)
    }
}

impl Data for Bytes {
    open spec fn valid(bytes: Seq<u8>) -> bool {
        true
    }
}

impl Data for CText {
    open spec fn valid(bytes: Seq<u8>) -> bool {
        nul_terminated(bytes)
    }
}

} // verus!
