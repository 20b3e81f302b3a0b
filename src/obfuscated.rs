//! An obfuscated table tagged with its kind, and the buffer that decoding it gives.
use core::marker::PhantomData;
use vstd::prelude::*;
use vstd::string::StringSliceAdditionalSpecFns;
use vstd::utf8::{decode_utf8, encode_utf8_decode_utf8, valid_utf8};

use crate::codec::{decode, unmask_all, wipe};
use crate::data::{nul_terminated, CText, Data, Text};

verus! {

/// A table of masked units that decodes to a valid value of kind `T`.
pub struct Obfuscated<T: Data> {
    marker: PhantomData<T>,
    data: Vec<u16>,
}

impl<T: Data> View for Obfuscated<T> {
    type V = Seq<u16>;

    closed spec fn view(&self) -> Seq<u16> {
        self.data@
    }
}

impl<T: Data> Obfuscated<T> {
    #[verifier::type_invariant]
    spec fn decodes_valid(self) -> bool {
        T::valid(unmask_all(self.data@))
    }

    /// Takes a table that is already masked. It must decode to a valid value of
    /// kind `T`.
    pub fn new_unchecked(data: Vec<u16>) -> (r: Self)
        requires
            T::valid(unmask_all(data@)),
        ensures
            r@ == data@,
    {
        Obfuscated { marker: PhantomData, data }
    }

    /// The masked units, in order.
    pub fn units(&self) -> (r: &[u16])
        ensures
            r@ == self@,
    {
        self.data.as_slice()
    }

    /// Decodes the table into a fresh buffer.
    pub fn decrypt(&self) -> (r: Decrypted<T>)
        ensures
            r@ == unmask_all(self@),
            r.wf(),
    {
        proof {
            use_type_invariant(self);
        }
        Decrypted { marker: PhantomData, data: decode(self.data.as_slice()) }
    }
}

/// Decoded bytes of kind `T`, owned, and overwritten with zeroes when dropped.
pub struct Decrypted<T: Data> {
    marker: PhantomData<T>,
    data: Vec<u8>,
}

impl<T: Data> View for Decrypted<T> {
    type V = Seq<u8>;

    closed spec fn view(&self) -> Seq<u8> {
        self.data@
    }
}

impl<T: Data> Decrypted<T> {
    /// The bytes are a valid value of kind `T`. This is no type invariant:
    /// `drop` zeroes the buffer, and a zeroed C string is not a valid one.
    pub open spec fn wf(&self) -> bool {
        T::valid(self@)
    }

    /// The decoded bytes.
    pub fn as_inner(&self) -> (r: &[u8])
        ensures
            r@ == self@,
    {
        self.data.as_slice()
    }

    /// The number of decoded bytes.
    pub fn len(&self) -> (r: usize)
        ensures
            r == self@.len(),
    {
        self.data.len()
    }
}

/// Relies on std::str::from_utf8: `Some` exactly when the bytes are valid
/// UTF-8, and then a string with those bytes.
#[verifier::external_body]
fn str_from_utf8(bytes: &[u8]) -> (r: Option<&str>)
    ensures
        r is Some <==> valid_utf8(bytes@),
        r matches Some(s) ==> s.spec_bytes() == bytes@,
{
    std::str::from_utf8(bytes).ok()
}

impl Decrypted<Text> {
    /// The decoded text.
    pub fn as_str(&self) -> (r: &str)
        requires
            self.wf(),
        ensures
            r.spec_bytes() == self@,
            r@ == decode_utf8(self@),
    {
        let r = match str_from_utf8(self.data.as_slice()) {
            Some(s) => s,
            None => "",
        };
        proof {
            encode_utf8_decode_utf8(r@);
        }
        r
    }
}

impl Decrypted<CText> {
    /// The C string's bytes, without the closing NUL.
    pub fn to_bytes(&self) -> (r: &[u8])
        requires
            self.wf(),
        ensures
            r@ == self@.drop_last(),
            forall|i: int| 0 <= i < r@.len() ==> r@[i] != 0u8,
    {
        let n = self.data.len();
        vstd::slice::slice_subrange(self.data.as_slice(), 0, n - 1)
    }

    /// The C string's bytes, with the closing NUL.
    pub fn to_bytes_with_nul(&self) -> (r: &[u8])
        requires
            self.wf(),
        ensures
            r@ == self@,
            nul_terminated(r@),
    {
        self.data.as_slice()
    }
}

impl<T: Data> std::ops::Deref for Decrypted<T> {
    type Target = [u8];

    fn deref(&self) -> (r: &[u8])
        ensures
            r@ == self@,
    {
        self.as_inner()
    }
}

impl<T: Data> AsRef<[u8]> for Decrypted<T> {
    fn as_ref(&self) -> (r: &[u8])
        ensures
            r@ == self@,
    {
        self.as_inner()
    }
}

impl<T: Data> Drop for Decrypted<T> {
    /// Overwrites every decoded byte with zero before the buffer is freed.
    fn drop(&mut self)
        ensures
            final(self)@ == Seq::new(old(self)@.len(), |i: int| 0u8),
        opens_invariants none
        no_unwind
    {
        wipe(&mut self.data);
    }
}

} // verus!
