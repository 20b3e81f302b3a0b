//! What holds of every table, whatever pads it was made with.
use vstd::prelude::*;
use vstd::utf8::{decode_utf8, encode_utf8, encode_utf8_decode_utf8};

use crate::codec::{lemma_unmask_mask, mask_all, pad_of, unmask_all};
use crate::data::nul_terminated;

verus! {

/// Masking bytes with any pads and unmasking the table gives the bytes back,
/// and the table has one unit per byte.
pub proof fn law_round_trip_bytes(payload: Seq<u8>, pads: Seq<u8>)
    requires
        pads.len() == payload.len(),
    ensures
        mask_all(payload, pads).len() == payload.len(),
        unmask_all(mask_all(payload, pads)) == payload,
{
    assert forall|i: int| 0 <= i < payload.len() implies unmask_all(mask_all(payload, pads))[i]
        == payload[i] by {
        lemma_unmask_mask(payload[i], pads[i]);
    }
    assert(unmask_all(mask_all(payload, pads)) =~= payload);
}

/// A text masked with any pads unmasks to its UTF-8 bytes, which read back as
/// the same text.
pub proof fn law_round_trip_text(text: Seq<char>, pads: Seq<u8>)
    requires
        pads.len() == encode_utf8(text).len(),
    ensures
        mask_all(encode_utf8(text), pads).len() == encode_utf8(text).len(),
        unmask_all(mask_all(encode_utf8(text), pads)) == encode_utf8(text),
        decode_utf8(unmask_all(mask_all(encode_utf8(text), pads))) == text,
{
    law_round_trip_bytes(encode_utf8(text), pads);
    encode_utf8_decode_utf8(text);
}

/// A C string without NUL, with its closing NUL added and masked with any
/// pads, has one more unit than it has bytes and unmasks to a NUL-terminated
/// string whose content is the C string.
pub proof fn law_round_trip_cstr(content: Seq<u8>, pads: Seq<u8>)
    requires
        forall|i: int| 0 <= i < content.len() ==> content[i] != 0u8,
        pads.len() == content.len() + 1,
    ensures
        mask_all(content.push(0u8), pads).len() == content.len() + 1,
        nul_terminated(unmask_all(mask_all(content.push(0u8), pads))),
        unmask_all(mask_all(content.push(0u8), pads)).drop_last() == content,
{
    law_round_trip_bytes(content.push(0u8), pads);
    let with_nul = content.push(0u8);
    assert forall|i: int| 0 <= i < with_nul.len() - 1 implies with_nul[i] != 0u8 by {
        assert(with_nul[i] == content[i]);
    }
    assert(with_nul.drop_last() =~= content);
}

/// Two tables of one payload both unmask to it, and they are equal exactly
/// when their pads are.
pub proof fn law_pads_decide_table(payload: Seq<u8>, pads1: Seq<u8>, pads2: Seq<u8>)
    requires
        pads1.len() == payload.len(),
        pads2.len() == payload.len(),
    ensures
        unmask_all(mask_all(payload, pads1)) == unmask_all(mask_all(payload, pads2)),
        (mask_all(payload, pads1) == mask_all(payload, pads2)) <==> (pads1 == pads2),
{
    law_round_trip_bytes(payload, pads1);
    law_round_trip_bytes(payload, pads2);
    if mask_all(payload, pads1) == mask_all(payload, pads2) {
        assert forall|i: int| 0 <= i < payload.len() implies pads1[i] == pads2[i] by {
            lemma_unmask_mask(payload[i], pads1[i]);
            lemma_unmask_mask(payload[i], pads2[i]);
            assert(pad_of(mask_all(payload, pads1)[i]) == pads1[i]);
            assert(pad_of(mask_all(payload, pads2)[i]) == pads2[i]);
        }
        assert(pads1 =~= pads2);
    }
}

} // verus!
