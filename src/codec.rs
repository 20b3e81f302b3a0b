//! Masking of single bytes into 16-bit units, and of whole byte strings into tables.
use vstd::prelude::*;

verus! {

/// The unit that stands for `byte` masked with `pad`: the masked byte in the
/// low half, the pad in the high half.
pub open spec fn mask(byte: u8, pad: u8) -> u16 {
    ((byte ^ pad) as u16) | ((pad as u16) << 8u16)
}

/// The byte a unit stands for: its low byte XOR its high byte.
pub open spec fn unmask(unit: u16) -> u8 {
    ((unit & 0xffu16) as u8) ^ ((unit >> 8u16) as u8)
}

/// The pad kept in the high half of a unit.
pub open spec fn pad_of(unit: u16) -> u8 {
    (unit >> 8u16) as u8
}

/// The bytes a table of units stands for, position by position.
pub open spec fn unmask_all(units: Seq<u16>) -> Seq<u8> {
    Seq::new(units.len(), |i: int| unmask(units[i]))
}

/// Unmasking a masked byte gives the byte back, whatever the pad, and the pad
/// stays readable in the unit.
pub proof fn lemma_unmask_mask(byte: u8, pad: u8)
    ensures
        unmask(mask(byte, pad)) == byte,
        pad_of(mask(byte, pad)) == pad,
{
    assert(((((byte ^ pad) as u16) | ((pad as u16) << 8u16)) & 0xffu16) as u8 ^ (((((byte ^ pad)
        as u16) | ((pad as u16) << 8u16)) >> 8u16) as u8) == byte) by (bit_vector);
    assert((((((byte ^ pad) as u16) | ((pad as u16) << 8u16)) >> 8u16) as u8) == pad)
        by (bit_vector);
}

/// The table of `bytes` masked with `pads`, position by position.
pub open spec fn mask_all(bytes: Seq<u8>, pads: Seq<u8>) -> Seq<u16> {
    Seq::new(bytes.len(), |i: int| mask(bytes[i], pads[i]))
}

/// Masks one byte with one pad.
pub fn mask_unit(byte: u8, pad: u8) -> (r: u16)
    ensures
        r == mask(byte, pad),
        unmask(r) == byte,
        pad_of(r) == pad,
{
    proof {
        lemma_unmask_mask(byte, pad);
    }
    ((byte ^ pad) as u16) | ((pad as u16) << 8u16)
}

/// Recovers the byte a unit stands for.
pub fn unmask_unit(unit: u16) -> (r: u8)
    ensures
        r == unmask(unit),
{
    let low = (unit & 0xffu16) as u8;
    let high = (unit >> 8u16) as u8;
    low ^ high
}

/// Masks each byte with the pad at the same position.
pub fn mask_with_pads(bytes: &[u8], pads: &[u8]) -> (r: Vec<u16>)
    requires
        bytes@.len() == pads@.len(),
    ensures
        r@.len() == bytes@.len(),
        r@ == mask_all(bytes@, pads@),
        unmask_all(r@) == bytes@,
{
    let mut r: Vec<u16> = Vec::with_capacity(bytes.len());
    let mut i: usize = 0;
    while i < bytes.len()
        invariant
            bytes@.len() == pads@.len(),
            i <= bytes@.len(),
            r@.len() == i,
            forall|j: int| 0 <= j < i ==> r@[j] == mask(bytes@[j], pads@[j]),
            forall|j: int| 0 <= j < i ==> unmask(r@[j]) == bytes@[j],
        decreases bytes@.len() - i,
    {
        r.push(mask_unit(bytes[i], pads[i]));
        i = i + 1;
    }
    assert(unmask_all(r@) =~= bytes@);
    assert(r@ =~= mask_all(bytes@, pads@));
    r
}

/// Relies on rand::random::<u8>: some byte, drawn from the thread-local
/// generator. Nothing is promised of which one. It fails only where the
/// operating system cannot seed that generator, whatever the caller passes.
#[verifier::external_body]
fn random_pad() -> (r: u8) {
    rand::random::<u8>()
}

/// Masks each byte with a pad drawn at random for it. Whatever pads are
/// drawn, the table unmasks to `bytes`.
pub fn encode(bytes: &[u8]) -> (r: Vec<u16>)
    ensures
        r@.len() == bytes@.len(),
        unmask_all(r@) == bytes@,
{
    let mut r: Vec<u16> = Vec::with_capacity(bytes.len());
    let mut i: usize = 0;
    while i < bytes.len()
        invariant
            i <= bytes@.len(),
            r@.len() == i,
            forall|j: int| 0 <= j < i ==> unmask(r@[j]) == bytes@[j],
        decreases bytes@.len() - i,
    {
        let pad = random_pad();
        r.push(mask_unit(bytes[i], pad));
        i = i + 1;
    }
    assert(unmask_all(r@) =~= bytes@);
    r
}

/// Relies on std::hint::black_box: the identity, which the optimizer must
/// treat as reading its argument, so reads and writes around it are kept.
#[verifier::external_body]
fn opaque<T>(value: T) -> (r: T)
    ensures
        r == value,
    opens_invariants none
    no_unwind
{
    std::hint::black_box(value)
}

/// Recovers the bytes a table stands for, into a new buffer.
pub fn decode(units: &[u16]) -> (r: Vec<u8>)
    ensures
        r@ == unmask_all(units@),
{
    let mut r: Vec<u8> = Vec::with_capacity(units.len());
    let mut i: usize = 0;
    while i < units.len()
        invariant
            i <= units@.len(),
            r@.len() == i,
            forall|j: int| 0 <= j < i ==> r@[j] == unmask(units@[j]),
        decreases units@.len() - i,
    {
        let unit = opaque(units[i]);
        r.push(unmask_unit(unit));
        i = i + 1;
    }
    assert(r@ =~= unmask_all(units@));
    r
}

/// Relies on <[u8]>::fill: every byte is set to zero. A loop over `Vec`
/// cannot stand here: `drop` calls this, and Verus may neither unwind nor open
/// invariants there, which vstd's `len`, `set` and indexing do not promise.
#[verifier::external_body]
fn zero_fill(bytes: &mut Vec<u8>)
    ensures
        final(bytes)@ == Seq::new(old(bytes)@.len(), |i: int| 0u8),
    opens_invariants none
    no_unwind
{
    bytes.fill(0u8);
}

/// Overwrites every byte with zero, in a way the optimizer keeps.
pub fn wipe(bytes: &mut Vec<u8>)
    ensures
        final(bytes)@ == Seq::new(old(bytes)@.len(), |i: int| 0u8),
    opens_invariants none
    no_unwind
{
    zero_fill(bytes);
    opaque(&*bytes);
}

} // verus!
