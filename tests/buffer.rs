use obfustr::codec::mask_with_pads;
use obfustr::data::{Bytes, Text};
use obfustr::encoder::{obfuscate_byte_str, obfuscate_cstr, obfuscate_str};
use obfustr::obfuscated::Obfuscated;

#[test]
fn byte_str_decodes_to_its_bytes() {
    let decrypted = obfuscate_byte_str(b"hello!").decrypt();
    assert_eq!(decrypted.as_inner(), &[104u8, 101, 108, 108, 111, 33]);
    assert_eq!(decrypted.len(), 6);
}

#[test]
fn cstr_terminator_is_at_position_six() {
    let table = obfuscate_cstr(b"hello!");
    assert_eq!(table.units().len(), 7);
    let decrypted = table.decrypt();
    assert_eq!(decrypted.to_bytes(), b"hello!");
    assert_eq!(decrypted.to_bytes_with_nul()[6], 0);
}

#[test]
fn empty_str_gives_empty_table_and_view() {
    let table = obfuscate_str("");
    assert_eq!(table.units().len(), 0);
    assert_eq!(table.decrypt().as_str(), "");
}

#[test]
fn empty_cstr_gives_the_terminator_alone() {
    let table = obfuscate_cstr(b"");
    assert_eq!(table.units().len(), 1);
    let decrypted = table.decrypt();
    assert_eq!(decrypted.to_bytes_with_nul(), &[0u8]);
    assert_eq!(decrypted.to_bytes(), b"");
}

#[test]
fn str_table_length_counts_utf8_bytes() {
    let table = obfuscate_str("h\u{e9}llo \u{1f600}");
    assert_eq!(table.units().len(), "h\u{e9}llo \u{1f600}".len());
    assert_eq!(table.decrypt().as_str(), "h\u{e9}llo \u{1f600}");
}

#[test]
fn table_does_not_hold_the_plain_bytes_with_nonzero_pads() {
    let units = mask_with_pads(b"abc", &[1, 2, 3]);
    let table: Obfuscated<Bytes> = Obfuscated::new_unchecked(units.clone());
    assert_eq!(table.units(), units.as_slice());
    let low: Vec<u8> = table.units().iter().map(|u| (u & 0xff) as u8).collect();
    assert_ne!(low, b"abc".to_vec());
    assert_eq!(table.decrypt().as_inner(), b"abc");
}

#[test]
fn hand_made_text_table_decodes() {
    let units = mask_with_pads("ok".as_bytes(), &[0x5a, 0xa5]);
    let table: Obfuscated<Text> = Obfuscated::new_unchecked(units);
    assert_eq!(table.decrypt().as_str(), "ok");
}

#[test]
fn decrypted_derefs_to_its_bytes() {
    let decrypted = obfuscate_byte_str(b"xyz").decrypt();
    assert_eq!(&*decrypted, b"xyz");
    let bytes: &[u8] = decrypted.as_ref();
    assert_eq!(bytes, b"xyz");
}
