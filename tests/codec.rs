use obfustr::codec::{decode, encode, mask_unit, mask_with_pads, unmask_unit, wipe};

#[test]
fn mask_unit_packs_masked_byte_low_and_pad_high() {
    assert_eq!(mask_unit(0x68, 0x0f), 0x0f67);
    assert_eq!(mask_unit(0xff, 0x00), 0x00ff);
    assert_eq!(mask_unit(0x00, 0xab), 0xabab);
}

#[test]
fn unmask_unit_xors_the_two_halves() {
    assert_eq!(unmask_unit(0x0f67), 0x68);
    assert_eq!(unmask_unit(0xabab), 0x00);
    assert_eq!(unmask_unit(0x1234), 0x12 ^ 0x34);
}

#[test]
fn mask_with_pads_gives_exact_units() {
    let units = mask_with_pads(b"hi", &[0x01, 0x80]);
    assert_eq!(units, vec![0x0169, 0x80e9]);
    assert_eq!(decode(&units), b"hi".to_vec());
}

#[test]
fn decode_of_hand_made_table() {
    assert_eq!(decode(&[0x0f67, 0x0065]), vec![0x68, 0x65]);
    assert_eq!(decode(&[]), Vec::<u8>::new());
}

#[test]
fn encode_round_trips() {
    let payload: Vec<u8> = (0u8..=255).collect();
    let units = encode(&payload);
    assert_eq!(units.len(), payload.len());
    assert_eq!(decode(&units), payload);
}

#[test]
fn encode_twice_decodes_the_same() {
    let payload = b"the same payload, masked twice";
    let first = encode(payload);
    let second = encode(payload);
    assert_eq!(decode(&first), payload.to_vec());
    assert_eq!(decode(&second), payload.to_vec());
}

#[test]
fn encode_draws_varying_pads() {
    let payload = vec![0u8; 64];
    let units = encode(&payload);
    let first_pad = units[0] >> 8;
    assert!(units.iter().any(|u| (u >> 8) != first_pad));
}

#[test]
fn encode_of_empty_is_empty() {
    assert!(encode(&[]).is_empty());
}

#[test]
fn wipe_zeroes_every_byte() {
    let mut bytes = b"secret".to_vec();
    wipe(&mut bytes);
    assert_eq!(bytes, vec![0u8; 6]);
}
