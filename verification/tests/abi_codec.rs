use assets_factory::abi::{
    encode_address, parse_selector, read_address, read_bytes, read_u128, read_u64, read_u8,
};
use assets_factory::domain::EvmAddress;
use assets_factory::revert::{Field, Revert};

fn word_from_u128(v: u128) -> [u8; 32] {
    let mut w = [0u8; 32];
    w[16..].copy_from_slice(&v.to_be_bytes());
    w
}

fn push_word_u128(buf: &mut Vec<u8>, v: u128) {
    buf.extend_from_slice(&word_from_u128(v));
}

#[test]
fn read_u64_decodes_a_word() {
    let mut buf = Vec::new();
    push_word_u128(&mut buf, 0x1122_3344_5566_7788);
    assert_eq!(read_u64(&buf, 0, Field::Id), Ok(0x1122_3344_5566_7788));
}

#[test]
fn read_u64_rejects_a_value_over_its_width() {
    let mut buf = Vec::new();
    push_word_u128(&mut buf, (u64::MAX as u128) + 1);
    assert_eq!(read_u64(&buf, 0, Field::Id), Err(Revert::ValueTooLarge(Field::Id)));
}

#[test]
fn read_u64_rejects_a_truncated_buffer() {
    let buf = vec![0u8; 31];
    assert_eq!(read_u64(&buf, 0, Field::Id), Err(Revert::ReadOutOfBounds(Field::Id)));
}

#[test]
fn read_u128_decodes_and_bounds() {
    let mut buf = Vec::new();
    push_word_u128(&mut buf, u128::MAX);
    assert_eq!(read_u128(&buf, 0, Field::MinBalance), Ok(u128::MAX));

    // one bit above the declared width: set a bit in the high half
    let mut over = [0u8; 32];
    over[15] = 1;
    let over = over.to_vec();
    assert_eq!(
        read_u128(&over, 0, Field::MinBalance),
        Err(Revert::ValueTooLarge(Field::MinBalance))
    );
}

#[test]
fn read_u8_decodes_and_bounds() {
    let mut buf = Vec::new();
    push_word_u128(&mut buf, 0xFF);
    assert_eq!(read_u8(&buf, 0, Field::Decimals), Ok(0xFF));
    let mut buf2 = Vec::new();
    push_word_u128(&mut buf2, 0x100);
    assert_eq!(read_u8(&buf2, 0, Field::Decimals), Err(Revert::ValueTooLarge(Field::Decimals)));
}

#[test]
fn read_address_takes_the_low_twenty_bytes() {
    let mut w = [0xEEu8; 32];
    for i in 12..32 {
        w[i] = i as u8;
    }
    let buf = w.to_vec();
    let a = read_address(&buf, 0, Field::Admin).unwrap();
    let mut expected = [0u8; 20];
    for i in 0..20 {
        expected[i] = (i + 12) as u8;
    }
    assert_eq!(a, EvmAddress(expected));
}

#[test]
fn read_address_rejects_a_truncated_buffer() {
    let buf = vec![0u8; 40];
    assert_eq!(read_address(&buf, 32, Field::Admin), Err(Revert::ReadOutOfBounds(Field::Admin)));
}

#[test]
fn read_bytes_decodes_offset_length_and_data() {
    // one head word at 0 pointing to data at offset 32 from base 0
    let mut buf = Vec::new();
    push_word_u128(&mut buf, 32);
    push_word_u128(&mut buf, 5);
    buf.extend_from_slice(b"hello");
    buf.extend_from_slice(&[0u8; 27]);
    assert_eq!(read_bytes(&buf, 0, 0, Field::Name), Ok(b"hello".to_vec()));
}

#[test]
fn read_bytes_accepts_unpadded_tail() {
    let mut buf = Vec::new();
    push_word_u128(&mut buf, 32);
    push_word_u128(&mut buf, 3);
    buf.extend_from_slice(b"abc");
    assert_eq!(read_bytes(&buf, 0, 0, Field::Name), Ok(b"abc".to_vec()));
}

#[test]
fn read_bytes_rejects_an_oversized_length() {
    let mut buf = Vec::new();
    push_word_u128(&mut buf, 32);
    push_word_u128(&mut buf, 65537);
    assert_eq!(read_bytes(&buf, 0, 0, Field::Name), Err(Revert::OversizedBytes(Field::Name)));
}

#[test]
fn read_bytes_accepts_the_maximum_length() {
    let mut buf = Vec::new();
    push_word_u128(&mut buf, 32);
    push_word_u128(&mut buf, 65536);
    buf.extend_from_slice(&vec![7u8; 65536]);
    assert_eq!(read_bytes(&buf, 0, 0, Field::Name), Ok(vec![7u8; 65536]));
}

#[test]
fn read_bytes_rejects_a_pointer_outside_the_buffer() {
    let mut buf = Vec::new();
    push_word_u128(&mut buf, 1024);
    assert_eq!(read_bytes(&buf, 0, 0, Field::Symbol), Err(Revert::PointerOutOfBounds(Field::Symbol)));
}

#[test]
fn read_bytes_rejects_a_huge_pointer() {
    let mut w = [0u8; 32];
    w[0] = 1;
    let buf = w.to_vec();
    assert_eq!(read_bytes(&buf, 0, 0, Field::Symbol), Err(Revert::PointerOutOfBounds(Field::Symbol)));
}

#[test]
fn read_bytes_rejects_truncated_data() {
    let mut buf = Vec::new();
    push_word_u128(&mut buf, 32);
    push_word_u128(&mut buf, 10);
    buf.extend_from_slice(b"abc");
    assert_eq!(read_bytes(&buf, 0, 0, Field::Name), Err(Revert::ReadOutOfBounds(Field::Name)));
}

#[test]
fn parse_selector_reads_the_first_four_bytes() {
    let buf = vec![0xA7, 0x01, 0x74, 0xCB, 0x00];
    assert_eq!(parse_selector(&buf), Ok(0xa70174cb));
    let short = vec![0xA7, 0x01];
    assert_eq!(parse_selector(&short), Err(Revert::ReadOutOfBounds(Field::Selector)));
}

#[test]
fn encode_address_left_pads_to_a_word() {
    let a = EvmAddress([0xABu8; 20]);
    let out = encode_address(&a);
    assert_eq!(out.len(), 32);
    assert_eq!(&out[..12], &[0u8; 12]);
    assert_eq!(&out[12..], &[0xABu8; 20]);
}

#[test]
fn revert_messages_name_the_offending_field() {
    assert_eq!(
        Revert::PointerOutOfBounds(Field::Symbol).message(),
        "symbol: Pointer out of bounds"
    );
    assert_eq!(Revert::OversizedBytes(Field::Symbol).message(), "symbol: Bytes exceed maximum length");
    assert_eq!(Revert::ValueTooLarge(Field::MinBalance).message(), "min_balance: Value is too large");
    assert_eq!(Revert::ReadOutOfBounds(Field::Owner).message(), "owner: Tried to read out of bounds");
}
