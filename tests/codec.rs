use token_cpi::codec::{
    encode_amount, encode_amount_decimals, encode_tag, encode_tag_key, encode_tag_pair,
    encode_wide_tag_key, read_key, read_u16_le, read_u64_le, write_bytes, write_u32_le,
    write_u64_le, write_u8, zeroed, AMOUNT_DECIMALS_LEN, AMOUNT_LEN, BURN_CHECKED,
    CPI_GUARD_DISABLE, CPI_GUARD_ENABLE, CPI_GUARD_EXTENSION, INITIALIZE_ACCOUNT_2,
    INITIALIZE_ACCOUNT_3, MINT_TO_CHECKED, REVOKE, TAG_KEY_LEN, TRANSFER, WIDE_TAG_KEY_LEN,
};

#[test]
fn transfer_payload_of_one_million() {
    let data = encode_amount(TRANSFER, 1_000_000);
    assert_eq!(data, vec![0x03, 0x40, 0x42, 0x0f, 0x00, 0x00, 0x00, 0x00, 0x00]);
    assert_eq!(data.len(), 9);
    assert_eq!(data.len(), AMOUNT_LEN);
}

#[test]
fn cpi_guard_enable_and_disable_payloads() {
    assert_eq!(encode_tag_pair(CPI_GUARD_EXTENSION, CPI_GUARD_ENABLE), vec![0x22, 0x00]);
    assert_eq!(encode_tag_pair(CPI_GUARD_EXTENSION, CPI_GUARD_DISABLE), vec![0x22, 0x01]);
}

#[test]
fn bare_discriminator_payload() {
    assert_eq!(encode_tag(REVOKE), vec![5]);
}

#[test]
fn checked_payload_layout() {
    let data = encode_amount_decimals(BURN_CHECKED, 0x0102_0304_0506_0708, 6);
    assert_eq!(data, vec![15, 0x08, 0x07, 0x06, 0x05, 0x04, 0x03, 0x02, 0x01, 6]);
    assert_eq!(data.len(), AMOUNT_DECIMALS_LEN);
}

#[test]
fn discriminator_and_length_of_every_layout() {
    let key = [7u8; 32];
    for (tag, data, len) in [
        (TRANSFER, encode_amount(TRANSFER, 42), 9),
        (MINT_TO_CHECKED, encode_amount_decimals(MINT_TO_CHECKED, 42, 9), 10),
        (INITIALIZE_ACCOUNT_3, encode_tag_key(INITIALIZE_ACCOUNT_3, &key), TAG_KEY_LEN),
        (REVOKE, encode_tag(REVOKE), 1),
    ] {
        assert_eq!(data[0], tag);
        assert_eq!(data.len(), len);
    }
    let wide = encode_wide_tag_key(INITIALIZE_ACCOUNT_2 as u32, &key);
    assert_eq!(&wide[0..4], &[16, 0, 0, 0]);
    assert_eq!(wide.len(), WIDE_TAG_KEY_LEN);
    assert_eq!(wide.len(), 36);
}

#[test]
fn amount_round_trips_at_the_edges() {
    for amount in [0u64, 1, 255, 256, 1_000_000, u64::MAX - 1, u64::MAX] {
        let data = encode_amount(TRANSFER, amount);
        assert_eq!(read_u64_le(&data, 1), amount);
        let checked = encode_amount_decimals(BURN_CHECKED, amount, 255);
        assert_eq!(read_u64_le(&checked, 1), amount);
        assert_eq!(checked[9], 255);
    }
}

#[test]
fn key_round_trips() {
    let mut key = [0u8; 32];
    for (i, b) in key.iter_mut().enumerate() {
        *b = i as u8 + 100;
    }
    let short = encode_tag_key(INITIALIZE_ACCOUNT_3, &key);
    assert_eq!(read_key(&short, 1), key);
    let wide = encode_wide_tag_key(INITIALIZE_ACCOUNT_2 as u32, &key);
    assert_eq!(read_key(&wide, 4), key);
}

#[test]
fn writers_touch_only_their_field() {
    let mut buf = zeroed(16);
    assert_eq!(buf, vec![0u8; 16]);
    write_u64_le(&mut buf, 2, 0x1122_3344_5566_7788);
    write_u32_le(&mut buf, 11, 0xAABB_CCDD);
    write_u8(&mut buf, 0, 9);
    write_bytes(&mut buf, 15, &[1]);
    assert_eq!(
        buf,
        vec![9, 0, 0x88, 0x77, 0x66, 0x55, 0x44, 0x33, 0x22, 0x11, 0, 0xDD, 0xCC, 0xBB, 0xAA, 1]
    );
    assert_eq!(read_u16_le(&buf, 11), 0xCCDD);
}
