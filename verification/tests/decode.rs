use bridge_relayer::address::Address;
use bridge_relayer::bytes::{push_u64_le, read_u64_le};
use bridge_relayer::error::RelayError;
use bridge_relayer::models::message::{Info, MessageType, NonceStatus};
use bridge_relayer::pda::PdaManager;

fn record(from: u8, to: u8, amount: u64, nonce: u64, tag: u8) -> Vec<u8> {
    let mut data = vec![0xAAu8; 8];
    data.extend_from_slice(&[from; 32]);
    data.extend_from_slice(&[to; 32]);
    data.extend_from_slice(&amount.to_le_bytes());
    data.extend_from_slice(&nonce.to_le_bytes());
    data.push(tag);
    data
}

#[test]
fn message_type_known_tags() {
    assert_eq!(MessageType::from_u8(0), Ok(MessageType::Native));
    assert_eq!(MessageType::from_u8(1), Ok(MessageType::Token));
    assert_eq!(MessageType::from_u8(2), Ok(MessageType::NFT));
}

#[test]
fn message_type_unknown_tags_are_refused() {
    assert_eq!(MessageType::from_u8(3), Err(RelayError::InvalidTag));
    assert_eq!(MessageType::from_u8(0x80), Err(RelayError::InvalidTag));
    assert_eq!(MessageType::from_u8(255), Err(RelayError::InvalidTag));
    for tag in 3..=255u8 {
        assert!(MessageType::from_u8(tag).is_err());
    }
}

#[test]
fn counter_shorter_than_sixteen_bytes_is_refused() {
    assert_eq!(NonceStatus::from_bytes(&[]), Err(RelayError::Decode));
    assert_eq!(NonceStatus::from_bytes(&[1u8; 8]), Err(RelayError::Decode));
    assert_eq!(NonceStatus::from_bytes(&[1u8; 15]), Err(RelayError::Decode));
}

#[test]
fn counter_is_little_endian_behind_the_tag() {
    let data = [9, 9, 9, 9, 9, 9, 9, 9, 0x08, 0x07, 0x06, 0x05, 0x04, 0x03, 0x02, 0x01];
    assert_eq!(
        NonceStatus::from_bytes(&data),
        Ok(NonceStatus { nonce: 0x0102_0304_0506_0708 })
    );
    let small = [0, 0, 0, 0, 0, 0, 0, 0, 5, 1, 0, 0, 0, 0, 0, 0];
    assert_eq!(NonceStatus::from_bytes(&small), Ok(NonceStatus { nonce: 261 }));
}

#[test]
fn counter_ignores_what_follows_it() {
    let mut data = vec![0u8; 8];
    data.extend_from_slice(&u64::MAX.to_le_bytes());
    data.extend_from_slice(&[0x55; 20]);
    assert_eq!(NonceStatus::from_bytes(&data), Ok(NonceStatus { nonce: u64::MAX }));
}

#[test]
fn counter_does_not_read_the_tag() {
    let mut data = vec![0xFFu8; 8];
    data.extend_from_slice(&2u64.to_le_bytes());
    assert_eq!(NonceStatus::from_bytes(&data), Ok(NonceStatus { nonce: 2 }));
}

#[test]
fn record_decodes_every_field() {
    let data = record(0x11, 0x22, 1000, 7, 1);
    assert_eq!(data.len(), 89);
    assert_eq!(
        Info::from_bytes(&data),
        Ok(Info {
            from: Address::new([0x11; 32]),
            to: Address::new([0x22; 32]),
            amount: 1000,
            nonce: 7,
            message_type: MessageType::Token,
        })
    );
}

#[test]
fn record_with_unknown_asset_kind_is_refused() {
    assert_eq!(Info::from_bytes(&record(1, 2, 3, 4, 3)), Err(RelayError::InvalidTag));
    assert_eq!(Info::from_bytes(&record(1, 2, 3, 4, 255)), Err(RelayError::InvalidTag));
    for tag in 3..=255u8 {
        assert_eq!(Info::from_bytes(&record(1, 2, 3, 4, tag)), Err(RelayError::InvalidTag));
    }
}

#[test]
fn record_with_each_known_asset_kind() {
    assert_eq!(
        Info::from_bytes(&record(1, 2, 3, 4, 0)).map(|info| info.message_type),
        Ok(MessageType::Native)
    );
    assert_eq!(
        Info::from_bytes(&record(1, 2, 3, 4, 1)).map(|info| info.message_type),
        Ok(MessageType::Token)
    );
    assert_eq!(
        Info::from_bytes(&record(1, 2, 3, 4, 2)).map(|info| info.message_type),
        Ok(MessageType::NFT)
    );
}

#[test]
fn short_record_is_refused_before_its_tag_is_read() {
    assert_eq!(Info::from_bytes(&[]), Err(RelayError::Decode));
    let mut data = record(1, 2, 3, 4, 9);
    data.pop();
    assert_eq!(data.len(), 88);
    assert_eq!(Info::from_bytes(&data), Err(RelayError::Decode));
    assert_eq!(Info::from_bytes(&[0xFF; 88]), Err(RelayError::Decode));
}

#[test]
fn record_ignores_what_follows_it() {
    let mut data = record(5, 6, u64::MAX, u64::MAX - 1, 2);
    data.extend_from_slice(&[0x77; 11]);
    let info = Info::from_bytes(&data).unwrap();
    assert_eq!(info.amount, u64::MAX);
    assert_eq!(info.nonce, u64::MAX - 1);
    assert_eq!(info.to, Address::new([6; 32]));
    assert_eq!(info.from, Address::new([5; 32]));
}

#[test]
fn transfer_info_is_amount_and_destination() {
    let manager = PdaManager::new(Address::new([1; 32]), Address::new([2; 32]));
    assert_eq!(
        manager.get_transfer_info(&record(0x11, 0x22, 1000, 7, 0)),
        Ok((1000, Address::new([0x22; 32])))
    );
    assert_eq!(manager.get_transfer_info(&[0; 10]), Err(RelayError::Decode));
    assert_eq!(
        manager.get_transfer_info(&record(0x11, 0x22, 1000, 7, 4)),
        Err(RelayError::InvalidTag)
    );
}

#[test]
fn little_endian_read_at_an_offset() {
    let data = [0xEE, 0x01, 0x00, 0x00, 0x00, 0x00, 0x00, 0x00, 0x80, 0xEE];
    assert_eq!(read_u64_le(&data, 1), 0x8000_0000_0000_0001);
    assert_eq!(read_u64_le(&[0xFF; 8], 0), u64::MAX);
    assert_eq!(read_u64_le(&[0; 8], 0), 0);
}

#[test]
fn little_endian_write_appends_eight_bytes() {
    let mut out = vec![0xABu8];
    push_u64_le(&mut out, 1000);
    assert_eq!(out, vec![0xAB, 0xE8, 0x03, 0, 0, 0, 0, 0, 0]);
    let mut out = Vec::new();
    push_u64_le(&mut out, 0x0102_0304_0506_0708);
    assert_eq!(out, vec![8, 7, 6, 5, 4, 3, 2, 1]);
}

#[test]
fn little_endian_round_trip() {
    for value in [0u64, 1, 255, 256, 65_535, 1 << 32, u64::MAX - 1, u64::MAX] {
        let mut out = Vec::new();
        push_u64_le(&mut out, value);
        assert_eq!(out, value.to_le_bytes().to_vec());
        assert_eq!(read_u64_le(&out, 0), value);
    }
}
