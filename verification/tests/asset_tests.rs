use thepalace::buffer::ErrorKind;
use thepalace::messages::{AssetDescriptor, AssetQueryMsg, AssetSendMsg, MessageId};
use thepalace::{AssetSpec, AssetType};

#[test]
fn test_asset_query_msg_roundtrip() {
    let msg = AssetQueryMsg { asset_type: AssetType::Prop, spec: AssetSpec { id: 12345, crc: 0xABCDEF01 } };

    let mut buf = Vec::<u8>::new();
    msg.to_bytes(&mut buf);

    assert_eq!(buf.len(), 4 + 10); // AssetType + AssetSpec (with 2-byte padding)

    let parsed = AssetQueryMsg::from_bytes(&buf).unwrap();

    assert_eq!(parsed, msg);
}

#[test]
fn test_asset_descriptor_roundtrip() {
    let desc = AssetDescriptor {
        flags: 0x00100000, // 20-bit format
        size: 1024,
        name: "Test Asset".to_string(),
    };

    let mut buf = Vec::<u8>::new();
    desc.to_bytes(&mut buf);

    assert_eq!(buf.len(), 40); // 4 + 4 + 32 (Str31)

    let parsed = AssetDescriptor::from_bytes(&buf).unwrap();

    assert_eq!(parsed, desc);
}

#[test]
fn test_asset_send_msg_single_block() {
    let data = b"Hello, Palace!".to_vec();

    let msg = AssetSendMsg::single_block(
        AssetType::Prop,
        AssetSpec { id: 100, crc: 0x12345678 },
        "test.prop".to_string(),
        data.clone(),
    );

    assert_eq!(msg.block_nbr, 0);
    assert_eq!(msg.nbr_blocks, 1);
    assert_eq!(msg.block_size, data.len() as i32);
    assert!(msg.desc.is_some());

    let mut buf = Vec::<u8>::new();
    msg.to_bytes(&mut buf);

    let expected_size = 4 + 10 + 4 + 4 + 2 + 2 + 40 + data.len();
    assert_eq!(buf.len(), expected_size);

    let parsed = AssetSendMsg::from_bytes(&buf).unwrap();

    assert_eq!(parsed, msg);
    assert_eq!(parsed.data, data);
}

#[test]
fn test_asset_send_msg_multi_block() {
    let data = b"Block 2 data".to_vec();

    let msg = AssetSendMsg {
        asset_type: AssetType::Prop,
        spec: AssetSpec { id: 200, crc: 0x87654321 },
        block_size: data.len() as i32,
        block_offset: 1024,
        block_nbr: 1, // Second block
        nbr_blocks: 3,
        desc: None, // No descriptor for non-first blocks
        data: data.clone(),
    };

    let mut buf = Vec::<u8>::new();
    msg.to_bytes(&mut buf);

    let expected_size = 4 + 10 + 4 + 4 + 2 + 2 + data.len();
    assert_eq!(buf.len(), expected_size);

    let parsed = AssetSendMsg::from_bytes(&buf).unwrap();

    assert_eq!(parsed, msg);
    assert_eq!(parsed.data, data);
    assert!(parsed.desc.is_none());
}

#[test]
fn test_asset_query_msg_payload_trait() {
    let msg = AssetQueryMsg { asset_type: AssetType::Prop, spec: AssetSpec { id: 1, crc: 0 } };

    let message = msg.to_message(0);
    assert_eq!(message.msg_id, MessageId::AssetQuery);
    assert_eq!(message.ref_num, 0);

    let parsed = AssetQueryMsg::from_bytes(&message.payload).unwrap();
    assert_eq!(parsed.asset_type, msg.asset_type);
    assert_eq!(parsed.spec, msg.spec);
}

#[test]
fn test_asset_send_msg_payload_trait() {
    let msg = AssetSendMsg::single_block(
        AssetType::Prop,
        AssetSpec { id: 1, crc: 0 },
        "test".to_string(),
        b"data".to_vec(),
    );

    let message = msg.to_message(0);
    assert_eq!(message.msg_id, MessageId::AssetSend);

    let parsed = AssetSendMsg::from_bytes(&message.payload).unwrap();
    assert_eq!(parsed.asset_type, msg.asset_type);
    assert_eq!(parsed.data, msg.data);
}

#[test]
fn asset_query_unknown_type_is_invalid_data() {
    let data = [b'X', b'X', b'X', b'X', 0, 0, 0, 1, 0, 0, 0, 0, 0, 0];
    let err = AssetQueryMsg::from_bytes(&data).unwrap_err();
    assert_eq!(err.kind(), ErrorKind::InvalidData);
}

#[test]
fn asset_query_type_code_is_ascii() {
    let msg = AssetQueryMsg { asset_type: AssetType::UserBase, spec: AssetSpec { id: 1, crc: 2 } };
    let mut buf = Vec::<u8>::new();
    msg.to_bytes(&mut buf);
    assert_eq!(&buf[0..4], b"User");
    assert_eq!(&buf[4..14], &[0, 0, 0, 1, 0, 0, 0, 2, 0, 0]);
}

#[test]
fn asset_send_block_longer_than_data_is_eof() {
    let msg = AssetSendMsg {
        asset_type: AssetType::Prop,
        spec: AssetSpec { id: 2, crc: 3 },
        block_size: 10,
        block_offset: 0,
        block_nbr: 2,
        nbr_blocks: 3,
        desc: None,
        data: vec![1, 2, 3],
    };
    let mut buf = Vec::<u8>::new();
    msg.to_bytes(&mut buf);
    let err = AssetSendMsg::from_bytes(&buf).unwrap_err();
    assert_eq!(err.kind(), ErrorKind::UnexpectedEof);
}

#[test]
fn asset_send_negative_block_size_has_no_data() {
    let msg = AssetSendMsg {
        asset_type: AssetType::IpUserBase,
        spec: AssetSpec { id: 2, crc: 3 },
        block_size: -5,
        block_offset: 0,
        block_nbr: 1,
        nbr_blocks: 3,
        desc: None,
        data: vec![],
    };
    let mut buf = Vec::<u8>::new();
    msg.to_bytes(&mut buf);
    buf.extend_from_slice(&[9, 9, 9]);
    let parsed = AssetSendMsg::from_bytes(&buf).unwrap();
    assert_eq!(parsed, msg);
}
