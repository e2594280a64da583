use pokearch::cwfees::{encode_varint, MsgRegisterAsGranter};

#[test]
fn varint_single_byte() {
    assert_eq!(encode_varint(0), vec![0]);
    assert_eq!(encode_varint(1), vec![1]);
    assert_eq!(encode_varint(127), vec![127]);
}

#[test]
fn varint_multi_byte() {
    assert_eq!(encode_varint(128), vec![0x80, 0x01]);
    assert_eq!(encode_varint(300), vec![0xac, 0x02]);
    assert_eq!(encode_varint(u64::MAX), vec![0xff; 9].into_iter().chain([0x01]).collect::<Vec<u8>>());
}

#[test]
fn granter_message_wire_bytes() {
    let m = MsgRegisterAsGranter {
        granting_contract: "cosmos2contract".to_string(),
    };
    let mut expected: Vec<u8> = vec![0x0a, 15];
    expected.extend_from_slice(b"cosmos2contract");
    assert_eq!(m.encode_to_vec(), expected);
}

#[test]
fn granter_message_matches_prost_wire_format() {
    let addr = "archway1qqqqqqqqqqqqqqqqqqqqqqqqqqqqqqqqqqqqqqq".to_string();
    let mut expected: Vec<u8> = Vec::new();
    prost::encoding::string::encode(1, &addr, &mut expected);

    let m = MsgRegisterAsGranter {
        granting_contract: addr,
    };
    assert_eq!(m.encode_to_vec(), expected);
}

#[test]
fn granter_message_skips_empty_field() {
    let m = MsgRegisterAsGranter {
        granting_contract: String::new(),
    };
    assert_eq!(m.encode_to_vec(), Vec::<u8>::new());
}

#[test]
fn granter_message_long_field_uses_two_length_bytes() {
    let addr = "a".repeat(200);
    let m = MsgRegisterAsGranter {
        granting_contract: addr.clone(),
    };
    let mut expected: Vec<u8> = vec![0x0a, 0xc8, 0x01];
    expected.extend_from_slice(addr.as_bytes());
    assert_eq!(m.encode_to_vec(), expected);
}
