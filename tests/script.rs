use btc_primitives::{classify_script, read_pushdata, Opcode, ScriptError, ScriptType};

#[test]
fn classification_table() {
    assert_eq!(classify_script(&[0x00, 0xAA, 0xBB]), ScriptType::P2WPKH);
    assert_eq!(classify_script(&[0x01, 0xAA, 0xBB]), ScriptType::P2PKH);
    assert_eq!(classify_script(&[0xAA, 0xBB]), ScriptType::Unknown);
    assert_eq!(classify_script(&[]), ScriptType::Unknown);
    assert_eq!(classify_script(&[0x00, 0x00, 0x00, 0x00]), ScriptType::Unknown);
    assert_eq!(classify_script(&[0xff, 0x00, 0x00]), ScriptType::P2PKH);
}

#[test]
fn opcode_table() {
    assert_eq!(Opcode::from_byte(0xac), Ok(Opcode::OpChecksig));
    assert_eq!(Opcode::from_byte(0x76), Ok(Opcode::OpDup));
    assert_eq!(Opcode::from_byte(0x00), Err("Invalid opcode: 0x00".to_string()));
    assert_eq!(Opcode::from_byte(0x01), Ok(Opcode::OpInvalid));
    assert_eq!(Opcode::from_byte(0xff), Ok(Opcode::OpInvalid));
}

#[test]
fn opcode_as_map_key() {
    let mut m = std::collections::HashMap::new();
    m.insert(Opcode::OpDup, 1);
    m.insert(Opcode::OpChecksig, 2);
    assert_eq!(m.get(&Opcode::from_byte(0x76).unwrap()), Some(&1));
}

#[test]
fn pushdata_extraction() {
    assert_eq!(
        read_pushdata(&[0xAA, 0xBB, 0x01, 0x02, 0x03]),
        Ok(&[0x01u8, 0x02, 0x03][..])
    );
    assert_eq!(read_pushdata(&[0xAA, 0xBB]), Ok(&[][..]));
}

#[test]
fn pushdata_too_short() {
    assert_eq!(read_pushdata(&[]), Err(ScriptError::InvalidScript));
    assert_eq!(read_pushdata(&[0xAA]), Err(ScriptError::InvalidScript));
}
