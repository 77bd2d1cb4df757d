use rlox::opcode::{DecodeError, OpCode};

#[test]
fn encode_gives_each_instruction_its_place_in_the_list() {
    assert_eq!(OpCode::OpConstant.encode(), 0);
    assert_eq!(OpCode::OpReturn.encode(), 1);
    assert_eq!(OpCode::OpConstant.encode(), OpCode::OpConstant as u8);
    assert_eq!(OpCode::OpReturn.encode(), OpCode::OpReturn as u8);
}

#[test]
fn decode_undoes_encode_for_every_instruction() {
    for op in [OpCode::OpConstant, OpCode::OpReturn] {
        assert_eq!(OpCode::decode(op.encode()), Ok(op));
    }
}

#[test]
fn decode_fails_on_every_other_byte() {
    let known = [OpCode::OpConstant.encode(), OpCode::OpReturn.encode()];
    let mut failures = 0;
    for byte in 0..=255u8 {
        if known.contains(&byte) {
            assert!(OpCode::decode(byte).is_ok());
        } else {
            assert_eq!(OpCode::decode(byte), Err(DecodeError { byte }));
            failures += 1;
        }
    }
    assert_eq!(failures, 254);
}

#[test]
fn no_two_instructions_share_a_byte() {
    for byte in 0..=255u8 {
        if let Ok(op) = OpCode::decode(byte) {
            assert_eq!(op.encode(), byte);
        }
    }
}

#[test]
fn conversions_agree_with_encode_and_decode() {
    assert_eq!(u8::from(OpCode::OpConstant), 0);
    assert_eq!(u8::from(OpCode::OpReturn), 1);
    let byte: u8 = OpCode::OpReturn.into();
    assert_eq!(byte, 1);
    assert_eq!(OpCode::try_from(0u8), Ok(OpCode::OpConstant));
    assert_eq!(OpCode::try_from(1u8), Ok(OpCode::OpReturn));
    assert_eq!(OpCode::try_from(2u8), Err(DecodeError { byte: 2 }));
    let decoded: Result<OpCode, DecodeError> = 255u8.try_into();
    assert_eq!(decoded, Err(DecodeError { byte: 255 }));
}

#[test]
fn decode_error_names_the_byte() {
    let error = OpCode::decode(7).unwrap_err();
    assert_eq!(error.byte, 7);
    assert_eq!(
        error.message(),
        "Failed to convert u8 to OpCode. No OpCode matches value: 7"
    );
    assert_eq!(
        DecodeError { byte: 255 }.message(),
        "Failed to convert u8 to OpCode. No OpCode matches value: 255"
    );
    assert_eq!(
        DecodeError { byte: 100 }.message(),
        format!("Failed to convert u8 to OpCode. No OpCode matches value: {}", 100u8)
    );
}
