use x86_decoder::decode::decode;
use x86_decoder::error::DecodeError;

#[test]
fn prefixes_without_an_opcode_are_truncated_input() {
    assert_eq!(decode(&[0x66]), Err(DecodeError::TruncatedInput));
    assert_eq!(decode(&[0x48]), Err(DecodeError::TruncatedInput));
    assert_eq!(decode(&[0x65, 0x4c]), Err(DecodeError::TruncatedInput));
    assert_eq!(decode(&[0xf0, 0xf2, 0xf3, 0x67]), Err(DecodeError::TruncatedInput));
}

#[test]
fn an_escape_byte_without_an_opcode_is_truncated_input() {
    assert_eq!(decode(&[0x0f]), Err(DecodeError::TruncatedInput));
    assert_eq!(decode(&[0x45, 0x0f]), Err(DecodeError::TruncatedInput));
}

#[test]
fn a_missing_modrm_sib_or_displacement_is_truncated_input() {
    assert_eq!(decode(&[0x89]), Err(DecodeError::TruncatedInput));
    assert_eq!(decode(&[0x48, 0x89, 0x44]), Err(DecodeError::TruncatedInput));
    assert_eq!(decode(&[0x48, 0x89, 0x44, 0x24]), Err(DecodeError::TruncatedInput));
    assert_eq!(decode(&[0x8b, 0x05, 0x01, 0x02, 0x03]), Err(DecodeError::TruncatedInput));
    assert_eq!(decode(&[0x8b, 0x80, 0x01, 0x02, 0x03]), Err(DecodeError::TruncatedInput));
}

#[test]
fn a_missing_immediate_is_truncated_input() {
    assert_eq!(decode(&[0x81, 0xec, 0x10, 0x03, 0x00]), Err(DecodeError::TruncatedInput));
    assert_eq!(decode(&[0x6a]), Err(DecodeError::TruncatedInput));
    assert_eq!(decode(&[0xe8, 0x00, 0x00, 0x00]), Err(DecodeError::TruncatedInput));
    assert_eq!(decode(&[0x48, 0xb8, 1, 2, 3, 4, 5, 6, 7]), Err(DecodeError::TruncatedInput));
}

#[test]
fn opcodes_without_an_instruction_are_unassigned() {
    for op in [
        0x06u8, 0x07, 0x0e, 0x16, 0x17, 0x1e, 0x1f, 0x27, 0x2f, 0x37, 0x3f, 0x60, 0x61, 0x82, 0x9a,
        0xce, 0xd4, 0xd5, 0xd6, 0xea,
    ] {
        assert_eq!(decode(&[op, 0, 0, 0, 0, 0, 0, 0]), Err(DecodeError::UnassignedOpcode), "{:#x}", op);
    }
    for op in [0x04u8, 0x0a, 0x0c, 0x24, 0x27, 0x36, 0x39, 0x3b, 0x3f, 0xa6, 0xa7] {
        assert_eq!(decode(&[0x0f, op, 0, 0, 0, 0, 0]), Err(DecodeError::UnassignedOpcode), "0f {:#x}", op);
    }
}

#[test]
fn group_members_without_an_instruction_are_unassigned() {
    // 8f /1, c6 /1, c7 /7, fe /2, ff /7, 0f ba /0
    assert_eq!(decode(&[0x8f, 0xc8]), Err(DecodeError::UnassignedOpcode));
    assert_eq!(decode(&[0xc6, 0xc8, 0x00]), Err(DecodeError::UnassignedOpcode));
    assert_eq!(decode(&[0xc7, 0xf8, 0, 0, 0, 0]), Err(DecodeError::UnassignedOpcode));
    assert_eq!(decode(&[0xfe, 0xd0]), Err(DecodeError::UnassignedOpcode));
    assert_eq!(decode(&[0xff, 0xf8]), Err(DecodeError::UnassignedOpcode));
    assert_eq!(decode(&[0x0f, 0xba, 0xc0, 0x01]), Err(DecodeError::UnassignedOpcode));
}

#[test]
fn lea_of_a_register_is_unassigned() {
    assert_eq!(decode(&[0x8d, 0xc0]), Err(DecodeError::UnassignedOpcode));
    assert_eq!(decode(&[0x48, 0x8d, 0xff]), Err(DecodeError::UnassignedOpcode));
}

#[test]
fn control_and_debug_moves_take_registers_only() {
    // Modes 0, 1 and 2 fail before any further byte is read.
    assert_eq!(decode(&[0x0f, 0x20, 0x00]), Err(DecodeError::UnassignedOpcode));
    assert_eq!(decode(&[0x0f, 0x22, 0x48]), Err(DecodeError::UnassignedOpcode));
    assert_eq!(decode(&[0x0f, 0x21, 0x84]), Err(DecodeError::UnassignedOpcode));
    assert_eq!(decode(&[0x0f, 0x23, 0x04, 0x25, 0, 0, 0, 0]), Err(DecodeError::UnassignedOpcode));
}

#[test]
fn segment_registers_six_and_seven_are_unassigned() {
    assert_eq!(decode(&[0x8c, 0xf0]), Err(DecodeError::UnassignedOpcode));
    assert_eq!(decode(&[0x8e, 0xf8]), Err(DecodeError::UnassignedOpcode));
}

#[test]
fn extensions_left_aside_are_unsupported() {
    assert_eq!(decode(&[0xc5, 0xf8, 0x10, 0x00]), Err(DecodeError::UnsupportedEncoding));
    assert_eq!(decode(&[0xc4]), Err(DecodeError::UnsupportedEncoding));
    assert_eq!(decode(&[0x62, 0xf1, 0x7c, 0x48, 0x10, 0x00]), Err(DecodeError::UnsupportedEncoding));
    for op in 0xd8u8..=0xdf {
        assert_eq!(decode(&[op, 0xc0]), Err(DecodeError::UnsupportedEncoding), "{:#x}", op);
    }
    for op in [
        0x00u8, 0x01, 0x0f, 0x10, 0x1e, 0x28, 0x37, 0x38, 0x3a, 0x58, 0x6f, 0x7f, 0xaa, 0xae, 0xb9,
        0xc7, 0xd0, 0xef, 0xfe, 0xff,
    ] {
        assert_eq!(decode(&[0x0f, op, 0xc0]), Err(DecodeError::UnsupportedEncoding), "0f {:#x}", op);
    }
    // ff /3 and ff /5 are the far call and the far jump.
    assert_eq!(decode(&[0xff, 0x18]), Err(DecodeError::UnsupportedEncoding));
    assert_eq!(decode(&[0xff, 0x28]), Err(DecodeError::UnsupportedEncoding));
}

#[test]
fn errors_have_messages() {
    assert_eq!(DecodeError::TruncatedInput.message(), "truncated input");
    assert_eq!(DecodeError::UnassignedOpcode.message(), "unassigned opcode");
    assert_eq!(DecodeError::UnsupportedEncoding.message(), "unsupported encoding");
}
