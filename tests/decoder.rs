use gameboy_rom::encoding::{extended_opcode, primary_opcode};
use gameboy_rom::parser::{parse_cb, parse_instruction, ParseError};
use gameboy_rom::{Flag, Opcode, Register16, Register8};

const UNDEFINED: [u8; 11] = [
    0xD3, 0xDB, 0xDD, 0xE3, 0xE4, 0xEB, 0xEC, 0xED, 0xF4, 0xFC, 0xFD,
];

fn consumed(input: &[u8]) -> Result<(Opcode, usize), ParseError> {
    parse_instruction(input).map(|(rest, op)| (op, input.len() - rest.len()))
}

#[test]
fn extended_table_is_total() {
    for b in 0..=255u8 {
        let (op, len) = consumed(&[0xCB, b]).expect("every escaped byte decodes");
        assert_eq!(len, 2);
        assert_eq!(op, extended_opcode(b));
    }
}

#[test]
fn escape_without_second_byte_is_out_of_data() {
    assert_eq!(consumed(&[0xCB]), Err(ParseError::OutOfData));
    assert_eq!(parse_cb(&[]).map(|(_, op)| op), Err(ParseError::OutOfData));
}

#[test]
fn primary_table_outcomes() {
    let mut undefined_count = 0;
    for b in 0..=255u8 {
        if b == 0xCB {
            continue;
        }
        let padded = [b, 0x11, 0x22];
        match consumed(&padded) {
            Err(ParseError::UndefinedOpcode(x)) => {
                assert_eq!(x, b);
                assert!(UNDEFINED.contains(&b));
                undefined_count += 1;
            }
            Ok((_, len)) => {
                assert!(!UNDEFINED.contains(&b));
                assert!((1..=3).contains(&len));
                if len > 1 {
                    assert_eq!(consumed(&[b]), Err(ParseError::OutOfData));
                } else {
                    assert_eq!(consumed(&[b]).map(|(_, l)| l), Ok(1));
                }
            }
            Err(e) => panic!("byte {:#04x} failed with {:?}", b, e),
        }
    }
    assert_eq!(undefined_count, 11);
}

#[test]
fn load_immediate_into_accumulator() {
    assert_eq!(
        consumed(&[0x3E, 0x42]),
        Ok((Opcode::StoreImm8(Register8::A, 0x42), 2))
    );
}

#[test]
fn jump_operand_is_little_endian() {
    assert_eq!(consumed(&[0xC3, 0x34, 0x12]), Ok((Opcode::Jp(None, 0x1234), 3)));
}

#[test]
fn decoding_twice_gives_equal_results() {
    let bytes = [0xCD, 0x50, 0x01, 0x00];
    assert_eq!(consumed(&bytes), consumed(&bytes));
    assert_eq!(consumed(&bytes), Ok((Opcode::Call(None, 0x0150), 3)));
}

#[test]
fn truncated_operands_are_out_of_data() {
    assert_eq!(consumed(&[0xC3, 0x34]), Err(ParseError::OutOfData));
    assert_eq!(consumed(&[0x3E]), Err(ParseError::OutOfData));
    assert_eq!(consumed(&[]), Err(ParseError::OutOfData));
}

#[test]
fn undefined_opcode_error() {
    assert_eq!(consumed(&[0xDD, 0x00]), Err(ParseError::UndefinedOpcode(0xDD)));
}

#[test]
fn rest_is_the_input_after_the_instruction() {
    let bytes = [0x01, 0xEF, 0xBE, 0x76];
    let (rest, op) = parse_instruction(&bytes).unwrap();
    assert_eq!(op, Opcode::StoreImm16(Register16::BC, 0xBEEF));
    assert_eq!(rest, &[0x76]);
}

#[test]
fn register_fields_of_moves_and_alu() {
    assert_eq!(consumed(&[0x41]), Ok((Opcode::Mov8(Register8::B, Register8::C), 1)));
    assert_eq!(consumed(&[0x7E]), Ok((Opcode::Mov8(Register8::A, Register8::DerefHL), 1)));
    assert_eq!(consumed(&[0x70]), Ok((Opcode::Mov8(Register8::DerefHL, Register8::B), 1)));
    assert_eq!(consumed(&[0x76]), Ok((Opcode::Halt, 1)));
    assert_eq!(consumed(&[0x80]), Ok((Opcode::Add(Register8::B), 1)));
    assert_eq!(consumed(&[0x8F]), Ok((Opcode::Adc(Register8::A), 1)));
    assert_eq!(consumed(&[0x96]), Ok((Opcode::Sub(Register8::DerefHL), 1)));
    assert_eq!(consumed(&[0x9A]), Ok((Opcode::Sbc(Register8::D), 1)));
    assert_eq!(consumed(&[0xA4]), Ok((Opcode::And(Register8::H), 1)));
    assert_eq!(consumed(&[0xAF]), Ok((Opcode::Xor(Register8::A), 1)));
    assert_eq!(consumed(&[0xB5]), Ok((Opcode::Or(Register8::L), 1)));
    assert_eq!(consumed(&[0xBB]), Ok((Opcode::Cp(Register8::E), 1)));
}

#[test]
fn control_flow_and_immediates() {
    assert_eq!(consumed(&[0x20, 0xFE]), Ok((Opcode::Jr(Some(Flag::NZ), 0xFE), 2)));
    assert_eq!(consumed(&[0x38, 0x05]), Ok((Opcode::Jr(Some(Flag::C), 0x05), 2)));
    assert_eq!(consumed(&[0xCA, 0x00, 0x40]), Ok((Opcode::Jp(Some(Flag::Z), 0x4000), 3)));
    assert_eq!(consumed(&[0xD4, 0x02, 0x01]), Ok((Opcode::Call(Some(Flag::NC), 0x0102), 3)));
    assert_eq!(consumed(&[0xD8]), Ok((Opcode::Ret(Some(Flag::C)), 1)));
    assert_eq!(consumed(&[0xC9]), Ok((Opcode::Ret(None), 1)));
    assert_eq!(consumed(&[0xD9]), Ok((Opcode::Reti, 1)));
    assert_eq!(consumed(&[0xEF]), Ok((Opcode::Rst(5), 1)));
    assert_eq!(consumed(&[0xF1]), Ok((Opcode::Pop(Register16::AF), 1)));
    assert_eq!(consumed(&[0xE5]), Ok((Opcode::Push(Register16::HL), 1)));
    assert_eq!(consumed(&[0xE0, 0x40]), Ok((Opcode::StoreHA(0x40), 2)));
    assert_eq!(consumed(&[0xF0, 0x44]), Ok((Opcode::LoadHA(0x44), 2)));
    assert_eq!(consumed(&[0xF8, 0xFF]), Ok((Opcode::LdHlSp8(-1), 2)));
    assert_eq!(consumed(&[0xE8, 0x10]), Ok((Opcode::AddSp8(0x10), 2)));
    assert_eq!(consumed(&[0x08, 0x00, 0xC0]), Ok((Opcode::StoreImm16AddrSp(0xC000), 3)));
    assert_eq!(consumed(&[0xEA, 0x00, 0xFF]), Ok((Opcode::StoreAAtAddress(0xFF00), 3)));
    assert_eq!(consumed(&[0xFA, 0x34, 0x12]), Ok((Opcode::LoadAFromAddress(0x1234), 3)));
    assert_eq!(consumed(&[0xFE, 0x90]), Ok((Opcode::Cp8(0x90), 2)));
    assert_eq!(consumed(&[0x22]), Ok((Opcode::StoreAToHlAddr(true), 1)));
    assert_eq!(consumed(&[0x3A]), Ok((Opcode::LoadAFromHlAddr(false), 1)));
    assert_eq!(consumed(&[0x10]), Ok((Opcode::Stop, 1)));
    assert_eq!(consumed(&[0xF3]), Ok((Opcode::Di, 1)));
    assert_eq!(consumed(&[0xFB]), Ok((Opcode::Ei, 1)));
    assert_eq!(consumed(&[0xE9]), Ok((Opcode::JpHl, 1)));
}

#[test]
fn extended_table_rows() {
    assert_eq!(extended_opcode(0x00), Opcode::Rlc(Register8::B));
    assert_eq!(extended_opcode(0x02), Opcode::Rlc(Register8::E));
    assert_eq!(extended_opcode(0x0D), Opcode::Rrc(Register8::H));
    assert_eq!(extended_opcode(0x12), Opcode::Rl(Register8::D));
    assert_eq!(extended_opcode(0x1F), Opcode::Rr(Register8::A));
    assert_eq!(extended_opcode(0x37), Opcode::Swap(Register8::A));
    assert_eq!(extended_opcode(0x3E), Opcode::Srl(Register8::DerefHL));
    assert_eq!(extended_opcode(0x7C), Opcode::Bit(7, Register8::H));
    assert_eq!(extended_opcode(0x87), Opcode::Res(0, Register8::A));
    assert_eq!(extended_opcode(0xFE), Opcode::SetBit(7, Register8::DerefHL));
}

#[test]
fn primary_opcode_with_operands() {
    assert_eq!(primary_opcode(0xD3, 0, 0), None);
    assert_eq!(primary_opcode(0xCB, 0, 0), None);
    assert_eq!(primary_opcode(0x06, 9, 0), Some(Opcode::StoreImm8(Register8::B, 9)));
    assert_eq!(Opcode::Jp(None, 0).encoded_operand_len(), 2);
    assert_eq!(Opcode::Jr(None, 0).encoded_operand_len(), 1);
    assert_eq!(Opcode::Nop.encoded_operand_len(), 0);
}
