use gameboy_rom::parser::ParseError;
use gameboy_rom::{GameBoyRom, Opcode, OpcodeStreamer, Register8};

#[test]
fn nop_then_undefined_yields_one_instruction() {
    let bytes = [0x00, 0xDD];
    let rom = GameBoyRom::new(&bytes);
    let mut stream = rom.get_instructions_at(0);
    assert_eq!(stream.next(), Some(Opcode::Nop));
    assert_eq!(stream.next(), None);
    assert_eq!(stream.next(), None);
}

#[test]
fn checked_stream_surfaces_the_terminal_error() {
    let bytes = [0x00, 0xDD];
    let mut stream = OpcodeStreamer::new(&bytes, 0);
    assert_eq!(stream.next_checked(), Some(Ok(Opcode::Nop)));
    assert_eq!(stream.position(), 1);
    assert_eq!(stream.next_checked(), Some(Err(ParseError::UndefinedOpcode(0xDD))));
    assert_eq!(stream.next_checked(), None);
    assert_eq!(stream.position(), 1);
}

#[test]
fn stream_ends_at_end_of_data() {
    let bytes = [0x3E, 0x01, 0xC3, 0x00];
    let mut stream = OpcodeStreamer::new(&bytes, 0);
    assert_eq!(stream.next_checked(), Some(Ok(Opcode::StoreImm8(Register8::A, 1))));
    assert_eq!(stream.position(), 2);
    assert_eq!(stream.next_checked(), Some(Err(ParseError::OutOfData)));
    assert_eq!(stream.next_checked(), None);
}

#[test]
fn stream_starts_at_any_offset() {
    let bytes = [0xFF, 0xFF, 0xCB, 0x37, 0x76];
    let mut stream = GameBoyRom::new(&bytes).get_instructions_at(2);
    assert_eq!(stream.next(), Some(Opcode::Swap(Register8::A)));
    assert_eq!(stream.position(), 4);
    assert_eq!(stream.next(), Some(Opcode::Halt));
    assert_eq!(stream.next(), None);
}

#[test]
fn stream_past_the_end_is_empty() {
    let bytes = [0x00];
    let mut stream = OpcodeStreamer::new(&bytes, 5);
    assert_eq!(stream.next_checked(), Some(Err(ParseError::OutOfData)));
    assert_eq!(stream.next(), None);
}
