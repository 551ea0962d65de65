//! General facts about decoding and the instruction stream, proved over the
//! specifications that the functions meet.

use crate::data::RomHeader;
use crate::encoding::{ESCAPE, extended, primary};
use crate::opcodes::Opcode;
use crate::parser::{ParseError, decode, header, read_outcome};
use crate::{StreamState, header_view_of, step};
use vstd::prelude::*;

verus! {

/// The opcode bytes of the primary table that have no instruction meaning.
pub open spec fn undefined_opcodes() -> Set<u8> {
    set![0xD3u8, 0xDBu8, 0xDDu8, 0xE3u8, 0xE4u8, 0xEBu8, 0xECu8, 0xEDu8, 0xF4u8, 0xFCu8, 0xFDu8]
}

/// Every byte that follows the escape byte decodes, whatever comes after it:
/// the instruction takes two bytes and belongs to the escape-prefixed family.
pub proof fn lemma_extended_table_total(b: u8, rest: Seq<u8>)
    ensures
        decode(seq![ESCAPE, b] + rest) == Ok::<(Opcode, usize), ParseError>((extended(b), 2usize)),
        extended(b).is_extended(),
{
    let s = seq![ESCAPE, b] + rest;
    assert(s[0] == ESCAPE && s[1] == b);
}

/// Exactly eleven opcode bytes of the primary table have no meaning, and they
/// are `undefined_opcodes()`.
pub proof fn lemma_undefined_opcodes()
    ensures
        undefined_opcodes().len() == 11,
        forall|b: u8|
            b != ESCAPE ==> (#[trigger] primary(b, 0, 0) is None <==> undefined_opcodes().contains(
                b,
            )),
{
    assert(undefined_opcodes().len() == 11);
}

/// Number of operand bytes that follow a defined opcode byte of the primary
/// table.
pub open spec fn operand_width(b: u8) -> usize {
    match primary(b, 0, 0) {
        Some(form) => form.operand_len(),
        None => 0,
    }
}

/// How an opcode byte other than the escape byte decodes: the bytes of
/// `undefined_opcodes()` fail with `UndefinedOpcode`; every other byte
/// decodes, taking itself and its 0, 1 or 2 operand bytes, when they are
/// there, and fails with `OutOfData` when the input ends right after it but
/// its form takes operands.
pub proof fn lemma_primary_decoding(b: u8, rest: Seq<u8>)
    requires
        b != ESCAPE,
    ensures
        undefined_opcodes().contains(b) ==> decode(seq![b] + rest) == Err::<(Opcode, usize), ParseError>(
            ParseError::UndefinedOpcode(b),
        ),
        !undefined_opcodes().contains(b) ==> {
            &&& operand_width(b) <= 2
            &&& rest.len() >= operand_width(b) ==> (decode(seq![b] + rest) matches Ok((_, len))
                && len == 1 + operand_width(b))
            &&& operand_width(b) > 0 ==> decode(seq![b]) == Err::<(Opcode, usize), ParseError>(
                ParseError::OutOfData,
            )
        },
{
    lemma_undefined_opcodes();
    assert((seq![b] + rest)[0] == b);
    assert(seq![b][0] == b);
}

/// Decoding the same bytes twice gives equal instructions and consumes the
/// same number of bytes: any two outcomes that meet the contract of
/// `parse_instruction` on one input agree.
pub proof fn lemma_decoding_deterministic<'a, 'b>(
    input: Seq<u8>,
    r1: Result<(&'a [u8], Opcode), ParseError>,
    r2: Result<(&'b [u8], Opcode), ParseError>,
)
    requires
        read_outcome(r1, input, decode(input)),
        read_outcome(r2, input, decode(input)),
    ensures
        r1 is Ok <==> r2 is Ok,
        r1 matches Ok((rest1, op1)) ==> (r2 matches Ok((rest2, op2)) && op1 == op2
            && rest1@.len() == rest2@.len()),
        r1 matches Err(e1) ==> (r2 matches Err(e2) && e1 == e2),
{
}

/// Parsing the same header bytes twice gives headers of equal value: any two
/// outcomes that meet the contract of `GameBoyRom::parse_header` on one image
/// agree.
pub proof fn lemma_header_deterministic(
    rom: Seq<u8>,
    r1: Result<RomHeader, ParseError>,
    r2: Result<RomHeader, ParseError>,
)
    requires
        header_view_of(r1) == header(rom),
        header_view_of(r2) == header(rom),
    ensures
        r1 is Ok <==> r2 is Ok,
        r1 matches Ok(h1) ==> (r2 matches Ok(h2) && h1@ == h2@),
        r1 matches Err(e1) ==> (r2 matches Err(e2) && e1 == e2),
{
}

/// The end of an instruction stream is final: after a step that yields no
/// instruction, every later step yields nothing and leaves the state as it is.
pub proof fn lemma_stream_end_is_final(s: StreamState)
    requires
        !(step(s).1 matches Some(Ok(_))),
    ensures
        step(step(s).0).0 == step(s).0,
        step(step(s).0).1 is None,
{
}

/// The header depends only on the header region `0x104`-`0x14F`: two images
/// of at least `0x150` bytes that agree there give the same outcome, whatever
/// the entry point, the code execution point and the bytes after the header
/// hold.
pub proof fn lemma_header_reads_only_its_region(a: Seq<u8>, b: Seq<u8>)
    requires
        a.len() >= 0x150,
        b.len() >= 0x150,
        a.subrange(0x104, 0x150) == b.subrange(0x104, 0x150),
    ensures
        header(a) == header(b),
{
    assert forall|i: int| 0x104 <= i < 0x150 implies a[i] == b[i] by {
        assert(a[i] == a.subrange(0x104, 0x150)[i - 0x104]);
        assert(b[i] == b.subrange(0x104, 0x150)[i - 0x104]);
    }
    assert(a.subrange(0x104, 0x134) =~= b.subrange(0x104, 0x134));
    assert(a.subrange(0x134, 0x143) =~= b.subrange(0x134, 0x143));
    assert(a.subrange(0x144, 0x146) =~= b.subrange(0x144, 0x146));
}

} // verus!
