//! How opcode bytes encode instructions.
//!
//! An opcode byte is read as three fields: `x` (bits 7-6), `y` (bits 5-3) and
//! `z` (bits 2-0); `y` splits further into `p` (bits 5-4) and `q` (bit 3).
//! The primary table is stated over these fields; the escape-prefixed table
//! over the row (`b / 8`) and the register field (`b % 8`).

use crate::opcodes::{Flag, Opcode, Register16, Register8};
use vstd::prelude::*;

verus! {

/// The opcode byte that selects the escape-prefixed table.
pub const ESCAPE: u8 = 0xCB;

/// The 8 bit register that a 3-bit register field selects:
/// B, C, D, E, H, L, (HL), A.
pub open spec fn reg8_field(i: int) -> Register8 {
    if i == 0 {
        Register8::B
    } else if i == 1 {
        Register8::C
    } else if i == 2 {
        Register8::D
    } else if i == 3 {
        Register8::E
    } else if i == 4 {
        Register8::H
    } else if i == 5 {
        Register8::L
    } else if i == 6 {
        Register8::DerefHL
    } else {
        Register8::A
    }
}

/// The 16 bit register that a 2-bit pair field selects: BC, DE, HL, SP.
pub open spec fn reg16_field(p: int) -> Register16 {
    if p == 0 {
        Register16::BC
    } else if p == 1 {
        Register16::DE
    } else if p == 2 {
        Register16::HL
    } else {
        Register16::SP
    }
}

/// The 16 bit register that a pair field selects for push and pop:
/// BC, DE, HL, AF.
pub open spec fn reg16_stack_field(p: int) -> Register16 {
    if p == 3 {
        Register16::AF
    } else {
        reg16_field(p)
    }
}

/// The flag condition that a 2-bit condition field selects: NZ, Z, NC, C.
pub open spec fn cond_field(i: int) -> Flag {
    if i == 0 {
        Flag::NZ
    } else if i == 1 {
        Flag::Z
    } else if i == 2 {
        Flag::NC
    } else {
        Flag::C
    }
}

/// The 8 bit ALU operation that a 3-bit operation field selects, against a
/// register: add, add with carry, subtract, subtract with carry, and, xor,
/// or, compare.
pub open spec fn alu_reg(y: int, r: Register8) -> Opcode {
    if y == 0 {
        Opcode::Add(r)
    } else if y == 1 {
        Opcode::Adc(r)
    } else if y == 2 {
        Opcode::Sub(r)
    } else if y == 3 {
        Opcode::Sbc(r)
    } else if y == 4 {
        Opcode::And(r)
    } else if y == 5 {
        Opcode::Xor(r)
    } else if y == 6 {
        Opcode::Or(r)
    } else {
        Opcode::Cp(r)
    }
}

/// The same operations as `alu_reg`, against an immediate byte.
pub open spec fn alu_imm(y: int, n: u8) -> Opcode {
    if y == 0 {
        Opcode::Add8(n)
    } else if y == 1 {
        Opcode::Adc8(n)
    } else if y == 2 {
        Opcode::Sub8(n)
    } else if y == 3 {
        Opcode::Sbc8(n)
    } else if y == 4 {
        Opcode::And8(n)
    } else if y == 5 {
        Opcode::Xor8(n)
    } else if y == 6 {
        Opcode::Or8(n)
    } else {
        Opcode::Cp8(n)
    }
}

/// The accumulator and flag operations of column `z == 7` in the low block.
pub open spec fn acc_op(y: int) -> Opcode {
    if y == 0 {
        Opcode::Rlca
    } else if y == 1 {
        Opcode::Rrca
    } else if y == 2 {
        Opcode::Rla
    } else if y == 3 {
        Opcode::Rra
    } else if y == 4 {
        Opcode::Daa
    } else if y == 5 {
        Opcode::Cpl
    } else if y == 6 {
        Opcode::Scf
    } else {
        Opcode::Ccf
    }
}

/// The instruction that opcode byte `op` of the primary table encodes, with
/// `n` as its 8 bit operand and `nn` as its 16 bit operand where its form has
/// one; `None` where the byte has no meaning (and for the escape byte, which
/// selects the other table).
pub open spec fn primary(op: u8, n: u8, nn: u16) -> Option<Opcode> {
    let b = op as int;
    let x = b / 64;
    let y = (b / 8) % 8;
    let z = b % 8;
    let p = y / 2;
    let q = y % 2;
    if x == 0 {
        if z == 0 {
            if y == 0 {
                Some(Opcode::Nop)
            } else if y == 1 {
                Some(Opcode::StoreImm16AddrSp(nn))
            } else if y == 2 {
                Some(Opcode::Stop)
            } else if y == 3 {
                Some(Opcode::Jr(None, n))
            } else {
                Some(Opcode::Jr(Some(cond_field(y - 4)), n))
            }
        } else if z == 1 {
            if q == 0 {
                Some(Opcode::StoreImm16(reg16_field(p), nn))
            } else {
                Some(Opcode::AddHl(reg16_field(p)))
            }
        } else if z == 2 {
            if q == 0 {
                if p < 2 {
                    Some(Opcode::StoreATo16(reg16_field(p)))
                } else {
                    Some(Opcode::StoreAToHlAddr(p == 2))
                }
            } else {
                if p < 2 {
                    Some(Opcode::LoadAFromReg16Addr(reg16_field(p)))
                } else {
                    Some(Opcode::LoadAFromHlAddr(p == 2))
                }
            }
        } else if z == 3 {
            if q == 0 {
                Some(Opcode::Inc16(reg16_field(p)))
            } else {
                Some(Opcode::Dec16(reg16_field(p)))
            }
        } else if z == 4 {
            Some(Opcode::Inc8(reg8_field(y)))
        } else if z == 5 {
            Some(Opcode::Dec8(reg8_field(y)))
        } else if z == 6 {
            Some(Opcode::StoreImm8(reg8_field(y), n))
        } else {
            Some(acc_op(y))
        }
    } else if x == 1 {
        if op == 0x76 {
            Some(Opcode::Halt)
        } else {
            Some(Opcode::Mov8(reg8_field(y), reg8_field(z)))
        }
    } else if x == 2 {
        Some(alu_reg(y, reg8_field(z)))
    } else {
        if z == 0 {
            if y < 4 {
                Some(Opcode::Ret(Some(cond_field(y))))
            } else if y == 4 {
                Some(Opcode::StoreHA(n))
            } else if y == 5 {
                Some(Opcode::AddSp8(n))
            } else if y == 6 {
                Some(Opcode::LoadHA(n))
            } else {
                Some(Opcode::LdHlSp8(n as i8))
            }
        } else if z == 1 {
            if q == 0 {
                Some(Opcode::Pop(reg16_stack_field(p)))
            } else if p == 0 {
                Some(Opcode::Ret(None))
            } else if p == 1 {
                Some(Opcode::Reti)
            } else if p == 2 {
                Some(Opcode::JpHl)
            } else {
                Some(Opcode::LdSpHl)
            }
        } else if z == 2 {
            if y < 4 {
                Some(Opcode::Jp(Some(cond_field(y)), nn))
            } else if y == 4 {
                Some(Opcode::StoreCA)
            } else if y == 5 {
                Some(Opcode::StoreAAtAddress(nn))
            } else if y == 6 {
                Some(Opcode::LoadCA)
            } else {
                Some(Opcode::LoadAFromAddress(nn))
            }
        } else if z == 3 {
            if y == 0 {
                Some(Opcode::Jp(None, nn))
            } else if y == 6 {
                Some(Opcode::Di)
            } else if y == 7 {
                Some(Opcode::Ei)
            } else {
                None
            }
        } else if z == 4 {
            if y < 4 {
                Some(Opcode::Call(Some(cond_field(y)), nn))
            } else {
                None
            }
        } else if z == 5 {
            if q == 0 {
                Some(Opcode::Push(reg16_stack_field(p)))
            } else if p == 0 {
                Some(Opcode::Call(None, nn))
            } else {
                None
            }
        } else if z == 6 {
            Some(alu_imm(y, n))
        } else {
            Some(Opcode::Rst(y as u8))
        }
    }
}

/// The register that the register field selects in the escape-prefixed
/// table. Row `0x00`-`0x0F` (rotate left and right) orders its middle four
/// registers E, D, L, H; every other row orders them D, E, H, L.
pub open spec fn extended_reg(b: u8) -> Register8 {
    let i = b as int % 8;
    if b < 0x10 && i == 2 {
        Register8::E
    } else if b < 0x10 && i == 3 {
        Register8::D
    } else if b < 0x10 && i == 4 {
        Register8::L
    } else if b < 0x10 && i == 5 {
        Register8::H
    } else {
        reg8_field(i)
    }
}

/// The instruction that the byte `b` after the escape byte encodes.
pub open spec fn extended(b: u8) -> Opcode {
    let row = b as int / 8;
    let r = extended_reg(b);
    if row == 0 {
        Opcode::Rlc(r)
    } else if row == 1 {
        Opcode::Rrc(r)
    } else if row == 2 {
        Opcode::Rl(r)
    } else if row == 3 {
        Opcode::Rr(r)
    } else if row == 4 {
        Opcode::Sla(r)
    } else if row == 5 {
        Opcode::Sra(r)
    } else if row == 6 {
        Opcode::Swap(r)
    } else if row == 7 {
        Opcode::Srl(r)
    } else if b < 0x80 {
        Opcode::Bit((row % 8) as u8, r)
    } else if b < 0xC0 {
        Opcode::Res((row % 8) as u8, r)
    } else {
        Opcode::SetBit((row % 8) as u8, r)
    }
}

/// The register that a 3-bit register field selects.
fn reg8_from_field(i: u8) -> (r: Register8)
    requires
        i < 8,
    ensures
        r == reg8_field(i as int),
{
    match i {
        0 => Register8::B,
        1 => Register8::C,
        2 => Register8::D,
        3 => Register8::E,
        4 => Register8::H,
        5 => Register8::L,
        6 => Register8::DerefHL,
        _ => Register8::A,
    }
}

/// Decodes an opcode byte below `0x40`.
fn decode_low_block(op: u8, n: u8, nn: u16) -> (r: Opcode)
    requires
        op < 0x40,
    ensures
        primary(op, n, nn) == Some(r),
{
    match op {
        0x00 => Opcode::Nop,
        0x10 => Opcode::Stop,
        0x18 => Opcode::Jr(None, n),
        0x20 => Opcode::Jr(Some(Flag::NZ), n),
        0x28 => Opcode::Jr(Some(Flag::Z), n),
        0x30 => Opcode::Jr(Some(Flag::NC), n),
        0x38 => Opcode::Jr(Some(Flag::C), n),
        0x08 => Opcode::StoreImm16AddrSp(nn),
        0x01 => Opcode::StoreImm16(Register16::BC, nn),
        0x11 => Opcode::StoreImm16(Register16::DE, nn),
        0x21 => Opcode::StoreImm16(Register16::HL, nn),
        0x31 => Opcode::StoreImm16(Register16::SP, nn),
        0x09 => Opcode::AddHl(Register16::BC),
        0x19 => Opcode::AddHl(Register16::DE),
        0x29 => Opcode::AddHl(Register16::HL),
        0x39 => Opcode::AddHl(Register16::SP),
        0x02 => Opcode::StoreATo16(Register16::BC),
        0x12 => Opcode::StoreATo16(Register16::DE),
        0x22 => Opcode::StoreAToHlAddr(true),
        0x32 => Opcode::StoreAToHlAddr(false),
        0x0A => Opcode::LoadAFromReg16Addr(Register16::BC),
        0x1A => Opcode::LoadAFromReg16Addr(Register16::DE),
        0x2A => Opcode::LoadAFromHlAddr(true),
        0x3A => Opcode::LoadAFromHlAddr(false),
        0x03 => Opcode::Inc16(Register16::BC),
        0x13 => Opcode::Inc16(Register16::DE),
        0x23 => Opcode::Inc16(Register16::HL),
        0x33 => Opcode::Inc16(Register16::SP),
        0x0B => Opcode::Dec16(Register16::BC),
        0x1B => Opcode::Dec16(Register16::DE),
        0x2B => Opcode::Dec16(Register16::HL),
        0x3B => Opcode::Dec16(Register16::SP),
        0x04 => Opcode::Inc8(Register8::B),
        0x0C => Opcode::Inc8(Register8::C),
        0x14 => Opcode::Inc8(Register8::D),
        0x1C => Opcode::Inc8(Register8::E),
        0x24 => Opcode::Inc8(Register8::H),
        0x2C => Opcode::Inc8(Register8::L),
        0x34 => Opcode::Inc8(Register8::DerefHL),
        0x3C => Opcode::Inc8(Register8::A),
        0x05 => Opcode::Dec8(Register8::B),
        0x0D => Opcode::Dec8(Register8::C),
        0x15 => Opcode::Dec8(Register8::D),
        0x1D => Opcode::Dec8(Register8::E),
        0x25 => Opcode::Dec8(Register8::H),
        0x2D => Opcode::Dec8(Register8::L),
        0x35 => Opcode::Dec8(Register8::DerefHL),
        0x3D => Opcode::Dec8(Register8::A),
        0x06 => Opcode::StoreImm8(Register8::B, n),
        0x0E => Opcode::StoreImm8(Register8::C, n),
        0x16 => Opcode::StoreImm8(Register8::D, n),
        0x1E => Opcode::StoreImm8(Register8::E, n),
        0x26 => Opcode::StoreImm8(Register8::H, n),
        0x2E => Opcode::StoreImm8(Register8::L, n),
        0x36 => Opcode::StoreImm8(Register8::DerefHL, n),
        0x3E => Opcode::StoreImm8(Register8::A, n),
        0x07 => Opcode::Rlca,
        0x0F => Opcode::Rrca,
        0x17 => Opcode::Rla,
        0x1F => Opcode::Rra,
        0x27 => Opcode::Daa,
        0x2F => Opcode::Cpl,
        0x37 => Opcode::Scf,
        _ => Opcode::Ccf,
    }
}

/// Decodes an opcode byte from `0xC0` up; `None` for the bytes without a
/// meaning and for the escape byte.
fn decode_high_block(op: u8, n: u8, nn: u16) -> (r: Option<Opcode>)
    requires
        op >= 0xC0,
    ensures
        r == primary(op, n, nn),
{
    match op {
        0xC0 => Some(Opcode::Ret(Some(Flag::NZ))),
        0xC8 => Some(Opcode::Ret(Some(Flag::Z))),
        0xD0 => Some(Opcode::Ret(Some(Flag::NC))),
        0xD8 => Some(Opcode::Ret(Some(Flag::C))),
        0xE0 => Some(Opcode::StoreHA(n)),
        0xE8 => Some(Opcode::AddSp8(n)),
        0xF0 => Some(Opcode::LoadHA(n)),
        0xF8 => Some(Opcode::LdHlSp8(n as i8)),
        0xC1 => Some(Opcode::Pop(Register16::BC)),
        0xD1 => Some(Opcode::Pop(Register16::DE)),
        0xE1 => Some(Opcode::Pop(Register16::HL)),
        0xF1 => Some(Opcode::Pop(Register16::AF)),
        0xC9 => Some(Opcode::Ret(None)),
        0xD9 => Some(Opcode::Reti),
        0xE9 => Some(Opcode::JpHl),
        0xF9 => Some(Opcode::LdSpHl),
        0xC2 => Some(Opcode::Jp(Some(Flag::NZ), nn)),
        0xCA => Some(Opcode::Jp(Some(Flag::Z), nn)),
        0xD2 => Some(Opcode::Jp(Some(Flag::NC), nn)),
        0xDA => Some(Opcode::Jp(Some(Flag::C), nn)),
        0xE2 => Some(Opcode::StoreCA),
        0xEA => Some(Opcode::StoreAAtAddress(nn)),
        0xF2 => Some(Opcode::LoadCA),
        0xFA => Some(Opcode::LoadAFromAddress(nn)),
        0xC3 => Some(Opcode::Jp(None, nn)),
        0xF3 => Some(Opcode::Di),
        0xFB => Some(Opcode::Ei),
        0xC4 => Some(Opcode::Call(Some(Flag::NZ), nn)),
        0xCC => Some(Opcode::Call(Some(Flag::Z), nn)),
        0xD4 => Some(Opcode::Call(Some(Flag::NC), nn)),
        0xDC => Some(Opcode::Call(Some(Flag::C), nn)),
        0xC5 => Some(Opcode::Push(Register16::BC)),
        0xD5 => Some(Opcode::Push(Register16::DE)),
        0xE5 => Some(Opcode::Push(Register16::HL)),
        0xF5 => Some(Opcode::Push(Register16::AF)),
        0xCD => Some(Opcode::Call(None, nn)),
        0xC6 => Some(Opcode::Add8(n)),
        0xCE => Some(Opcode::Adc8(n)),
        0xD6 => Some(Opcode::Sub8(n)),
        0xDE => Some(Opcode::Sbc8(n)),
        0xE6 => Some(Opcode::And8(n)),
        0xEE => Some(Opcode::Xor8(n)),
        0xF6 => Some(Opcode::Or8(n)),
        0xFE => Some(Opcode::Cp8(n)),
        0xC7 => Some(Opcode::Rst(0)),
        0xCF => Some(Opcode::Rst(1)),
        0xD7 => Some(Opcode::Rst(2)),
        0xDF => Some(Opcode::Rst(3)),
        0xE7 => Some(Opcode::Rst(4)),
        0xEF => Some(Opcode::Rst(5)),
        0xF7 => Some(Opcode::Rst(6)),
        0xFF => Some(Opcode::Rst(7)),
        _ => None,
    }
}

/// Decodes an opcode byte of the primary table, given the values of its
/// operands.
pub fn primary_opcode(op: u8, n: u8, nn: u16) -> (r: Option<Opcode>)
    ensures
        r == primary(op, n, nn),
{
    if op < 0x40 {
        Some(decode_low_block(op, n, nn))
    } else if op < 0x80 {
        if op == 0x76 {
            Some(Opcode::Halt)
        } else {
            Some(Opcode::Mov8(reg8_from_field((op / 8) % 8), reg8_from_field(op % 8)))
        }
    } else if op < 0xC0 {
        let r = reg8_from_field(op % 8);
        let y = (op / 8) % 8;
        Some(
            match y {
                0 => Opcode::Add(r),
                1 => Opcode::Adc(r),
                2 => Opcode::Sub(r),
                3 => Opcode::Sbc(r),
                4 => Opcode::And(r),
                5 => Opcode::Xor(r),
                6 => Opcode::Or(r),
                _ => Opcode::Cp(r),
            },
        )
    } else {
        decode_high_block(op, n, nn)
    }
}

/// Decodes the byte that follows the escape byte. Every byte value has a
/// meaning.
pub fn extended_opcode(b: u8) -> (r: Opcode)
    ensures
        r == extended(b),
        r.is_extended(),
{
    let i = b % 8;
    let r = if b < 0x10 && i == 2 {
        Register8::E
    } else if b < 0x10 && i == 3 {
        Register8::D
    } else if b < 0x10 && i == 4 {
        Register8::L
    } else if b < 0x10 && i == 5 {
        Register8::H
    } else {
        reg8_from_field(i)
    };
    let index = (b / 8) % 8;
    match b / 64 {
        0 => match index {
            0 => Opcode::Rlc(r),
            1 => Opcode::Rrc(r),
            2 => Opcode::Rl(r),
            3 => Opcode::Rr(r),
            4 => Opcode::Sla(r),
            5 => Opcode::Sra(r),
            6 => Opcode::Swap(r),
            _ => Opcode::Srl(r),
        },
        1 => Opcode::Bit(index, r),
        2 => Opcode::Res(index, r),
        _ => Opcode::SetBit(index, r),
    }
}

} // verus!
