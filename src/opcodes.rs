//! The instruction set of the Game Boy CPU as a tagged union.

use vstd::prelude::*;

verus! {

/// An 8 bit register.
///
/// Includes the `DerefHL` variant which represents a memory access at the value
/// contained in the `HL` 16 bit register.
#[derive(Debug, Clone, Copy, Hash, PartialEq, Eq, Structural)]
pub enum Register8 {
    A,
    B,
    C,
    D,
    E,
    H,
    L,
    DerefHL,
}

/// A 16 bit register.
///
/// Does not include `PC`, the program counter, used to indicate which
/// instruction is being executed next.
#[derive(Debug, Clone, Copy, Hash, PartialEq, Eq, Structural)]
pub enum Register16 {
    /// 16 bit register that's made up of 2 8 bit registers, `B` and `C`.
    BC,
    /// 16 bit register that's made up of 2 8 bit registers, `D` and `E`.
    DE,
    /// 16 bit register that's made up of 2 8 bit registers, `H` and `L`.
    HL,
    /// 16 bit register that's made up of 2 8 bit registers, `A` and `F`.
    AF,
    /// The stack pointer.
    SP,
}

/// The flag condition that an instruction tests.
///
/// For example, `Opcode::Jp(Some(Flag::NZ), 0x1234)` jumps to location 0x1234
/// when the zero flag is clear.
#[derive(Debug, Clone, Copy, Hash, PartialEq, Eq, Structural)]
pub enum Flag {
    /// The Carry flag.
    C,
    /// The Zero Flag.
    Z,
    /// The inverse of the Carry flag.
    NC,
    /// The inverse of the Zero flag.
    NZ,
}

/// The instructions of the Game Boy CPU.
///
/// The naming tends to be of the form `ActionDestSrc` where there is
/// ambiguity: `Opcode::StoreImm16AddrSp` stores the `SP` register at the
/// address given by the immediate 16 bit value.
///
/// An instruction carries no position and no encoded length.
#[derive(Debug, Clone, Copy, Hash, PartialEq, Eq, Structural)]
pub enum Opcode {
    /// No operation.
    Nop,
    /// The CPU enters a very low-power STOP state; graphics stop drawing.
    Stop,
    /// The CPU enters a low-power HALT state.
    Halt,
    /// Store an immediate value into a 16 bit register.
    StoreImm16(Register16, u16),
    /// Store an immediate value into an 8 bit register.
    StoreImm8(Register8, u8),
    /// Store A at (HL) and increment (`true`) or decrement (`false`) HL.
    StoreAToHlAddr(bool),
    /// Load A from (HL) and increment (`true`) or decrement (`false`) HL.
    LoadAFromHlAddr(bool),
    /// Store A at the address held in a 16 bit register (BC or DE).
    StoreATo16(Register16),
    /// Load A from the address held in a 16 bit register (BC or DE).
    LoadAFromReg16Addr(Register16),
    /// Copy the second 8 bit register into the first.
    Mov8(Register8, Register8),
    /// Relative jump by the offset, when the flag condition holds.
    Jr(Option<Flag>, u8),
    /// Absolute jump to the address, when the flag condition holds.
    Jp(Option<Flag>, u16),
    /// Increment an 8 bit register.
    Inc8(Register8),
    /// Decrement an 8 bit register.
    Dec8(Register8),
    /// Increment a 16 bit register.
    Inc16(Register16),
    /// Decrement a 16 bit register.
    Dec16(Register16),
    /// Push the value in the given register onto the stack.
    Push(Register16),
    /// Pop a value off the stack and load it into the given register.
    Pop(Register16),
    /// Add the given register to A.
    Add(Register8),
    /// Add the given register to A with carry.
    Adc(Register8),
    /// Subtract the given register from A.
    Sub(Register8),
    /// Subtract the given register from A with carry.
    Sbc(Register8),
    /// Bitwise AND the given register with A.
    And(Register8),
    /// Bitwise XOR the given register with A.
    Xor(Register8),
    /// Bitwise OR the given register with A.
    Or(Register8),
    /// Compare the given register with A and set flags.
    Cp(Register8),
    /// Add an immediate value to A.
    Add8(u8),
    /// Add an immediate value to A with carry.
    Adc8(u8),
    /// Subtract an immediate value from A.
    Sub8(u8),
    /// Subtract an immediate value from A with carry.
    Sbc8(u8),
    /// Bitwise AND an immediate value with A.
    And8(u8),
    /// Bitwise XOR an immediate value with A.
    Xor8(u8),
    /// Bitwise OR an immediate value with A.
    Or8(u8),
    /// Compare an immediate value with A and set flags.
    Cp8(u8),
    /// Add a signed immediate offset to SP.
    AddSp8(u8),
    /// Decimal-adjust A after a BCD addition or subtraction.
    Daa,
    /// Set the carry flag.
    Scf,
    /// Bitwise negate the value in A.
    Cpl,
    /// Complement the carry flag.
    Ccf,
    /// Rotate A left.
    Rlca,
    /// Rotate A left through carry.
    Rla,
    /// Rotate A right.
    Rrca,
    /// Rotate A right through carry.
    Rra,
    /// Store SP at the address given by the immediate 16 bit value.
    StoreImm16AddrSp(u16),
    /// Add a 16 bit register to HL.
    AddHl(Register16),
    /// Return from a call, when the flag condition holds.
    Ret(Option<Flag>),
    /// Unconditional return that also enables interrupts.
    Reti,
    /// Disable interrupts.
    Di,
    /// Enable interrupts.
    Ei,
    /// Push the program counter and jump to the address, when the flag
    /// condition holds.
    Call(Option<Flag>, u16),
    /// Jump to the address held in HL.
    JpHl,
    /// Call one of the eight fixed reset vectors; the vector address is the
    /// index (0 to 7) multiplied by 8.
    Rst(u8),
    /// HL = SP + the signed immediate offset.
    LdHlSp8(i8),
    /// Load the value of HL into SP.
    LdSpHl,
    /// Store A at the high-memory address `0xFF00` + the immediate byte.
    StoreHA(u8),
    /// Load A from the high-memory address `0xFF00` + the immediate byte.
    LoadHA(u8),
    /// Store A at the high-memory address `0xFF00` + C.
    StoreCA,
    /// Load A from the high-memory address `0xFF00` + C.
    LoadCA,
    /// Store A at the immediate 16 bit address.
    StoreAAtAddress(u16),
    /// Load A from the immediate 16 bit address.
    LoadAFromAddress(u16),
    /// Rotate register left (escape-prefixed).
    Rlc(Register8),
    /// Rotate register right (escape-prefixed).
    Rrc(Register8),
    /// Rotate register right through carry (escape-prefixed).
    Rr(Register8),
    /// Rotate register left through carry (escape-prefixed).
    Rl(Register8),
    /// Arithmetic left shift on given register (escape-prefixed).
    Sla(Register8),
    /// Arithmetic right shift on given register (escape-prefixed).
    Sra(Register8),
    /// Swap the low and high nibble (escape-prefixed).
    Swap(Register8),
    /// Logical right shift on given register (escape-prefixed).
    Srl(Register8),
    /// Set flags from the given bit (0 to 7) of the register (escape-prefixed).
    Bit(u8, Register8),
    /// Reset the given bit (0 to 7) of the register (escape-prefixed).
    Res(u8, Register8),
    /// Set the given bit (0 to 7) of the register (escape-prefixed).
    SetBit(u8, Register8),
}

impl Opcode {
    /// Number of operand bytes that follow the opcode byte of this
    /// instruction's form in the primary table: 2 for a 16 bit immediate or
    /// address, 1 for an 8 bit immediate, offset or high-memory offset, and 0
    /// otherwise.
    pub open spec fn operand_len(self) -> usize {
        match self {
            Opcode::StoreImm16(..) | Opcode::Jp(..) | Opcode::Call(..)
            | Opcode::StoreImm16AddrSp(..) | Opcode::StoreAAtAddress(..)
            | Opcode::LoadAFromAddress(..) => 2,
            Opcode::StoreImm8(..) | Opcode::Jr(..) | Opcode::Add8(..) | Opcode::Adc8(..)
            | Opcode::Sub8(..) | Opcode::Sbc8(..) | Opcode::And8(..) | Opcode::Xor8(..)
            | Opcode::Or8(..) | Opcode::Cp8(..) | Opcode::AddSp8(..) | Opcode::LdHlSp8(..)
            | Opcode::StoreHA(..) | Opcode::LoadHA(..) => 1,
            _ => 0,
        }
    }

    /// Whether the instruction belongs to the escape-prefixed family:
    /// rotations, shifts, nibble swap, and bit test, reset and set on a bit
    /// index from 0 to 7.
    pub open spec fn is_extended(self) -> bool {
        match self {
            Opcode::Rlc(_) | Opcode::Rrc(_) | Opcode::Rl(_) | Opcode::Rr(_)
            | Opcode::Sla(_) | Opcode::Sra(_) | Opcode::Swap(_) | Opcode::Srl(_) => true,
            Opcode::Bit(i, _) | Opcode::Res(i, _) | Opcode::SetBit(i, _) => i < 8,
            _ => false,
        }
    }

    /// Number of operand bytes that follow the opcode byte of this
    /// instruction's form in the primary table.
    pub fn encoded_operand_len(&self) -> (r: usize)
        ensures
            r == self.operand_len(),
    {
        match self {
            Opcode::StoreImm16(..) | Opcode::Jp(..) | Opcode::Call(..)
            | Opcode::StoreImm16AddrSp(..) | Opcode::StoreAAtAddress(..)
            | Opcode::LoadAFromAddress(..) => 2,
            Opcode::StoreImm8(..) | Opcode::Jr(..) | Opcode::Add8(..) | Opcode::Adc8(..)
            | Opcode::Sub8(..) | Opcode::Sbc8(..) | Opcode::And8(..) | Opcode::Xor8(..)
            | Opcode::Or8(..) | Opcode::Cp8(..) | Opcode::AddSp8(..) | Opcode::LdHlSp8(..)
            | Opcode::StoreHA(..) | Opcode::LoadHA(..) => 1,
            _ => 0,
        }
    }
}

} // verus!
