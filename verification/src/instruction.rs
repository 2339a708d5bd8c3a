//! The decoded instruction representation the execution engine consumes:
//! one tagged value per operation, carrying operand selectors over the
//! 8-bit registers, the 16-bit register pairs, and bit indices.

use vstd::prelude::*;

verus! {

/// Which 8-bit register an operation reads or writes. The flags register
/// cannot be targeted as an ALU operand.
#[derive(Clone, Copy, Debug, PartialEq, Eq, Structural)]
pub enum ArithmeticTarget {
    A,
    B,
    C,
    D,
    E,
    H,
    L,
}

/// Which 16-bit source a pair-wide addition reads: a register pair or the
/// stack pointer.
#[derive(Clone, Copy, Debug, PartialEq, Eq, Structural)]
pub enum WordTarget16 {
    BC,
    DE,
    HL,
    SP,
}

/// Every location an increment or decrement could address: the 8-bit
/// registers, the register pairs and the stack pointer.
#[derive(Clone, Copy, Debug, PartialEq, Eq, Structural)]
pub enum IncDecTarget {
    A,
    B,
    C,
    D,
    E,
    H,
    L,
    BC,
    DE,
    HL,
    SP,
}

/// One decoded instruction, tagged with its operation and carrying its
/// operand selectors. Produced by an out-of-scope decoder, consumed once
/// by the execution engine.
pub enum Instruction {
    /// Add the selected register to A.
    ADD(ArithmeticTarget),
    /// Subtract the selected register from A.
    SUB(ArithmeticTarget),
    /// Subtract the selected register and the carry flag from A.
    SBC(ArithmeticTarget),
    /// Bitwise AND of A with the selected register.
    AND(ArithmeticTarget),
    /// Bitwise OR of A with the selected register.
    OR(ArithmeticTarget),
    /// Bitwise XOR of A with the selected register.
    XOR(ArithmeticTarget),
    /// Compare A with the selected register: the subtraction's flags are
    /// kept, the result is discarded.
    CP(ArithmeticTarget),
    /// Add the selected 16-bit source to the HL pair.
    ADDHL(WordTarget16),
    /// Add the selected register and the carry flag to A.
    ADC(ArithmeticTarget),
    /// Increment the selected register; the carry flag is untouched.
    INC(ArithmeticTarget),
    /// Decrement the selected register; the carry flag is untouched.
    DEC(ArithmeticTarget),
    /// Complement the carry flag.
    CCF,
    /// Set the carry flag.
    SCF,
    /// Complement every bit of A.
    CPL,
    /// Rotate A left through the carry flag; zero flag forced clear.
    RLA,
    /// Rotate A right through the carry flag; zero flag forced clear.
    RRA,
    /// Rotate A left, the departing bit into carry; zero flag forced clear.
    RLCA,
    /// Rotate A right, the departing bit into carry; zero flag forced clear.
    RRCA,
    /// Test one bit of the selected register; only flags change.
    BIT { bit: u8, registers: ArithmeticTarget },
    /// Clear one bit of the selected register; no flags change.
    RES { bit: u8, registers: ArithmeticTarget },
    /// Set one bit of the selected register; no flags change.
    SET { bit: u8, registers: ArithmeticTarget },
    /// Shift the selected register right, bit 7 cleared.
    SRL(ArithmeticTarget),
    /// Shift the selected register right, bit 7 preserved.
    SRA(ArithmeticTarget),
    /// Rotate the selected register right through the carry flag.
    RR(ArithmeticTarget),
    /// Rotate the selected register left through the carry flag.
    RL(ArithmeticTarget),
    /// Rotate the selected register right, the departing bit into carry.
    RRC(ArithmeticTarget),
    /// Rotate the selected register left, the departing bit into carry.
    RLC(ArithmeticTarget),
    /// Exchange the two nibbles of the selected register.
    SWAP(ArithmeticTarget),
    /// Shift the selected register left, bit 0 cleared.
    SLA(ArithmeticTarget),
    /// No effect.
    NOP,
    /// No register or flag effect in this core; suspension semantics live
    /// in the out-of-scope execution loop.
    HALT,
}

impl Instruction {
    /// A decoded instruction is well formed when every bit index it
    /// carries addresses one of the eight bits of a register. The decoder
    /// only produces such values.
    pub open spec fn wf(self) -> bool {
        match self {
            Instruction::BIT { bit, registers: _ } => bit <= 7,
            Instruction::RES { bit, registers: _ } => bit <= 7,
            Instruction::SET { bit, registers: _ } => bit <= 7,
            _ => true,
        }
    }
}

} // verus!
