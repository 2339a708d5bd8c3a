//! The execution engine: a CPU value owning the register file, the program
//! counter and the stack pointer, and the dispatch that applies one decoded
//! instruction to that state with exact flag semantics.

use vstd::prelude::*;

use crate::registers::Flags;
use crate::registers::Registers;
use crate::instruction::ArithmeticTarget;
use crate::instruction::Instruction;
use crate::instruction::WordTarget16;

verus! {

/// One emulated CPU instance: the register file plus the two free-standing
/// 16-bit registers. Mutated in place by every executed instruction.
#[derive(Clone, Copy, Debug, PartialEq, Eq, Structural)]
pub struct CPU {
    /// The eight 8-bit cells and the flag record.
    pub registers: Registers,
    /// Address of the next opcode or operand byte; never touched by the
    /// ALU and bit instructions this core executes.
    pub program_counter: u16,
    /// Top of the downward-growing stack.
    pub stack_pointer: u16,
}

/// An integer reduced to its low byte: unsigned 8-bit wraparound.
pub open spec fn wrap8(x: int) -> u8 {
    (x % 256) as u8
}

/// An integer reduced to its low 16 bits: unsigned 16-bit wraparound.
pub open spec fn wrap16(x: int) -> u16 {
    (x % 65536) as u16
}

/// The carry flag as the 0-or-1 summand the ALU feeds into a
/// with-carry operation.
pub open spec fn carry_term(c: bool) -> int {
    if c {
        1int
    } else {
        0int
    }
}

/// The flags after an addition into A with carry-in `cin` (0 for ADD,
/// the old carry for ADC): carry is an unsigned overflow comparison,
/// half-carry is computed on the low nibbles.
pub open spec fn spec_add_flags(a: u8, rhs: u8, cin: int) -> Flags {
    Flags {
        zero: wrap8(a + rhs + cin) == 0,
        subtract: false,
        half_carry: (a & 0x0F) + (rhs & 0x0F) + cin > 0x0F,
        carry: a + rhs + cin > 255,
    }
}

/// The flags after a subtraction from A with borrow-in `cin` (0 for
/// SUB and CP, the old carry for SBC): carry is an unsigned borrow
/// comparison, half-carry a borrow comparison on the low nibbles.
pub open spec fn spec_sub_flags(a: u8, rhs: u8, cin: int) -> Flags {
    Flags {
        zero: wrap8(a - rhs - cin) == 0,
        subtract: true,
        half_carry: (a & 0x0F) < (rhs & 0x0F) + cin,
        carry: a < rhs + cin,
    }
}

/// The flags after incrementing a register: half-carry exactly when the
/// low nibble wraps, the carry flag untouched.
pub open spec fn spec_inc_flags(v: u8, old_flags: Flags) -> Flags {
    Flags {
        zero: wrap8(v + 1) == 0,
        subtract: false,
        half_carry: v & 0x0F == 0x0F,
        carry: old_flags.carry,
    }
}

/// The flags after decrementing a register: half-carry exactly when the
/// low nibble borrows, the carry flag untouched.
pub open spec fn spec_dec_flags(v: u8, old_flags: Flags) -> Flags {
    Flags {
        zero: wrap8(v - 1) == 0,
        subtract: true,
        half_carry: v & 0x0F == 0x00,
        carry: old_flags.carry,
    }
}

/// The flags after a pair-wide addition into HL: the zero flag is left
/// untouched, half-carry is computed on the low twelve bits.
pub open spec fn spec_add16_flags(hl: u16, rhs: u16, old_flags: Flags) -> Flags {
    Flags {
        zero: old_flags.zero,
        subtract: false,
        half_carry: (hl & 0x0FFF) + (rhs & 0x0FFF) > 0x0FFF,
        carry: hl + rhs > 65535,
    }
}

/// The flags after a rotate or shift of an arbitrary register: zero
/// reflects the result, half-carry is cleared, carry holds the
/// departing bit.
pub open spec fn spec_rotate_flags(result: u8, carry_out: bool) -> Flags {
    Flags { zero: result == 0, subtract: false, half_carry: false, carry: carry_out }
}

/// The flags after one of the A-only legacy rotates: the hardware
/// forces zero clear whatever the result, a genuine quirk of these four
/// forms.
pub open spec fn spec_rotate_a_flags(carry_out: bool) -> Flags {
    Flags { zero: false, subtract: false, half_carry: false, carry: carry_out }
}

/// The flags after a bit test: zero mirrors the complement of the
/// tested bit, half-carry is always set, carry is untouched.
pub open spec fn spec_bit_flags(bit: u8, v: u8, old_flags: Flags) -> Flags {
    Flags {
        zero: (v >> bit) & 1 == 0,
        subtract: false,
        half_carry: true,
        carry: old_flags.carry,
    }
}

/// Rotate left by one, the departing bit 7 wrapping into bit 0.
pub open spec fn spec_rlc(v: u8) -> u8 {
    (v << 1) | (v >> 7)
}

/// Rotate right by one, the departing bit 0 wrapping into bit 7.
pub open spec fn spec_rrc(v: u8) -> u8 {
    (v >> 1) | (v << 7)
}

/// Rotate left through the carry flag: the old carry enters at bit 0.
pub open spec fn spec_rl(v: u8, carry: bool) -> u8 {
    (v << 1) | (if carry {
        1u8
    } else {
        0u8
    })
}

/// Rotate right through the carry flag: the old carry enters at bit 7.
pub open spec fn spec_rr(v: u8, carry: bool) -> u8 {
    (v >> 1) | (if carry {
        0x80u8
    } else {
        0u8
    })
}

/// Shift left by one, bit 0 cleared.
pub open spec fn spec_sla(v: u8) -> u8 {
    v << 1
}

/// Arithmetic shift right by one, bit 7 preserved.
pub open spec fn spec_sra(v: u8) -> u8 {
    (v >> 1) | (v & 0x80)
}

/// Logical shift right by one, bit 7 cleared.
pub open spec fn spec_srl(v: u8) -> u8 {
    v >> 1
}

/// Exchange the two nibbles.
pub open spec fn spec_swap(v: u8) -> u8 {
    (v << 4) | (v >> 4)
}

impl CPU {
    /// The value the given selector reads out of the register file.
    pub open spec fn spec_target(self, t: ArithmeticTarget) -> u8 {
        match t {
            ArithmeticTarget::A => self.registers.a,
            ArithmeticTarget::B => self.registers.b,
            ArithmeticTarget::C => self.registers.c,
            ArithmeticTarget::D => self.registers.d,
            ArithmeticTarget::E => self.registers.e,
            ArithmeticTarget::H => self.registers.h,
            ArithmeticTarget::L => self.registers.l,
        }
    }

    /// The CPU after writing `v` into the register the selector names.
    pub open spec fn spec_with_target(self, t: ArithmeticTarget, v: u8) -> CPU {
        match t {
            ArithmeticTarget::A => CPU {
                registers: Registers { a: v, ..self.registers },
                ..self
            },
            ArithmeticTarget::B => CPU {
                registers: Registers { b: v, ..self.registers },
                ..self
            },
            ArithmeticTarget::C => CPU {
                registers: Registers { c: v, ..self.registers },
                ..self
            },
            ArithmeticTarget::D => CPU {
                registers: Registers { d: v, ..self.registers },
                ..self
            },
            ArithmeticTarget::E => CPU {
                registers: Registers { e: v, ..self.registers },
                ..self
            },
            ArithmeticTarget::H => CPU {
                registers: Registers { h: v, ..self.registers },
                ..self
            },
            ArithmeticTarget::L => CPU {
                registers: Registers { l: v, ..self.registers },
                ..self
            },
        }
    }

    /// The 16-bit value the given selector reads: a composed register
    /// pair, or the stack pointer.
    pub open spec fn spec_word(self, t: WordTarget16) -> u16 {
        match t {
            WordTarget16::BC => self.registers.spec_bc(),
            WordTarget16::DE => self.registers.spec_de(),
            WordTarget16::HL => self.registers.spec_hl(),
            WordTarget16::SP => self.stack_pointer,
        }
    }

    /// The CPU with its flag record replaced.
    pub open spec fn spec_with_flags(self, f: Flags) -> CPU {
        CPU { registers: Registers { f, ..self.registers }, ..self }
    }

    /// The CPU with A and the flag record replaced.
    pub open spec fn spec_with_a_flags(self, a: u8, f: Flags) -> CPU {
        CPU { registers: Registers { a, f, ..self.registers }, ..self }
    }

    /// The state after executing one decoded instruction: the
    /// mathematical model of the execution engine, one arm per
    /// operation, following the hardware's flag semantics exactly.
    pub open spec fn spec_step(self, instruction: Instruction) -> CPU {
        let a = self.registers.a;
        let f = self.registers.f;
        match instruction {
            Instruction::ADD(t) => {
                let rhs = self.spec_target(t);
                self.spec_with_a_flags(wrap8(a + rhs), spec_add_flags(a, rhs, 0))
            },
            Instruction::ADC(t) => {
                let rhs = self.spec_target(t);
                let cin = carry_term(f.carry);
                self.spec_with_a_flags(wrap8(a + rhs + cin), spec_add_flags(a, rhs, cin))
            },
            Instruction::SUB(t) => {
                let rhs = self.spec_target(t);
                self.spec_with_a_flags(wrap8(a - rhs), spec_sub_flags(a, rhs, 0))
            },
            Instruction::SBC(t) => {
                let rhs = self.spec_target(t);
                let cin = carry_term(f.carry);
                self.spec_with_a_flags(wrap8(a - rhs - cin), spec_sub_flags(a, rhs, cin))
            },
            Instruction::AND(t) => {
                let rhs = self.spec_target(t);
                self.spec_with_a_flags(
                    a & rhs,
                    (Flags { zero: a & rhs == 0, subtract: false, half_carry: true, carry: false }),
                )
            },
            Instruction::OR(t) => {
                let rhs = self.spec_target(t);
                self.spec_with_a_flags(
                    a | rhs,
                    (Flags { zero: a | rhs == 0, subtract: false, half_carry: false, carry: false }),
                )
            },
            Instruction::XOR(t) => {
                let rhs = self.spec_target(t);
                self.spec_with_a_flags(
                    a ^ rhs,
                    (Flags { zero: a ^ rhs == 0, subtract: false, half_carry: false, carry: false }),
                )
            },
            Instruction::CP(t) => {
                let rhs = self.spec_target(t);
                self.spec_with_flags(spec_sub_flags(a, rhs, 0))
            },
            Instruction::ADDHL(t) => {
                let hl = self.registers.spec_hl();
                let rhs = self.spec_word(t);
                CPU {
                    registers: Registers {
                        f: spec_add16_flags(hl, rhs, f),
                        ..self.registers.spec_with_hl(wrap16(hl + rhs))
                    },
                    ..self
                }
            },
            Instruction::INC(t) => {
                let v = self.spec_target(t);
                self.spec_with_target(t, wrap8(v + 1)).spec_with_flags(spec_inc_flags(v, f))
            },
            Instruction::DEC(t) => {
                let v = self.spec_target(t);
                self.spec_with_target(t, wrap8(v - 1)).spec_with_flags(spec_dec_flags(v, f))
            },
            Instruction::CCF => self.spec_with_flags(
                (Flags { zero: f.zero, subtract: false, half_carry: false, carry: !f.carry }),
            ),
            Instruction::SCF => self.spec_with_flags(
                (Flags { zero: f.zero, subtract: false, half_carry: false, carry: true }),
            ),
            Instruction::CPL => self.spec_with_a_flags(
                a ^ 0xFF,
                (Flags { zero: f.zero, subtract: true, half_carry: true, carry: f.carry }),
            ),
            Instruction::RLA => self.spec_with_a_flags(
                spec_rl(a, f.carry),
                spec_rotate_a_flags(a & 0x80 != 0),
            ),
            Instruction::RRA => self.spec_with_a_flags(
                spec_rr(a, f.carry),
                spec_rotate_a_flags(a & 1 != 0),
            ),
            Instruction::RLCA => self.spec_with_a_flags(
                spec_rlc(a),
                spec_rotate_a_flags(a & 0x80 != 0),
            ),
            Instruction::RRCA => self.spec_with_a_flags(
                spec_rrc(a),
                spec_rotate_a_flags(a & 1 != 0),
            ),
            Instruction::BIT { bit, registers } => {
                let v = self.spec_target(registers);
                self.spec_with_flags(spec_bit_flags(bit, v, f))
            },
            Instruction::RES { bit, registers } => {
                let v = self.spec_target(registers);
                self.spec_with_target(registers, v & !(1u8 << bit))
            },
            Instruction::SET { bit, registers } => {
                let v = self.spec_target(registers);
                self.spec_with_target(registers, v | (1u8 << bit))
            },
            Instruction::SRL(t) => {
                let v = self.spec_target(t);
                self.spec_with_target(t, spec_srl(v)).spec_with_flags(
                    spec_rotate_flags(spec_srl(v), v & 1 != 0),
                )
            },
            Instruction::SRA(t) => {
                let v = self.spec_target(t);
                self.spec_with_target(t, spec_sra(v)).spec_with_flags(
                    spec_rotate_flags(spec_sra(v), v & 1 != 0),
                )
            },
            Instruction::RR(t) => {
                let v = self.spec_target(t);
                self.spec_with_target(t, spec_rr(v, f.carry)).spec_with_flags(
                    spec_rotate_flags(spec_rr(v, f.carry), v & 1 != 0),
                )
            },
            Instruction::RL(t) => {
                let v = self.spec_target(t);
                self.spec_with_target(t, spec_rl(v, f.carry)).spec_with_flags(
                    spec_rotate_flags(spec_rl(v, f.carry), v & 0x80 != 0),
                )
            },
            Instruction::RRC(t) => {
                let v = self.spec_target(t);
                self.spec_with_target(t, spec_rrc(v)).spec_with_flags(
                    spec_rotate_flags(spec_rrc(v), v & 1 != 0),
                )
            },
            Instruction::RLC(t) => {
                let v = self.spec_target(t);
                self.spec_with_target(t, spec_rlc(v)).spec_with_flags(
                    spec_rotate_flags(spec_rlc(v), v & 0x80 != 0),
                )
            },
            Instruction::SWAP(t) => {
                let v = self.spec_target(t);
                self.spec_with_target(t, spec_swap(v)).spec_with_flags(
                    spec_rotate_flags(spec_swap(v), false),
                )
            },
            Instruction::SLA(t) => {
                let v = self.spec_target(t);
                self.spec_with_target(t, spec_sla(v)).spec_with_flags(
                    spec_rotate_flags(spec_sla(v), v & 0x80 != 0),
                )
            },
            Instruction::NOP => self,
            Instruction::HALT => self,
        }
    }

    /// A CPU at reset: cleared registers, the program counter at the reset
    /// vector, the stack pointer at the architecturally-defined high
    /// address.
    pub fn new() -> (r: Self)
        ensures
            r.registers == Registers::spec_reset(),
            r.program_counter == 0x0000u16,
            r.stack_pointer == 0xFFFEu16,
    {
        Self { registers: Registers::default(), program_counter: 0x0000, stack_pointer: 0xFFFE }
    }

    /// Read the 8-bit register the selector names.
    pub fn read_target(&self, t: ArithmeticTarget) -> (r: u8)
        ensures
            r == self.spec_target(t),
    {
        match t {
            ArithmeticTarget::A => self.registers.a,
            ArithmeticTarget::B => self.registers.b,
            ArithmeticTarget::C => self.registers.c,
            ArithmeticTarget::D => self.registers.d,
            ArithmeticTarget::E => self.registers.e,
            ArithmeticTarget::H => self.registers.h,
            ArithmeticTarget::L => self.registers.l,
        }
    }

    /// Write the 8-bit register the selector names.
    fn write_target(&mut self, t: ArithmeticTarget, v: u8)
        ensures
            *final(self) == old(self).spec_with_target(t, v),
    {
        match t {
            ArithmeticTarget::A => self.registers.a = v,
            ArithmeticTarget::B => self.registers.b = v,
            ArithmeticTarget::C => self.registers.c = v,
            ArithmeticTarget::D => self.registers.d = v,
            ArithmeticTarget::E => self.registers.e = v,
            ArithmeticTarget::H => self.registers.h = v,
            ArithmeticTarget::L => self.registers.l = v,
        }
    }

    /// Read the 16-bit source the selector names.
    fn read_target_16(&self, t: WordTarget16) -> (r: u16)
        ensures
            r == self.spec_word(t),
    {
        match t {
            WordTarget16::BC => self.registers.get_bc(),
            WordTarget16::DE => self.registers.get_de(),
            WordTarget16::HL => self.registers.get_hl(),
            WordTarget16::SP => self.stack_pointer,
        }
    }

    /// Add `rhs` and a carry-in into A and redefine all four flags as the
    /// adder does: `cin` is 0 for ADD and the old carry for ADC.
    fn add_with_carry_into_a(&mut self, rhs: u8, cin: u8)
        requires
            cin <= 1,
        ensures
            *final(self) == old(self).spec_with_a_flags(
                wrap8(old(self).registers.a + rhs + cin),
                spec_add_flags(old(self).registers.a, rhs, cin as int),
            ),
    {
        let a: u8 = self.registers.a;
        let sum: u16 = a as u16 + rhs as u16 + cin as u16;
        let result: u8 = (sum % 256) as u8;
        let half: bool = (a & 0x0F) as u16 + (rhs & 0x0F) as u16 + cin as u16 > 0x0F;
        self.registers.f = Flags {
            zero: result == 0,
            subtract: false,
            half_carry: half,
            carry: sum > 0xFF,
        };
        self.registers.a = result;
    }

    /// ADD: add `rhs` into A.
    pub fn add_into_a(&mut self, rhs: u8)
        ensures
            *final(self) == old(self).spec_with_a_flags(
                wrap8(old(self).registers.a + rhs),
                spec_add_flags(old(self).registers.a, rhs, 0),
            ),
    {
        self.add_with_carry_into_a(rhs, 0)
    }

    /// Subtract `rhs` and a borrow-in from A and redefine all four flags
    /// as the subtractor does: `cin` is 0 for SUB and the old carry for
    /// SBC. Carry is the unsigned borrow comparison, not the adder's
    /// overflow comparison.
    fn sub_with_borrow_from_a(&mut self, rhs: u8, cin: u8)
        requires
            cin <= 1,
        ensures
            *final(self) == old(self).spec_with_a_flags(
                wrap8(old(self).registers.a - rhs - cin),
                spec_sub_flags(old(self).registers.a, rhs, cin as int),
            ),
    {
        let a: u8 = self.registers.a;
        let total: u16 = rhs as u16 + cin as u16;
        let diff: u16 = (a as u16 + 256 - total) % 256;
        let result: u8 = diff as u8;
        proof {
            lemma_mod_shift_256(a as int - total as int);
        }
        self.registers.f = Flags {
            zero: result == 0,
            subtract: true,
            half_carry: ((a & 0x0F) as u16) < (rhs & 0x0F) as u16 + cin as u16,
            carry: (a as u16) < total,
        };
        self.registers.a = result;
    }

    /// SUB: subtract `rhs` from A.
    pub fn sub_from_a(&mut self, rhs: u8)
        ensures
            *final(self) == old(self).spec_with_a_flags(
                wrap8(old(self).registers.a - rhs),
                spec_sub_flags(old(self).registers.a, rhs, 0),
            ),
    {
        self.sub_with_borrow_from_a(rhs, 0)
    }

    /// AND: combine `rhs` into A; half-carry is always set, carry always
    /// clear.
    pub fn and_from_a(&mut self, rhs: u8)
        ensures
            *final(self) == old(self).spec_with_a_flags(
                old(self).registers.a & rhs,
                (Flags {
                    zero: old(self).registers.a & rhs == 0,
                    subtract: false,
                    half_carry: true,
                    carry: false,
                }),
            ),
    {
        self.registers.a = self.registers.a & rhs;
        self.registers.f = Flags {
            zero: self.registers.a == 0,
            subtract: false,
            half_carry: true,
            carry: false,
        };
    }

    /// OR: combine `rhs` into A; half-carry and carry always clear.
    pub fn or_with_a(&mut self, rhs: u8)
        ensures
            *final(self) == old(self).spec_with_a_flags(
                old(self).registers.a | rhs,
                (Flags {
                    zero: old(self).registers.a | rhs == 0,
                    subtract: false,
                    half_carry: false,
                    carry: false,
                }),
            ),
    {
        self.registers.a = self.registers.a | rhs;
        self.registers.f = Flags {
            zero: self.registers.a == 0,
            subtract: false,
            half_carry: false,
            carry: false,
        };
    }

    /// XOR: combine `rhs` into A; half-carry and carry always clear.
    pub fn xor_with_a(&mut self, rhs: u8)
        ensures
            *final(self) == old(self).spec_with_a_flags(
                old(self).registers.a ^ rhs,
                (Flags {
                    zero: old(self).registers.a ^ rhs == 0,
                    subtract: false,
                    half_carry: false,
                    carry: false,
                }),
            ),
    {
        self.registers.a = self.registers.a ^ rhs;
        self.registers.f = Flags {
            zero: self.registers.a == 0,
            subtract: false,
            half_carry: false,
            carry: false,
        };
    }

    /// CP: the subtraction's flags without storing its result; A is left
    /// exactly as it was.
    pub fn compare_with_a(&mut self, rhs: u8)
        ensures
            *final(self) == old(self).spec_with_flags(
                spec_sub_flags(old(self).registers.a, rhs, 0),
            ),
            final(self).registers.a == old(self).registers.a,
    {
        let a: u8 = self.registers.a;
        proof {
            lemma_mod_shift_256(a as int - rhs as int);
        }
        let diff: u16 = (a as u16 + 256 - rhs as u16) % 256;
        self.registers.f = Flags {
            zero: diff == 0,
            subtract: true,
            half_carry: (a & 0x0F) < (rhs & 0x0F),
            carry: a < rhs,
        };
    }

    /// ADD HL,rr: add the selected 16-bit source into HL; the zero flag
    /// is left untouched, half-carry is computed on the low twelve bits.
    fn add_into_hl(&mut self, rhs: u16)
        ensures
            *final(self) == (CPU {
                registers: Registers {
                    f: spec_add16_flags(old(self).registers.spec_hl(), rhs, old(self).registers.f),
                    ..old(self).registers.spec_with_hl(
                        wrap16(old(self).registers.spec_hl() + rhs),
                    )
                },
                ..*old(self)
            }),
    {
        let hl: u16 = self.registers.get_hl();
        let sum: u32 = hl as u32 + rhs as u32;
        let result: u16 = (sum % 65536) as u16;
        let half: bool = (hl & 0x0FFF) as u32 + (rhs & 0x0FFF) as u32 > 0x0FFF;
        self.registers.set_hl(result);
        self.registers.f = Flags {
            zero: self.registers.f.zero,
            subtract: false,
            half_carry: half,
            carry: sum > 0xFFFF,
        };
    }

    /// INC r: add one to the selected register; the carry flag is
    /// untouched.
    fn inc_target(&mut self, t: ArithmeticTarget)
        ensures
            *final(self) == old(self).spec_with_target(
                t,
                wrap8(old(self).spec_target(t) + 1),
            ).spec_with_flags(spec_inc_flags(old(self).spec_target(t), old(self).registers.f)),
    {
        let v: u8 = self.read_target(t);
        let sum: u16 = v as u16 + 1;
        let result: u8 = (sum % 256) as u8;
        let f = Flags {
            zero: result == 0,
            subtract: false,
            half_carry: v & 0x0F == 0x0F,
            carry: self.registers.f.carry,
        };
        self.write_target(t, result);
        self.registers.f = f;
    }

    /// DEC r: subtract one from the selected register; the carry flag is
    /// untouched.
    fn dec_target(&mut self, t: ArithmeticTarget)
        ensures
            *final(self) == old(self).spec_with_target(
                t,
                wrap8(old(self).spec_target(t) - 1),
            ).spec_with_flags(spec_dec_flags(old(self).spec_target(t), old(self).registers.f)),
    {
        let v: u8 = self.read_target(t);
        proof {
            lemma_mod_shift_256(v as int - 1);
        }
        let diff: u16 = (v as u16 + 255) % 256;
        let result: u8 = diff as u8;
        let f = Flags {
            zero: result == 0,
            subtract: true,
            half_carry: v & 0x0F == 0x00,
            carry: self.registers.f.carry,
        };
        self.write_target(t, result);
        self.registers.f = f;
    }

    /// Apply one decoded instruction to the CPU: the single entry point
    /// of the execution engine. The whole transition, result bytes and
    /// all four flags, is the one `spec_step` describes.
    #[verifier::rlimit(60)]
    pub fn execute(&mut self, instruction: Instruction)
        requires
            instruction.wf(),
        ensures
            *final(self) == old(self).spec_step(instruction),
    {
        match instruction {
            Instruction::ADD(target) => {
                let rhs: u8 = self.read_target(target);
                self.add_with_carry_into_a(rhs, 0);
            },
            Instruction::ADC(target) => {
                let rhs: u8 = self.read_target(target);
                let cin: u8 = if self.registers.f.carry {
                    1
                } else {
                    0
                };
                self.add_with_carry_into_a(rhs, cin);
            },
            Instruction::SUB(target) => {
                let rhs: u8 = self.read_target(target);
                self.sub_with_borrow_from_a(rhs, 0);
            },
            Instruction::SBC(target) => {
                let rhs: u8 = self.read_target(target);
                let cin: u8 = if self.registers.f.carry {
                    1
                } else {
                    0
                };
                self.sub_with_borrow_from_a(rhs, cin);
            },
            Instruction::AND(target) => {
                let rhs: u8 = self.read_target(target);
                self.and_from_a(rhs);
            },
            Instruction::OR(target) => {
                let rhs: u8 = self.read_target(target);
                self.or_with_a(rhs);
            },
            Instruction::XOR(target) => {
                let rhs: u8 = self.read_target(target);
                self.xor_with_a(rhs);
            },
            Instruction::CP(target) => {
                let rhs: u8 = self.read_target(target);
                self.compare_with_a(rhs);
            },
            Instruction::ADDHL(target) => {
                let rhs: u16 = self.read_target_16(target);
                self.add_into_hl(rhs);
            },
            Instruction::INC(target) => {
                self.inc_target(target);
            },
            Instruction::DEC(target) => {
                self.dec_target(target);
            },
            Instruction::CCF => {
                self.registers.f = Flags {
                    zero: self.registers.f.zero,
                    subtract: false,
                    half_carry: false,
                    carry: !self.registers.f.carry,
                };
            },
            Instruction::SCF => {
                self.registers.f = Flags {
                    zero: self.registers.f.zero,
                    subtract: false,
                    half_carry: false,
                    carry: true,
                };
            },
            Instruction::CPL => {
                self.registers.a = self.registers.a ^ 0xFF;
                self.registers.f = Flags {
                    zero: self.registers.f.zero,
                    subtract: true,
                    half_carry: true,
                    carry: self.registers.f.carry,
                };
            },
            Instruction::RLA => {
                let a: u8 = self.registers.a;
                let carry_out: bool = a & 0x80 != 0;
                let bit0: u8 = if self.registers.f.carry {
                    1
                } else {
                    0
                };
                self.registers.a = (a << 1) | bit0;
                self.registers.f = Flags {
                    zero: false,
                    subtract: false,
                    half_carry: false,
                    carry: carry_out,
                };
            },
            Instruction::RRA => {
                let a: u8 = self.registers.a;
                let carry_out: bool = a & 1 != 0;
                let bit7: u8 = if self.registers.f.carry {
                    0x80
                } else {
                    0
                };
                self.registers.a = (a >> 1) | bit7;
                self.registers.f = Flags {
                    zero: false,
                    subtract: false,
                    half_carry: false,
                    carry: carry_out,
                };
            },
            Instruction::RLCA => {
                let a: u8 = self.registers.a;
                self.registers.a = (a << 1) | (a >> 7);
                self.registers.f = Flags {
                    zero: false,
                    subtract: false,
                    half_carry: false,
                    carry: a & 0x80 != 0,
                };
            },
            Instruction::RRCA => {
                let a: u8 = self.registers.a;
                self.registers.a = (a >> 1) | (a << 7);
                self.registers.f = Flags {
                    zero: false,
                    subtract: false,
                    half_carry: false,
                    carry: a & 1 != 0,
                };
            },
            Instruction::BIT { bit, registers } => {
                let v: u8 = self.read_target(registers);
                self.registers.f = Flags {
                    zero: (v >> bit) & 1 == 0,
                    subtract: false,
                    half_carry: true,
                    carry: self.registers.f.carry,
                };
            },
            Instruction::RES { bit, registers } => {
                let v: u8 = self.read_target(registers);
                self.write_target(registers, v & !(1u8 << bit));
            },
            Instruction::SET { bit, registers } => {
                let v: u8 = self.read_target(registers);
                self.write_target(registers, v | (1u8 << bit));
            },
            Instruction::SRL(target) => {
                let v: u8 = self.read_target(target);
                self.write_target(target, v >> 1);
                self.set_rotate_flags(v >> 1, v & 1 != 0);
            },
            Instruction::SRA(target) => {
                let v: u8 = self.read_target(target);
                self.write_target(target, (v >> 1) | (v & 0x80));
                self.set_rotate_flags((v >> 1) | (v & 0x80), v & 1 != 0);
            },
            Instruction::RR(target) => {
                let v: u8 = self.read_target(target);
                let bit7: u8 = if self.registers.f.carry {
                    0x80
                } else {
                    0
                };
                self.write_target(target, (v >> 1) | bit7);
                self.set_rotate_flags((v >> 1) | bit7, v & 1 != 0);
            },
            Instruction::RL(target) => {
                let v: u8 = self.read_target(target);
                let bit0: u8 = if self.registers.f.carry {
                    1
                } else {
                    0
                };
                self.write_target(target, (v << 1) | bit0);
                self.set_rotate_flags((v << 1) | bit0, v & 0x80 != 0);
            },
            Instruction::RRC(target) => {
                let v: u8 = self.read_target(target);
                self.write_target(target, (v >> 1) | (v << 7));
                self.set_rotate_flags((v >> 1) | (v << 7), v & 1 != 0);
            },
            Instruction::RLC(target) => {
                let v: u8 = self.read_target(target);
                self.write_target(target, (v << 1) | (v >> 7));
                self.set_rotate_flags((v << 1) | (v >> 7), v & 0x80 != 0);
            },
            Instruction::SWAP(target) => {
                let v: u8 = self.read_target(target);
                self.write_target(target, (v << 4) | (v >> 4));
                self.set_rotate_flags((v << 4) | (v >> 4), false);
            },
            Instruction::SLA(target) => {
                let v: u8 = self.read_target(target);
                self.write_target(target, v << 1);
                self.set_rotate_flags(v << 1, v & 0x80 != 0);
            },
            Instruction::NOP => {},
            Instruction::HALT => {},
        }
    }

    /// Redefine the flags as every rotate and shift of an arbitrary
    /// register does: zero from the result, half-carry cleared, carry
    /// from the departing bit.
    fn set_rotate_flags(&mut self, result: u8, carry_out: bool)
        ensures
            *final(self) == old(self).spec_with_flags(spec_rotate_flags(result, carry_out)),
    {
        self.registers.f = Flags {
            zero: result == 0,
            subtract: false,
            half_carry: false,
            carry: carry_out,
        };
    }
}

/// Incrementing or decrementing a register never touches the carry flag,
/// whatever the register held and whether or not its low nibble wraps.
pub proof fn lemma_inc_dec_preserve_carry(cpu: CPU, t: ArithmeticTarget)
    ensures
        cpu.spec_step(Instruction::INC(t)).registers.f.carry == cpu.registers.f.carry,
        cpu.spec_step(Instruction::DEC(t)).registers.f.carry == cpu.registers.f.carry,
{
}

/// A comparison computes the subtraction's flags but stores nothing: the
/// accumulator, and every other register cell, is left exactly as it was.
pub proof fn lemma_compare_only_flags(cpu: CPU, t: ArithmeticTarget)
    ensures
        cpu.spec_step(Instruction::CP(t)).registers.a == cpu.registers.a,
        cpu.spec_step(Instruction::CP(t)).registers == (Registers {
            f: cpu.spec_step(Instruction::CP(t)).registers.f,
            ..cpu.registers
        }),
{
}

/// A bit test mutates no register cell; it always sets half-carry, leaves
/// carry untouched, and mirrors the complement of the tested bit in the
/// zero flag.
pub proof fn lemma_bit_test_non_mutating(cpu: CPU, bit: u8, t: ArithmeticTarget)
    requires
        bit <= 7,
    ensures
        cpu.spec_step(Instruction::BIT { bit, registers: t }).registers == (Registers {
            f: cpu.spec_step(Instruction::BIT { bit, registers: t }).registers.f,
            ..cpu.registers
        }),
        cpu.spec_step(Instruction::BIT { bit, registers: t }).registers.f.half_carry == true,
        cpu.spec_step(Instruction::BIT { bit, registers: t }).registers.f.carry
            == cpu.registers.f.carry,
        cpu.spec_step(Instruction::BIT { bit, registers: t }).registers.f.zero == ((
        cpu.spec_target(t) >> bit) & 1 == 0),
{
}

/// Exchanging nibbles clears the carry flag unconditionally, whatever
/// carry held before.
pub proof fn lemma_swap_clears_carry(cpu: CPU, t: ArithmeticTarget)
    ensures
        cpu.spec_step(Instruction::SWAP(t)).registers.f.carry == false,
{
}

/// A pair-wide addition into HL leaves the zero flag untouched, whatever
/// its operands and result.
pub proof fn lemma_add_hl_preserves_zero(cpu: CPU, t: WordTarget16)
    ensures
        cpu.spec_step(Instruction::ADDHL(t)).registers.f.zero == cpu.registers.f.zero,
{
}

/// The four A-only legacy rotates force the zero flag clear, even when
/// their result is zero: a quirk of the hardware that the generic rotate
/// forms do not share.
pub proof fn lemma_rotate_a_forces_zero_clear(cpu: CPU)
    ensures
        cpu.spec_step(Instruction::RLA).registers.f.zero == false,
        cpu.spec_step(Instruction::RRA).registers.f.zero == false,
        cpu.spec_step(Instruction::RLCA).registers.f.zero == false,
        cpu.spec_step(Instruction::RRCA).registers.f.zero == false,
{
}

/// Shifting an integer into the unsigned range by one period does not
/// change its low byte: the bridge between the wrapping subtractions the
/// engine computes and the `wrap8` model.
proof fn lemma_mod_shift_256(x: int)
    requires
        -256 <= x < 256,
    ensures
        (x + 256) % 256 == x % 256,
        0 <= x % 256 < 256,
        x >= 0 ==> x % 256 == x,
        x < 0 ==> x % 256 == x + 256,
{
}

} // verus!
