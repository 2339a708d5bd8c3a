//! The register file: eight 8-bit cells (with the structured `Flags` record
//! standing in for the hardware F register) and the composed 16-bit pair
//! views AF, BC, DE and HL, together with the codec between `Flags` and its
//! packed byte form.

use vstd::prelude::*;

verus! {

/// The four meaningful bits of the F register, stored as booleans.
///
/// When packed to a byte, bit 7 holds `zero`, bit 6 `subtract`, bit 5
/// `half_carry`, bit 4 `carry`, and bits 3..0 are always zero.
#[derive(Clone, Copy, Debug, PartialEq, Eq, Structural)]
pub struct Flags {
    /// Set when the last flag-affecting result was zero.
    pub zero: bool,
    /// Set when the last flag-affecting operation was a subtraction.
    pub subtract: bool,
    /// Set when a carry or borrow crossed the bit 3/4 nibble boundary.
    pub half_carry: bool,
    /// Set when a carry or borrow left the most significant bit.
    pub carry: bool,
}

/// The packed byte form of a flag record: each boolean in its fixed bit
/// position of the upper nibble, the lower nibble always zero.
pub open spec fn spec_flags_to_byte(f: Flags) -> u8 {
    (if f.zero {
        0x80u8
    } else {
        0u8
    }) | (if f.subtract {
        0x40u8
    } else {
        0u8
    }) | (if f.half_carry {
        0x20u8
    } else {
        0u8
    }) | (if f.carry {
        0x10u8
    } else {
        0u8
    })
}

/// The flag record read from a byte: each boolean taken from its fixed bit
/// position of the upper nibble, the lower nibble ignored.
pub open spec fn spec_flags_from_byte(byte: u8) -> Flags {
    Flags {
        zero: byte & 0x80 != 0,
        subtract: byte & 0x40 != 0,
        half_carry: byte & 0x20 != 0,
        carry: byte & 0x10 != 0,
    }
}

impl Flags {
    /// Pack the flag record into its byte form. The lower nibble of the
    /// result is always zero.
    pub fn to_byte(self) -> (r: u8)
        ensures
            r == spec_flags_to_byte(self),
    {
        (if self.zero {
            0x80u8
        } else {
            0u8
        }) | (if self.subtract {
            0x40u8
        } else {
            0u8
        }) | (if self.half_carry {
            0x20u8
        } else {
            0u8
        }) | (if self.carry {
            0x10u8
        } else {
            0u8
        })
    }

    /// Read a flag record out of a byte. The lower nibble of the input is
    /// ignored.
    pub fn from_byte(byte: u8) -> (r: Flags)
        ensures
            r == spec_flags_from_byte(byte),
    {
        Flags {
            zero: byte & 0x80 != 0,
            subtract: byte & 0x40 != 0,
            half_carry: byte & 0x20 != 0,
            carry: byte & 0x10 != 0,
        }
    }
}

impl Default for Flags {
    /// All four flags clear.
    fn default() -> (r: Flags)
        ensures
            r == (Flags { zero: false, subtract: false, half_carry: false, carry: false }),
    {
        Flags { zero: false, subtract: false, half_carry: false, carry: false }
    }
}

/// Packing a flag record and reading it back yields the same record: the
/// byte form loses nothing of the four booleans.
pub proof fn lemma_flags_byte_round_trip(f: Flags)
    ensures
        spec_flags_from_byte(spec_flags_to_byte(f)) == f,
{
    let z = f.zero;
    let s = f.subtract;
    let h = f.half_carry;
    let c = f.carry;
    let packed = (if z {
        0x80u8
    } else {
        0u8
    }) | (if s {
        0x40u8
    } else {
        0u8
    }) | (if h {
        0x20u8
    } else {
        0u8
    }) | (if c {
        0x10u8
    } else {
        0u8
    });
    assert(packed & 0x80 != 0 <==> z) by (bit_vector)
        requires
            packed == (if z {
                0x80u8
            } else {
                0u8
            }) | (if s {
                0x40u8
            } else {
                0u8
            }) | (if h {
                0x20u8
            } else {
                0u8
            }) | (if c {
                0x10u8
            } else {
                0u8
            }),
    ;
    assert(packed & 0x40 != 0 <==> s) by (bit_vector)
        requires
            packed == (if z {
                0x80u8
            } else {
                0u8
            }) | (if s {
                0x40u8
            } else {
                0u8
            }) | (if h {
                0x20u8
            } else {
                0u8
            }) | (if c {
                0x10u8
            } else {
                0u8
            }),
    ;
    assert(packed & 0x20 != 0 <==> h) by (bit_vector)
        requires
            packed == (if z {
                0x80u8
            } else {
                0u8
            }) | (if s {
                0x40u8
            } else {
                0u8
            }) | (if h {
                0x20u8
            } else {
                0u8
            }) | (if c {
                0x10u8
            } else {
                0u8
            }),
    ;
    assert(packed & 0x10 != 0 <==> c) by (bit_vector)
        requires
            packed == (if z {
                0x80u8
            } else {
                0u8
            }) | (if s {
                0x40u8
            } else {
                0u8
            }) | (if h {
                0x20u8
            } else {
                0u8
            }) | (if c {
                0x10u8
            } else {
                0u8
            }),
    ;
}

/// Reading a byte into a flag record and packing it again yields the byte
/// with its lower nibble cleared: the upper nibble round-trips, the lower
/// nibble is forced to zero.
pub proof fn lemma_byte_flags_round_trip(byte: u8)
    ensures
        spec_flags_to_byte(spec_flags_from_byte(byte)) == byte & 0xF0,
{
    assert(((if byte & 0x80 != 0 {
        0x80u8
    } else {
        0u8
    }) | (if byte & 0x40 != 0 {
        0x40u8
    } else {
        0u8
    }) | (if byte & 0x20 != 0 {
        0x20u8
    } else {
        0u8
    }) | (if byte & 0x10 != 0 {
        0x10u8
    } else {
        0u8
    })) == byte & 0xF0) by (bit_vector);
}

/// The eight 8-bit cells of the register file. The F register is held as
/// the structured `Flags` record; the 16-bit pairs AF, BC, DE and HL are
/// computed views over these cells, not separate storage.
#[derive(Clone, Copy, Debug, PartialEq, Eq, Structural)]
pub struct Registers {
    /// The accumulator, high byte of the AF view.
    pub a: u8,
    /// High byte of the BC view.
    pub b: u8,
    /// Low byte of the BC view.
    pub c: u8,
    /// High byte of the DE view.
    pub d: u8,
    /// Low byte of the DE view.
    pub e: u8,
    /// The flag record, low byte of the AF view in its packed form.
    pub f: Flags,
    /// High byte of the HL view.
    pub h: u8,
    /// Low byte of the HL view.
    pub l: u8,
}

impl Registers {
    /// The register file at reset: every cell zero, every flag clear.
    pub open spec fn spec_reset() -> Registers {
        Registers {
            a: 0,
            b: 0,
            c: 0,
            d: 0,
            e: 0,
            f: Flags { zero: false, subtract: false, half_carry: false, carry: false },
            h: 0,
            l: 0,
        }
    }

    /// The AF view: A in the high byte, the packed flags in the low byte.
    pub open spec fn spec_af(self) -> u16 {
        ((self.a as u16) << 8) | (spec_flags_to_byte(self.f) as u16)
    }

    /// The BC view.
    pub open spec fn spec_bc(self) -> u16 {
        ((self.b as u16) << 8) | (self.c as u16)
    }

    /// The DE view.
    pub open spec fn spec_de(self) -> u16 {
        ((self.d as u16) << 8) | (self.e as u16)
    }

    /// The HL view.
    pub open spec fn spec_hl(self) -> u16 {
        ((self.h as u16) << 8) | (self.l as u16)
    }

    /// The register file after writing the AF view: A takes the high byte,
    /// the flags are decoded from the low byte with its lower nibble
    /// forced to zero.
    pub open spec fn spec_with_af(self, value: u16) -> Registers {
        Registers {
            a: (value >> 8) as u8,
            f: spec_flags_from_byte((value & 0xF0) as u8),
            ..self
        }
    }

    /// The register file after writing the BC view.
    pub open spec fn spec_with_bc(self, value: u16) -> Registers {
        Registers { b: (value >> 8) as u8, c: (value & 0xFF) as u8, ..self }
    }

    /// The register file after writing the DE view.
    pub open spec fn spec_with_de(self, value: u16) -> Registers {
        Registers { d: (value >> 8) as u8, e: (value & 0xFF) as u8, ..self }
    }

    /// The register file after writing the HL view.
    pub open spec fn spec_with_hl(self, value: u16) -> Registers {
        Registers { h: (value >> 8) as u8, l: (value & 0xFF) as u8, ..self }
    }

    /// Read the AF view.
    pub fn get_af(&self) -> (r: u16)
        ensures
            r == self.spec_af(),
    {
        ((self.a as u16) << 8) | (self.f.to_byte() as u16)
    }

    /// Write the AF view. Only the upper nibble of the low byte reaches
    /// the flags; reading the view back yields the value with its low
    /// nibble cleared.
    pub fn set_af(&mut self, value: u16)
        ensures
            *final(self) == old(self).spec_with_af(value),
            final(self).spec_af() == value & 0xFFF0,
    {
        proof {
            lemma_af_write_read(*self, value);
        }
        assert(value >> 8 < 256) by (bit_vector);
        assert(value & 0xF0 < 256) by (bit_vector);
        self.a = (value >> 8) as u8;
        self.f = Flags::from_byte((value & 0xF0) as u8);
    }

    /// Read the BC view.
    pub fn get_bc(&self) -> (r: u16)
        ensures
            r == self.spec_bc(),
    {
        ((self.b as u16) << 8) | (self.c as u16)
    }

    /// Write the BC view; reading it back yields the same value.
    pub fn set_bc(&mut self, value: u16)
        ensures
            *final(self) == old(self).spec_with_bc(value),
            final(self).spec_bc() == value,
    {
        assert(value >> 8 < 256 && value & 0xFF < 256) by (bit_vector);
        self.b = (value >> 8) as u8;
        self.c = (value & 0xFF) as u8;
        proof {
            lemma_pair_write_read(value);
        }
    }

    /// Read the DE view.
    pub fn get_de(&self) -> (r: u16)
        ensures
            r == self.spec_de(),
    {
        ((self.d as u16) << 8) | (self.e as u16)
    }

    /// Write the DE view; reading it back yields the same value.
    pub fn set_de(&mut self, value: u16)
        ensures
            *final(self) == old(self).spec_with_de(value),
            final(self).spec_de() == value,
    {
        assert(value >> 8 < 256 && value & 0xFF < 256) by (bit_vector);
        self.d = (value >> 8) as u8;
        self.e = (value & 0xFF) as u8;
        proof {
            lemma_pair_write_read(value);
        }
    }

    /// Read the HL view.
    pub fn get_hl(&self) -> (r: u16)
        ensures
            r == self.spec_hl(),
    {
        ((self.h as u16) << 8) | (self.l as u16)
    }

    /// Write the HL view; reading it back yields the same value.
    pub fn set_hl(&mut self, value: u16)
        ensures
            *final(self) == old(self).spec_with_hl(value),
            final(self).spec_hl() == value,
    {
        assert(value >> 8 < 256 && value & 0xFF < 256) by (bit_vector);
        self.h = (value >> 8) as u8;
        self.l = (value & 0xFF) as u8;
        proof {
            lemma_pair_write_read(value);
        }
    }
}

impl Default for Registers {
    /// The register file at reset.
    fn default() -> (r: Registers)
        ensures
            r == Registers::spec_reset(),
    {
        Registers {
            a: 0,
            b: 0,
            c: 0,
            d: 0,
            e: 0,
            f: Flags::default(),
            h: 0,
            l: 0,
        }
    }
}

/// Splitting a 16-bit value into its two bytes and composing them again
/// yields the value: every pair view other than AF round-trips exactly.
pub proof fn lemma_pair_write_read(value: u16)
    ensures
        ((((value >> 8) as u8) as u16) << 8) | (((value & 0xFF) as u8) as u16) == value,
{
    assert(((((value >> 8) as u8) as u16) << 8) | (((value & 0xFF) as u8) as u16) == value)
        by (bit_vector);
}

/// Writing the AF view and reading it back yields the value with its low
/// nibble cleared: the flag record cannot hold the low nibble, so the
/// write forces those bits to zero.
pub proof fn lemma_af_write_read(regs: Registers, value: u16)
    ensures
        regs.spec_with_af(value).spec_af() == value & 0xFFF0,
{
    let lo = (value & 0xF0) as u8;
    lemma_byte_flags_round_trip(lo);
    assert(((value & 0xF0) as u8) & 0xF0 == (value & 0xF0) as u8) by (bit_vector);
    assert(((((value >> 8) as u8) as u16) << 8) | ((((value & 0xF0) as u8)) as u16) == value
        & 0xFFF0) by (bit_vector);
}

} // verus!
