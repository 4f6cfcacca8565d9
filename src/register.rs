//! Register codes and the packed flag word.
//!
//! DDD (destination) and SSS (source) fields of an opcode name a register:
//!
//! | code | register        |
//! |------|-----------------|
//! | 000  | B               |
//! | 001  | C               |
//! | 010  | D               |
//! | 011  | E               |
//! | 100  | H               |
//! | 101  | L               |
//! | 110  | memory at HL (M)|
//! | 111  | the accumulator |

use crate::error::Error;
use vstd::prelude::*;

verus! {

/// A register operand as encoded in the DDD and SSS fields of an opcode;
/// `Mem` is the byte of memory addressed by HL and `Acc` the accumulator.
#[derive(Debug, Clone, Copy, PartialEq, Eq)]
pub enum Register {
    B,
    C,
    D,
    E,
    H,
    L,
    Mem,
    Acc,
}

/// The three-bit code of a register operand.
pub open spec fn register_code(r: Register) -> u8 {
    match r {
        Register::B => 0,
        Register::C => 1,
        Register::D => 2,
        Register::E => 3,
        Register::H => 4,
        Register::L => 5,
        Register::Mem => 6,
        Register::Acc => 7,
    }
}

/// The register operand named by a three-bit code (only the low three bits
/// count).
pub open spec fn register_of(code: u8) -> Register {
    let c = code % 8;
    if c == 0 {
        Register::B
    } else if c == 1 {
        Register::C
    } else if c == 2 {
        Register::D
    } else if c == 3 {
        Register::E
    } else if c == 4 {
        Register::H
    } else if c == 5 {
        Register::L
    } else if c == 6 {
        Register::Mem
    } else {
        Register::Acc
    }
}

impl Register {
    /// The register operand named by a three-bit code; a code above 7 is
    /// an illegal value.
    pub fn from_code(code: u8) -> (r: Result<Register, Error>)
        ensures
            code < 8 ==> r == Ok::<Register, Error>(register_of(code)),
            code >= 8 ==> r == Err::<Register, Error>(Error::IllegalValue),
    {
        if code < 8 {
            Ok(Self::from_field(code))
        } else {
            Err(Error::IllegalValue)
        }
    }

    /// The register operand named by the low three bits of `field`.
    pub fn from_field(field: u8) -> (r: Register)
        ensures
            r == register_of(field),
            field < 8 ==> register_code(r) == field,
    {
        let c = field % 8;
        if c == 0 {
            Register::B
        } else if c == 1 {
            Register::C
        } else if c == 2 {
            Register::D
        } else if c == 3 {
            Register::E
        } else if c == 4 {
            Register::H
        } else if c == 5 {
            Register::L
        } else if c == 6 {
            Register::Mem
        } else {
            Register::Acc
        }
    }

    /// The three-bit code of this operand.
    pub fn code(&self) -> (r: u8)
        ensures
            r == register_code(*self),
            register_of(r) == *self,
    {
        match self {
            Register::B => 0,
            Register::C => 1,
            Register::D => 2,
            Register::E => 3,
            Register::H => 4,
            Register::L => 5,
            Register::Mem => 6,
            Register::Acc => 7,
        }
    }
}

/// The carry bit of a flag byte (bit 0).
pub open spec fn carry_of(f: u8) -> bool {
    f & 0x01 == 0x01
}

/// The parity bit of a flag byte (bit 2).
pub open spec fn parity_of(f: u8) -> bool {
    f & 0x04 == 0x04
}

/// The auxiliary-carry bit of a flag byte (bit 4).
pub open spec fn aux_of(f: u8) -> bool {
    f & 0x10 == 0x10
}

/// The zero bit of a flag byte (bit 6).
pub open spec fn zero_of(f: u8) -> bool {
    f & 0x40 == 0x40
}

/// The sign bit of a flag byte (bit 7).
pub open spec fn sign_of(f: u8) -> bool {
    f & 0x80 == 0x80
}

/// The fixed bits of a flag byte: bit 1 reads 1, bits 3 and 5 read 0.
pub open spec fn fixed_bits_ok(f: u8) -> bool {
    f & 0x2A == 0x02
}

/// The flag byte holding the five given flags and the fixed bits.
pub open spec fn pack_flags(s: bool, z: bool, ac: bool, p: bool, c: bool) -> u8 {
    (if s { 0x80u8 } else { 0u8 }) | (if z { 0x40u8 } else { 0u8 }) | (if ac { 0x10u8 } else { 0u8 })
        | (if p { 0x04u8 } else { 0u8 }) | 0x02u8 | (if c { 0x01u8 } else { 0u8 })
}

/// The byte that a stored flag word takes when loaded: the five flag bits
/// are kept and the fixed bits are forced.
pub open spec fn normalize_flags(v: u8) -> u8 {
    (v & 0xD5) | 0x02
}

/// The packing of five flags has correct fixed bits and reads back.
pub broadcast proof fn lemma_pack_flags(s: bool, z: bool, ac: bool, p: bool, c: bool)
    ensures
        #![trigger pack_flags(s, z, ac, p, c)]
        fixed_bits_ok(pack_flags(s, z, ac, p, c)),
        sign_of(pack_flags(s, z, ac, p, c)) == s,
        zero_of(pack_flags(s, z, ac, p, c)) == z,
        aux_of(pack_flags(s, z, ac, p, c)) == ac,
        parity_of(pack_flags(s, z, ac, p, c)) == p,
        carry_of(pack_flags(s, z, ac, p, c)) == c,
{
    assert(fixed_bits_ok(pack_flags(s, z, ac, p, c))
        && sign_of(pack_flags(s, z, ac, p, c)) == s
        && zero_of(pack_flags(s, z, ac, p, c)) == z
        && aux_of(pack_flags(s, z, ac, p, c)) == ac
        && parity_of(pack_flags(s, z, ac, p, c)) == p
        && carry_of(pack_flags(s, z, ac, p, c)) == c) by (bit_vector);
}

/// A loaded flag byte always has its fixed bits in place, and loading a
/// byte that already has them changes nothing.
pub broadcast proof fn lemma_normalize_flags(v: u8)
    ensures
        #![trigger normalize_flags(v)]
        fixed_bits_ok(normalize_flags(v)),
        fixed_bits_ok(v) ==> normalize_flags(v) == v,
{
    assert(fixed_bits_ok(normalize_flags(v))) by (bit_vector);
    assert(fixed_bits_ok(v) ==> normalize_flags(v) == v) by (bit_vector);
}

/// The packed flag word: S (bit 7), Z (bit 6), AC (bit 4), P (bit 2) and
/// C (bit 0), with bit 1 always set and bits 3 and 5 always clear.
#[derive(Debug, Clone, Copy)]
pub struct Flag(u8);

impl View for Flag {
    type V = u8;

    /// The stored byte with its fixed bits forced; the type invariant keeps
    /// them in place, so this is the stored byte itself.
    closed spec fn view(&self) -> u8 {
        normalize_flags(self.0)
    }
}

impl Flag {
    #[verifier::type_invariant]
    spec fn layout_ok(self) -> bool {
        fixed_bits_ok(self.0)
    }

    /// Every flag word has bit 1 set and bits 3 and 5 clear.
    pub proof fn lemma_layout(self)
        ensures
            fixed_bits_ok(self@),
    {
        lemma_normalize_flags(self.0);
    }

    /// The sign flag as a spec value.
    pub open spec fn sign(self) -> bool {
        sign_of(self@)
    }

    /// The zero flag as a spec value.
    pub open spec fn zero(self) -> bool {
        zero_of(self@)
    }

    /// The auxiliary-carry flag as a spec value.
    pub open spec fn aux(self) -> bool {
        aux_of(self@)
    }

    /// The parity flag as a spec value.
    pub open spec fn parity(self) -> bool {
        parity_of(self@)
    }

    /// The carry flag as a spec value.
    pub open spec fn carry(self) -> bool {
        carry_of(self@)
    }

    /// The whole flag byte.
    #[inline]
    pub fn value(&self) -> (r: u8)
        ensures
            r == self@,
            fixed_bits_ok(r),
    {
        proof {
            use_type_invariant(self);
            lemma_normalize_flags(self.0);
        }
        self.0
    }

    /// Loads the whole flag byte; the fixed bits are forced.
    #[inline]
    pub fn set_value(&mut self, val: u8)
        ensures
            final(self)@ == normalize_flags(val),
    {
        let v = (val & 0xD5) | 0x02;
        proof {
            lemma_normalize_flags(val);
            lemma_normalize_flags(v);
        }
        self.0 = v;
    }

    /// A flag word from a byte; the fixed bits are forced.
    #[inline]
    pub fn new(b: u8) -> (r: Self)
        ensures
            r@ == normalize_flags(b),
    {
        proof {
            lemma_normalize_flags(b);
            lemma_normalize_flags(normalize_flags(b));
        }
        Flag((b & 0xD5) | 0x02)
    }

    #[inline]
    pub fn set_carry_flag(&mut self, b: bool)
        ensures
            final(self)@ == pack_flags(old(self).sign(), old(self).zero(), old(self).aux(), old(self).parity(), b),
            final(self).sign() == old(self).sign(),
            final(self).zero() == old(self).zero(),
            final(self).aux() == old(self).aux(),
            final(self).parity() == old(self).parity(),
            final(self).carry() == b,
    {
        proof {
            use_type_invariant(&*self);
            lemma_normalize_flags(self.0);
            lemma_pack_flags(sign_of(self.0), zero_of(self.0), aux_of(self.0), parity_of(self.0), b);
        }
        let f = self.0;
        if b {
            assert(fixed_bits_ok(f) ==> f | 0x01 == pack_flags(sign_of(f), zero_of(f), aux_of(f), parity_of(f), true)) by (bit_vector);
            self.0 = f | 0x01;
            proof {
                lemma_normalize_flags(f | 0x01);
            }
        } else {
            assert(fixed_bits_ok(f) ==> f & 0xFE == pack_flags(sign_of(f), zero_of(f), aux_of(f), parity_of(f), false)) by (bit_vector);
            self.0 = f & 0xFE;
            proof {
                lemma_normalize_flags(f & 0xFE);
            }
        }
    }

    /// The carry flag.
    #[inline]
    pub fn carry_flag(&self) -> (r: bool)
        ensures
            r == self.carry(),
    {
        proof {
            use_type_invariant(self);
            lemma_normalize_flags(self.0);
        }
        self.0 & 0x01 == 0x01
    }

    #[inline]
    pub fn set_parity_flag(&mut self, b: bool)
        ensures
            final(self)@ == pack_flags(old(self).sign(), old(self).zero(), old(self).aux(), b, old(self).carry()),
            final(self).sign() == old(self).sign(),
            final(self).zero() == old(self).zero(),
            final(self).aux() == old(self).aux(),
            final(self).parity() == b,
            final(self).carry() == old(self).carry(),
    {
        proof {
            use_type_invariant(&*self);
            lemma_normalize_flags(self.0);
            lemma_pack_flags(sign_of(self.0), zero_of(self.0), aux_of(self.0), b, carry_of(self.0));
        }
        let f = self.0;
        if b {
            assert(fixed_bits_ok(f) ==> f | 0x04 == pack_flags(sign_of(f), zero_of(f), aux_of(f), true, carry_of(f))) by (bit_vector);
            self.0 = f | 0x04;
            proof {
                lemma_normalize_flags(f | 0x04);
            }
        } else {
            assert(fixed_bits_ok(f) ==> f & 0xFB == pack_flags(sign_of(f), zero_of(f), aux_of(f), false, carry_of(f))) by (bit_vector);
            self.0 = f & 0xFB;
            proof {
                lemma_normalize_flags(f & 0xFB);
            }
        }
    }

    /// The parity flag (set when the result has an even number of one bits).
    #[inline]
    pub fn parity_flag(&self) -> (r: bool)
        ensures
            r == self.parity(),
    {
        proof {
            use_type_invariant(self);
            lemma_normalize_flags(self.0);
        }
        self.0 & 0x04 == 0x04
    }

    #[inline]
    pub fn set_auxiliary_carry_flag(&mut self, b: bool)
        ensures
            final(self)@ == pack_flags(old(self).sign(), old(self).zero(), b, old(self).parity(), old(self).carry()),
            final(self).sign() == old(self).sign(),
            final(self).zero() == old(self).zero(),
            final(self).aux() == b,
            final(self).parity() == old(self).parity(),
            final(self).carry() == old(self).carry(),
    {
        proof {
            use_type_invariant(&*self);
            lemma_normalize_flags(self.0);
            lemma_pack_flags(sign_of(self.0), zero_of(self.0), b, parity_of(self.0), carry_of(self.0));
        }
        let f = self.0;
        if b {
            assert(fixed_bits_ok(f) ==> f | 0x10 == pack_flags(sign_of(f), zero_of(f), true, parity_of(f), carry_of(f))) by (bit_vector);
            self.0 = f | 0x10;
            proof {
                lemma_normalize_flags(f | 0x10);
            }
        } else {
            assert(fixed_bits_ok(f) ==> f & 0xEF == pack_flags(sign_of(f), zero_of(f), false, parity_of(f), carry_of(f))) by (bit_vector);
            self.0 = f & 0xEF;
            proof {
                lemma_normalize_flags(f & 0xEF);
            }
        }
    }

    /// The auxiliary-carry flag (carry out of bit 3).
    #[inline]
    pub fn auxiliary_flag(&self) -> (r: bool)
        ensures
            r == self.aux(),
    {
        proof {
            use_type_invariant(self);
            lemma_normalize_flags(self.0);
        }
        self.0 & 0x10 == 0x10
    }

    #[inline]
    pub fn set_zero_flag(&mut self, b: bool)
        ensures
            final(self)@ == pack_flags(old(self).sign(), b, old(self).aux(), old(self).parity(), old(self).carry()),
            final(self).sign() == old(self).sign(),
            final(self).zero() == b,
            final(self).aux() == old(self).aux(),
            final(self).parity() == old(self).parity(),
            final(self).carry() == old(self).carry(),
    {
        proof {
            use_type_invariant(&*self);
            lemma_normalize_flags(self.0);
            lemma_pack_flags(sign_of(self.0), b, aux_of(self.0), parity_of(self.0), carry_of(self.0));
        }
        let f = self.0;
        if b {
            assert(fixed_bits_ok(f) ==> f | 0x40 == pack_flags(sign_of(f), true, aux_of(f), parity_of(f), carry_of(f))) by (bit_vector);
            self.0 = f | 0x40;
            proof {
                lemma_normalize_flags(f | 0x40);
            }
        } else {
            assert(fixed_bits_ok(f) ==> f & 0xBF == pack_flags(sign_of(f), false, aux_of(f), parity_of(f), carry_of(f))) by (bit_vector);
            self.0 = f & 0xBF;
            proof {
                lemma_normalize_flags(f & 0xBF);
            }
        }
    }

    /// The zero flag.
    #[inline]
    pub fn zero_flag(&self) -> (r: bool)
        ensures
            r == self.zero(),
    {
        proof {
            use_type_invariant(self);
            lemma_normalize_flags(self.0);
        }
        self.0 & 0x40 == 0x40
    }

    #[inline]
    pub fn set_sign_flag(&mut self, b: bool)
        ensures
            final(self)@ == pack_flags(b, old(self).zero(), old(self).aux(), old(self).parity(), old(self).carry()),
            final(self).sign() == b,
            final(self).zero() == old(self).zero(),
            final(self).aux() == old(self).aux(),
            final(self).parity() == old(self).parity(),
            final(self).carry() == old(self).carry(),
    {
        proof {
            use_type_invariant(&*self);
            lemma_normalize_flags(self.0);
            lemma_pack_flags(b, zero_of(self.0), aux_of(self.0), parity_of(self.0), carry_of(self.0));
        }
        let f = self.0;
        if b {
            assert(fixed_bits_ok(f) ==> f | 0x80 == pack_flags(true, zero_of(f), aux_of(f), parity_of(f), carry_of(f))) by (bit_vector);
            self.0 = f | 0x80;
            proof {
                lemma_normalize_flags(f | 0x80);
            }
        } else {
            assert(fixed_bits_ok(f) ==> f & 0x7F == pack_flags(false, zero_of(f), aux_of(f), parity_of(f), carry_of(f))) by (bit_vector);
            self.0 = f & 0x7F;
            proof {
                lemma_normalize_flags(f & 0x7F);
            }
        }
    }

    /// The sign flag (bit 7 of the result).
    #[inline]
    pub fn sign_flag(&self) -> (r: bool)
        ensures
            r == self.sign(),
    {
        proof {
            use_type_invariant(self);
            lemma_normalize_flags(self.0);
        }
        self.0 & 0x80 == 0x80
    }
}


impl Default for Flag {
    /// The power-on flag word: only the fixed bit 1 is set.
    fn default() -> (r: Self)
        ensures
            r@ == 0x02,
    {
        assert(fixed_bits_ok(0x02u8)) by (bit_vector);
        proof {
            lemma_normalize_flags(0x02);
        }
        Flag(0x02)
    }
}

} // verus!
