//! Register names and the byte pair behind each 16-bit register.
use vstd::prelude::*;

verus! {

/// Two 8-bit registers that are also read and written as one 16-bit word,
/// `hi` being its most significant byte.
#[derive(Clone, Copy, Debug, PartialEq, Eq, Structural)]
pub struct RegPair {
    pub hi: u8,
    pub lo: u8,
}

pub open spec fn word_of(hi: u8, lo: u8) -> u16 {
    (hi as int * 256 + lo as int) as u16
}

impl RegPair {
    pub open spec fn word(self) -> u16 {
        word_of(self.hi, self.lo)
    }

    pub open spec fn from_word(w: u16) -> RegPair {
        RegPair { hi: (w / 256) as u8, lo: (w % 256) as u8 }
    }

    pub fn get(&self) -> (r: u16)
        ensures
            r == self.word(),
    {
        (self.hi as u16) * 256 + (self.lo as u16)
    }

    pub fn from_u16(w: u16) -> (r: RegPair)
        ensures
            r == RegPair::from_word(w),
            r.word() == w,
    {
        RegPair { hi: (w / 256) as u8, lo: (w % 256) as u8 }
    }
}

/// The names of the eight 8-bit registers and of the four pairs they form.
#[derive(Clone, Copy, Debug, PartialEq, Eq, Structural)]
pub enum Register {
    A,
    F,
    B,
    C,
    D,
    E,
    H,
    L,
    AF,
    BC,
    DE,
    HL,
}

impl Register {
    pub open spec fn is_u8(self) -> bool {
        !self.is_u16()
    }

    pub open spec fn is_u16(self) -> bool {
        self is AF || self is BC || self is DE || self is HL
    }

    /// The pair that holds an 8-bit register.
    pub open spec fn pair_of(self) -> Register {
        match self {
            Register::A | Register::F => Register::AF,
            Register::B | Register::C => Register::BC,
            Register::D | Register::E => Register::DE,
            Register::H | Register::L => Register::HL,
            _ => self,
        }
    }

    /// Whether an 8-bit register is the high byte of its pair.
    pub open spec fn is_high(self) -> bool {
        self is A || self is B || self is D || self is H
    }
}

} // verus!
