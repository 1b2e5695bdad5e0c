//! The lead byte of an instruction: the high nibble names the family, the low
//! nibble the function within it, for the families that have one.

use vstd::prelude::*;
use vstd::std_specs::convert::TryFromSpecImpl;

verus! {

/// Why a byte names no operation.
#[derive(Debug, Clone, Copy, PartialEq, Eq, Structural)]
pub enum Error {
    /// The byte at fault, whole: for a lead byte, the lead byte itself,
    /// whether its family is unknown or its family has no function for its
    /// low nibble.
    InvalidOpcode(u8),
}

/// The arithmetic operations.
#[derive(Debug, Clone, Copy, PartialEq, Eq, Structural)]
pub enum OpFun {
    Add,
    Sub,
    And,
    Xor,
    Mul,
    Div,
    Mod,
}

impl OpFun {
    /// The operation that `byte` encodes; any other byte is refused and handed back.
    pub open spec fn decode(byte: u8) -> Result<Self, Error> {
        match byte {
            0x0 => Ok(OpFun::Add),
            0x1 => Ok(OpFun::Sub),
            0x2 => Ok(OpFun::And),
            0x3 => Ok(OpFun::Xor),
            0x4 => Ok(OpFun::Mul),
            0x5 => Ok(OpFun::Div),
            0x6 => Ok(OpFun::Mod),
            _ => Err(Error::InvalidOpcode(byte)),
        }
    }

    /// The function nibble that encodes the operation.
    pub open spec fn code(self) -> u8 {
        match self {
            OpFun::Add => 0x0,
            OpFun::Sub => 0x1,
            OpFun::And => 0x2,
            OpFun::Xor => 0x3,
            OpFun::Mul => 0x4,
            OpFun::Div => 0x5,
            OpFun::Mod => 0x6,
        }
    }
}

impl TryFromSpecImpl<u8> for OpFun {
    open spec fn obeys_try_from_spec() -> bool {
        true
    }

    open spec fn try_from_spec(byte: u8) -> Result<Self, Error> {
        Self::decode(byte)
    }
}

impl TryFrom<u8> for OpFun {
    type Error = Error;

    fn try_from(byte: u8) -> (result: Result<Self, Self::Error>)
        ensures
            result == Self::decode(byte),
    {
        let op = match byte {
            0x0 => OpFun::Add,
            0x1 => OpFun::Sub,
            0x2 => OpFun::And,
            0x3 => OpFun::Xor,
            0x4 => OpFun::Mul,
            0x5 => OpFun::Div,
            0x6 => OpFun::Mod,
            _ => return Err(Error::InvalidOpcode(byte)),
        };
        Ok(op)
    }
}

/// A byte decodes to an arithmetic operation exactly if it is the
/// operation's code.
pub proof fn lemma_operation_codes(byte: u8, fun: OpFun)
    ensures
        fun.code() == byte <==> OpFun::decode(byte) == Ok::<OpFun, Error>(fun),
{
}

/// The predicates of conditional moves and jumps.
#[derive(Debug, Clone, Copy, PartialEq, Eq, Structural)]
pub enum JCmovFun {
    LessEqual,
    Less,
    Equal,
    NotEqual,
    GreaterEqual,
    Greater,
}

impl JCmovFun {
    /// The predicate that `byte` encodes; any other byte is refused and handed back.
    pub open spec fn decode(byte: u8) -> Result<Self, Error> {
        match byte {
            0x1 => Ok(JCmovFun::LessEqual),
            0x2 => Ok(JCmovFun::Less),
            0x3 => Ok(JCmovFun::Equal),
            0x4 => Ok(JCmovFun::NotEqual),
            0x5 => Ok(JCmovFun::GreaterEqual),
            0x6 => Ok(JCmovFun::Greater),
            _ => Err(Error::InvalidOpcode(byte)),
        }
    }

    /// The function nibble that encodes the predicate.
    pub open spec fn code(self) -> u8 {
        match self {
            JCmovFun::LessEqual => 0x1,
            JCmovFun::Less => 0x2,
            JCmovFun::Equal => 0x3,
            JCmovFun::NotEqual => 0x4,
            JCmovFun::GreaterEqual => 0x5,
            JCmovFun::Greater => 0x6,
        }
    }
}

impl TryFromSpecImpl<u8> for JCmovFun {
    open spec fn obeys_try_from_spec() -> bool {
        true
    }

    open spec fn try_from_spec(byte: u8) -> Result<Self, Error> {
        Self::decode(byte)
    }
}

impl TryFrom<u8> for JCmovFun {
    type Error = Error;

    fn try_from(byte: u8) -> (result: Result<Self, Self::Error>)
        ensures
            result == Self::decode(byte),
    {
        let op = match byte {
            0x1 => JCmovFun::LessEqual,
            0x2 => JCmovFun::Less,
            0x3 => JCmovFun::Equal,
            0x4 => JCmovFun::NotEqual,
            0x5 => JCmovFun::GreaterEqual,
            0x6 => JCmovFun::Greater,
            _ => return Err(Error::InvalidOpcode(byte)),
        };
        Ok(op)
    }
}

/// A byte decodes to a predicate exactly if it is the predicate's code.
pub proof fn lemma_predicate_codes(byte: u8, cond: JCmovFun)
    ensures
        cond.code() == byte <==> JCmovFun::decode(byte) == Ok::<JCmovFun, Error>(cond),
{
}

/// The operations of the machine.
#[derive(Debug, Clone, Copy, PartialEq, Eq, Structural)]
pub enum Opcode {
    Halt,
    Nop,
    Rrmovq,
    Cmovxx(JCmovFun),
    Irmovq,
    Rmmovq,
    Mrmovq,
    Opq(OpFun),
    Jxx(JCmovFun),
    Call,
    Ret,
    Pushq,
    Popq,
}

/// The high nibble of a byte.
pub open spec fn high_nibble(byte: u8) -> u8 {
    byte / 16
}

/// The low nibble of a byte.
pub open spec fn low_nibble(byte: u8) -> u8 {
    byte % 16
}

impl Opcode {
    /// The operation that the lead byte `byte` encodes. A byte that encodes
    /// none is refused and handed back whole, be it that its family is
    /// unknown or that its family has no function for its low nibble.
    pub open spec fn decode(byte: u8) -> Result<Self, Error> {
        let low = low_nibble(byte);
        match high_nibble(byte) {
            0x0 => Ok(Opcode::Halt),
            0x1 => Ok(Opcode::Nop),
            0x2 => if low == 0 {
                Ok(Opcode::Rrmovq)
            } else {
                match JCmovFun::decode(low) {
                    Ok(cond) => Ok(Opcode::Cmovxx(cond)),
                    Err(_) => Err(Error::InvalidOpcode(byte)),
                }
            },
            0x3 => Ok(Opcode::Irmovq),
            0x4 => Ok(Opcode::Rmmovq),
            0x5 => Ok(Opcode::Mrmovq),
            0x6 => match OpFun::decode(low) {
                Ok(fun) => Ok(Opcode::Opq(fun)),
                Err(_) => Err(Error::InvalidOpcode(byte)),
            },
            0x7 => match JCmovFun::decode(low) {
                Ok(cond) => Ok(Opcode::Jxx(cond)),
                Err(_) => Err(Error::InvalidOpcode(byte)),
            },
            0x8 => Ok(Opcode::Call),
            0x9 => Ok(Opcode::Ret),
            0xA => Ok(Opcode::Pushq),
            0xB => Ok(Opcode::Popq),
            _ => Err(Error::InvalidOpcode(byte)),
        }
    }

    /// The high nibble of the lead bytes that encode the operation.
    pub open spec fn family(self) -> u8 {
        match self {
            Opcode::Halt => 0x0,
            Opcode::Nop => 0x1,
            Opcode::Rrmovq => 0x2,
            Opcode::Cmovxx(_) => 0x2,
            Opcode::Irmovq => 0x3,
            Opcode::Rmmovq => 0x4,
            Opcode::Mrmovq => 0x5,
            Opcode::Opq(_) => 0x6,
            Opcode::Jxx(_) => 0x7,
            Opcode::Call => 0x8,
            Opcode::Ret => 0x9,
            Opcode::Pushq => 0xA,
            Opcode::Popq => 0xB,
        }
    }

    /// The low nibble that the operation asks of its lead byte, where it
    /// asks for one: the others accept any.
    pub open spec fn function(self) -> Option<u8> {
        match self {
            Opcode::Rrmovq => Some(0x0),
            Opcode::Cmovxx(cond) => Some(cond.code()),
            Opcode::Opq(fun) => Some(fun.code()),
            Opcode::Jxx(cond) => Some(cond.code()),
            _ => None,
        }
    }

    /// Whether `byte` is a lead byte of the operation.
    pub open spec fn encoded_by(self, byte: u8) -> bool {
        &&& high_nibble(byte) == self.family()
        &&& self.function() matches Some(low) ==> low_nibble(byte) == low
    }
}

impl TryFromSpecImpl<u8> for Opcode {
    open spec fn obeys_try_from_spec() -> bool {
        true
    }

    open spec fn try_from_spec(byte: u8) -> Result<Self, Error> {
        Self::decode(byte)
    }
}

/// A byte decodes to an operation exactly if it is one of the operation's
/// lead bytes: no byte encodes two operations, and every byte that encodes
/// one is accepted. Every other byte is refused with itself.
pub proof fn lemma_decoding_inverts_encoding(byte: u8, op: Opcode)
    ensures
        op.encoded_by(byte) <==> Opcode::decode(byte) == Ok::<Opcode, Error>(op),
        Opcode::decode(byte) is Err ==> Opcode::decode(byte) == Err::<Opcode, Error>(
            Error::InvalidOpcode(byte),
        ),
{
}

impl TryFrom<u8> for Opcode {
    type Error = Error;

    fn try_from(byte: u8) -> (result: Result<Self, Self::Error>)
        ensures
            result == Self::decode(byte),
    {
        let (high, low) = (byte >> 4, byte & 0xf);
        assert(high == high_nibble(byte) && low == low_nibble(byte)) by (bit_vector)
            requires
                high == byte >> 4,
                low == byte & 0xf,
        ;
        let op = match high {
            0x0 => Opcode::Halt,
            0x1 => Opcode::Nop,
            0x2 => match low {
                0x0 => Opcode::Rrmovq,
                _ => match JCmovFun::try_from(low) {
                    Ok(cond) => Opcode::Cmovxx(cond),
                    Err(_) => return Err(Error::InvalidOpcode(byte)),
                },
            },
            0x3 => Opcode::Irmovq,
            0x4 => Opcode::Rmmovq,
            0x5 => Opcode::Mrmovq,
            0x6 => match OpFun::try_from(low) {
                Ok(fun) => Opcode::Opq(fun),
                Err(_) => return Err(Error::InvalidOpcode(byte)),
            },
            0x7 => match JCmovFun::try_from(low) {
                Ok(cond) => Opcode::Jxx(cond),
                Err(_) => return Err(Error::InvalidOpcode(byte)),
            },
            0x8 => Opcode::Call,
            0x9 => Opcode::Ret,
            0xA => Opcode::Pushq,
            0xB => Opcode::Popq,
            _ => return Err(Error::InvalidOpcode(byte)),
        };
        Ok(op)
    }
}

} // verus!
