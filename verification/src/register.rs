//! The register file: fifteen word registers and three condition flags.

use vstd::prelude::*;
use vstd::std_specs::convert::TryFromSpecImpl;
use std::ops::{Index, IndexMut};
use crate::memory::MEMORY_SIZE;
use crate::opcode::JCmovFun;
use crate::Word;

verus! {

/// Why a nibble names no register.
#[derive(Debug, Clone, Copy, PartialEq, Eq, Structural)]
pub enum Error {
    /// The nibble at fault.
    InvalidRegister(u8),
}

/// The number of registers.
pub const REGISTER_COUNT: usize = 15;

/// The names of the registers.
#[derive(Debug, Clone, Copy, PartialEq, Eq, Structural)]
pub enum Register {
    Rax,
    Rcx,
    Rdx,
    Rbx,
    Rsp,
    Rbp,
    Rsi,
    Rdi,
    R8,
    R9,
    R10,
    R11,
    R12,
    R13,
    R14,
}

impl Register {
    /// The register whose number is `byte`; any other byte is refused and handed back.
    pub open spec fn decode(byte: u8) -> Result<Self, Error> {
        match byte {
            0x0 => Ok(Register::Rax),
            0x1 => Ok(Register::Rcx),
            0x2 => Ok(Register::Rdx),
            0x3 => Ok(Register::Rbx),
            0x4 => Ok(Register::Rsp),
            0x5 => Ok(Register::Rbp),
            0x6 => Ok(Register::Rsi),
            0x7 => Ok(Register::Rdi),
            0x8 => Ok(Register::R8),
            0x9 => Ok(Register::R9),
            0xa => Ok(Register::R10),
            0xb => Ok(Register::R11),
            0xc => Ok(Register::R12),
            0xd => Ok(Register::R13),
            0xe => Ok(Register::R14),
            _ => Err(Error::InvalidRegister(byte)),
        }
    }

    /// The number of the register: its nibble in an operand byte and its
    /// place in the register file.
    pub open spec fn number(self) -> u8 {
        match self {
            Register::Rax => 0,
            Register::Rcx => 1,
            Register::Rdx => 2,
            Register::Rbx => 3,
            Register::Rsp => 4,
            Register::Rbp => 5,
            Register::Rsi => 6,
            Register::Rdi => 7,
            Register::R8 => 8,
            Register::R9 => 9,
            Register::R10 => 10,
            Register::R11 => 11,
            Register::R12 => 12,
            Register::R13 => 13,
            Register::R14 => 14,
        }
    }

    /// The place of the register in the register file.
    pub fn slot(self) -> (slot: usize)
        ensures
            slot == self.number(),
            slot < REGISTER_COUNT,
    {
        match self {
            Register::Rax => 0,
            Register::Rcx => 1,
            Register::Rdx => 2,
            Register::Rbx => 3,
            Register::Rsp => 4,
            Register::Rbp => 5,
            Register::Rsi => 6,
            Register::Rdi => 7,
            Register::R8 => 8,
            Register::R9 => 9,
            Register::R10 => 10,
            Register::R11 => 11,
            Register::R12 => 12,
            Register::R13 => 13,
            Register::R14 => 14,
        }
    }
}

impl TryFromSpecImpl<u8> for Register {
    open spec fn obeys_try_from_spec() -> bool {
        true
    }

    open spec fn try_from_spec(byte: u8) -> Result<Self, Error> {
        Self::decode(byte)
    }
}

impl TryFrom<u8> for Register {
    type Error = Error;

    fn try_from(byte: u8) -> (result: Result<Self, Self::Error>)
        ensures
            result == Self::decode(byte),
    {
        let reg = match byte {
            0x0 => Register::Rax,
            0x1 => Register::Rcx,
            0x2 => Register::Rdx,
            0x3 => Register::Rbx,
            0x4 => Register::Rsp,
            0x5 => Register::Rbp,
            0x6 => Register::Rsi,
            0x7 => Register::Rdi,
            0x8 => Register::R8,
            0x9 => Register::R9,
            0xa => Register::R10,
            0xb => Register::R11,
            0xc => Register::R12,
            0xd => Register::R13,
            0xe => Register::R14,
            _ => return Err(Error::InvalidRegister(byte)),
        };
        Ok(reg)
    }
}

/// A byte decodes to a register exactly if it is the register's number,
/// and the numbers are those below fifteen.
pub proof fn lemma_register_numbers(byte: u8, reg: Register)
    ensures
        reg.number() == byte <==> Register::decode(byte) == Ok::<Register, Error>(reg),
        reg.number() < REGISTER_COUNT,
        Register::decode(byte) is Ok <==> byte < REGISTER_COUNT,
{
}

/// The names of the condition flags.
#[derive(Debug, Clone, Copy, PartialEq, Eq, Structural)]
pub enum Flag {
    /// The zero flag.
    ZF,
    /// The sign flag.
    SF,
    /// The overflow flag.
    OF,
}

/// The condition flags, as the last arithmetic operation left them.
#[derive(Debug, Clone, Copy, PartialEq, Eq, Structural)]
pub struct Flags {
    pub zf: bool,
    pub sf: bool,
    pub of: bool,
}

impl Flags {
    /// Whether the flags stand for a result below zero: sign and overflow differ.
    pub open spec fn less(self) -> bool {
        self.sf != self.of
    }

    /// Whether the predicate holds of the flags.
    pub open spec fn holds(self, cond: JCmovFun) -> bool {
        match cond {
            JCmovFun::LessEqual => self.less() || self.zf,
            JCmovFun::Less => self.less(),
            JCmovFun::Equal => self.zf,
            JCmovFun::NotEqual => !self.zf,
            JCmovFun::GreaterEqual => !self.less(),
            JCmovFun::Greater => !self.less() && !self.zf,
        }
    }

    /// The flag of the given name.
    pub open spec fn get(self, flag: Flag) -> bool {
        match flag {
            Flag::ZF => self.zf,
            Flag::SF => self.sf,
            Flag::OF => self.of,
        }
    }

    /// The flags with the one of the given name set to `value`.
    pub open spec fn with(self, flag: Flag, value: bool) -> Flags {
        match flag {
            Flag::ZF => Flags { zf: value, ..self },
            Flag::SF => Flags { sf: value, ..self },
            Flag::OF => Flags { of: value, ..self },
        }
    }

    /// All flags false.
    pub fn new() -> (flags: Self)
        ensures
            flags == (Flags { zf: false, sf: false, of: false }),
    {
        Self { zf: false, sf: false, of: false }
    }

    /// Evaluates a predicate on the flags.
    pub fn eval_condition(&self, cond: &JCmovFun) -> (holds: bool)
        ensures
            holds == self.holds(*cond),
    {
        match cond {
            JCmovFun::LessEqual => (self.sf != self.of) || self.zf,
            JCmovFun::Less => self.sf != self.of,
            JCmovFun::Equal => self.zf,
            JCmovFun::NotEqual => !self.zf,
            JCmovFun::GreaterEqual => self.sf == self.of,
            JCmovFun::Greater => self.sf == self.of && !self.zf,
        }
    }
}

/// The values that the registers hold when a machine starts: the stack
/// pointer at the last block of the memory, every other register zero.
pub open spec fn initial_registers() -> Seq<Word> {
    Seq::new(
        REGISTER_COUNT as nat,
        |i: int|
            if i == Register::Rsp.number() {
                (MEMORY_SIZE - 8) as Word
            } else {
                0
            },
    )
}

/// The fifteen register slots.
#[derive(Debug)]
pub struct Registers(pub [Word; 15]);

impl Registers {
    /// The registers of a machine that starts.
    pub fn new() -> (registers: Self)
        ensures
            registers.0@ == initial_registers(),
    {
        let mut regs = [0; 15];
        regs[Register::Rsp.slot()] = MEMORY_SIZE as i64 - 8;
        assert(regs@ =~= initial_registers());
        Self(regs)
    }
}

/// What a register file holds.
pub struct RegisterFileView {
    /// The value of each register, by number.
    pub registers: Seq<Word>,
    /// The condition flags.
    pub flags: Flags,
}

impl RegisterFileView {
    /// The value of a register.
    pub open spec fn register(self, reg: Register) -> Word {
        self.registers[reg.number() as int]
    }

    /// The view with a register set to `value`.
    pub open spec fn with_register(self, reg: Register, value: Word) -> RegisterFileView {
        RegisterFileView { registers: self.registers.update(reg.number() as int, value), ..self }
    }

    /// The view with a flag set to `value`.
    pub open spec fn with_flag(self, flag: Flag, value: bool) -> RegisterFileView {
        RegisterFileView { flags: self.flags.with(flag, value), ..self }
    }
}

/// The registers and the condition flags of a machine.
#[derive(Debug)]
pub struct RegisterFile {
    registers: Registers,
    flags: Flags,
}

impl View for RegisterFile {
    type V = RegisterFileView;

    closed spec fn view(&self) -> RegisterFileView {
        RegisterFileView { registers: self.registers.0@, flags: self.flags }
    }
}

impl RegisterFile {
    /// Evaluates a predicate on the current flags.
    pub fn eval_condition(&self, cond: &JCmovFun) -> (holds: bool)
        ensures
            holds == self@.flags.holds(*cond),
    {
        self.flags.eval_condition(cond)
    }

    /// That a register file has fifteen registers.
    pub proof fn lemma_register_count(&self)
        ensures
            self@.registers.len() == REGISTER_COUNT,
    {
    }
}

impl Default for RegisterFile {
    /// The register file of a machine that starts.
    fn default() -> (file: Self)
        ensures
            file@ == (RegisterFileView {
                registers: initial_registers(),
                flags: Flags { zf: false, sf: false, of: false },
            }),
    {
        Self { registers: Registers::new(), flags: Flags::new() }
    }
}

impl vstd::std_specs::core::IndexSpecImpl<Register> for RegisterFile {
    open spec fn index_req(&self, index: &Register) -> bool {
        true
    }
}

impl Index<Register> for RegisterFile {
    type Output = Word;

    fn index(&self, index: Register) -> (slot: &Word)
        ensures
            *slot == self@.register(index),
    {
        &self.registers.0[index.slot()]
    }
}

impl IndexMut<Register> for RegisterFile {
    fn index_mut(&mut self, index: Register) -> (slot: &mut Word)
        ensures
            *slot == old(self)@.register(index),
            final(self)@ == old(self)@.with_register(index, *final(slot)),
    {
        &mut self.registers.0[index.slot()]
    }
}

impl vstd::std_specs::core::IndexSpecImpl<Flag> for RegisterFile {
    open spec fn index_req(&self, index: &Flag) -> bool {
        true
    }
}

impl Index<Flag> for RegisterFile {
    type Output = bool;

    fn index(&self, index: Flag) -> (flag: &bool)
        ensures
            *flag == self@.flags.get(index),
    {
        match index {
            Flag::ZF => &self.flags.zf,
            Flag::SF => &self.flags.sf,
            Flag::OF => &self.flags.of,
        }
    }
}

impl IndexMut<Flag> for RegisterFile {
    fn index_mut(&mut self, index: Flag) -> (flag: &mut bool)
        ensures
            *flag == old(self)@.flags.get(index),
            final(self)@ == old(self)@.with_flag(index, *final(flag)),
    {
        match index {
            Flag::ZF => &mut self.flags.zf,
            Flag::SF => &mut self.flags.sf,
            Flag::OF => &mut self.flags.of,
        }
    }
}

} // verus!
