//! The architecture as mathematics: what a machine holds, what each
//! instruction is, and what one step does to a machine.

use vstd::prelude::*;
use crate::memory::{read_spec, write_spec, MEMORY_SIZE};
use crate::opcode::{JCmovFun, OpFun, Opcode, high_nibble, low_nibble};
use crate::register::{initial_registers, Flags, Register, REGISTER_COUNT};
use crate::vm::{Error, State};
use crate::word::{fits, offset_of, quotient, remainder, word_of_bytes, word_of_offset, wrap};
use crate::Word;

verus! {

/// Everything that a machine holds.
pub struct Machine {
    /// The offset of the next byte to fetch from the instruction stream.
    pub ip: usize,
    /// The bytes of the main memory.
    pub memory: Seq<u8>,
    /// The value of each register, by number.
    pub registers: Seq<Word>,
    /// The condition flags.
    pub flags: Flags,
    /// Whether the machine still runs.
    pub state: State,
}

impl Machine {
    /// Whether the memory and the register file have their fixed sizes.
    pub open spec fn wf(self) -> bool {
        &&& self.memory.len() == MEMORY_SIZE
        &&& self.registers.len() == REGISTER_COUNT
    }

    /// A machine that starts: instruction pointer zero, memory all zero, the
    /// stack pointer at the last block of the memory and every other register
    /// zero, flags false, active.
    pub open spec fn initial() -> Machine {
        Machine {
            ip: 0,
            memory: Seq::new(MEMORY_SIZE as nat, |i: int| 0u8),
            registers: initial_registers(),
            flags: Flags { zf: false, sf: false, of: false },
            state: State::Active,
        }
    }

    /// The value of a register.
    pub open spec fn register(self, reg: Register) -> Word {
        self.registers[reg.number() as int]
    }

    /// The value of the stack pointer.
    pub open spec fn stack_pointer(self) -> Word {
        self.register(Register::Rsp)
    }

    /// The machine with its instruction pointer at `ip`.
    pub open spec fn at(self, ip: usize) -> Machine {
        Machine { ip, ..self }
    }

    /// The machine with a register set to `value`.
    pub open spec fn with_register(self, reg: Register, value: Word) -> Machine {
        Machine { registers: self.registers.update(reg.number() as int, value), ..self }
    }
}

/// An instruction with its operands.
pub enum Instruction {
    Halt,
    Nop,
    /// Copies `src` to `dst`.
    Rrmovq { src: Register, dst: Register },
    /// Copies `src` to `dst` if the predicate holds of the flags.
    Cmovxx { cond: JCmovFun, src: Register, dst: Register },
    /// Loads `value` into `dst`.
    Irmovq { dst: Register, value: Word },
    /// Stores `src` to the memory at `base` plus `disp`.
    Rmmovq { src: Register, base: Register, disp: Word },
    /// Loads `dst` from the memory at `base` plus `disp`.
    Mrmovq { dst: Register, base: Register, disp: Word },
    /// Replaces `dst` by the result of the operation on `dst` and `src`.
    Opq { fun: OpFun, src: Register, dst: Register },
    /// Continues at `target` if the predicate holds of the flags.
    Jxx { cond: JCmovFun, target: Word },
    /// Pushes the address of the next instruction and continues at `target`.
    Call { target: Word },
    /// Pops an address and continues there.
    Ret,
    /// Pushes `src`.
    Pushq { src: Register },
    /// Pops into `dst`.
    Popq { dst: Register },
}

/// A failed fetch or decode: the error, and where it leaves the instruction pointer.
pub struct Fault {
    pub error: Error,
    pub ip: usize,
}

/// What a step leaves and what it reports.
pub type Outcome = (Machine, Result<(), Error>);

/// The byte at `ip`, and the offset after it; past the end of the stream
/// there is none, and the instruction pointer stays.
pub open spec fn fetch_byte(code: Seq<u8>, ip: usize) -> Result<(u8, usize), Fault> {
    if ip < code.len() {
        Ok((code[ip as int], (ip + 1) as usize))
    } else {
        Err(Fault { error: Error::EndOfInstructions(ip), ip })
    }
}

/// The little-endian word in the eight bytes from `ip` on, and the offset
/// after it; where the stream ends before the eighth byte, the instruction
/// pointer comes to rest at the end of the stream, or stays where it was if
/// it was beyond it.
pub open spec fn fetch_word(code: Seq<u8>, ip: usize) -> Result<(Word, usize), Fault> {
    if ip + 8 <= code.len() {
        Ok((word_of_bytes(code.subrange(ip as int, ip + 8)), (ip + 8) as usize))
    } else {
        let end = if ip < code.len() {
            code.len() as usize
        } else {
            ip
        };
        Err(Fault { error: Error::EndOfInstructions(end), ip: end })
    }
}

/// The register that a nibble names.
pub open spec fn register_of(nibble: u8) -> Result<Register, Error> {
    match Register::decode(nibble) {
        Ok(reg) => Ok(reg),
        Err(e) => Err(Error::RegisterError(e)),
    }
}

/// The operand byte at `ip` read as two registers, the high nibble first.
pub open spec fn fetch_register_pair(code: Seq<u8>, ip: usize) -> Result<
    ((Register, Register), usize),
    Fault,
> {
    match fetch_byte(code, ip) {
        Err(fault) => Err(fault),
        Ok((byte, next)) => match register_of(high_nibble(byte)) {
            Err(error) => Err(Fault { error, ip: next }),
            Ok(ra) => match register_of(low_nibble(byte)) {
                Err(error) => Err(Fault { error, ip: next }),
                Ok(rb) => Ok(((ra, rb), next)),
            },
        },
    }
}

/// The operand byte at `ip` read for the register in its high nibble alone.
pub open spec fn fetch_high_register(code: Seq<u8>, ip: usize) -> Result<(Register, usize), Fault> {
    match fetch_byte(code, ip) {
        Err(fault) => Err(fault),
        Ok((byte, next)) => match register_of(high_nibble(byte)) {
            Err(error) => Err(Fault { error, ip: next }),
            Ok(ra) => Ok((ra, next)),
        },
    }
}

/// The operand byte at `ip` read for the register in its low nibble alone.
pub open spec fn fetch_low_register(code: Seq<u8>, ip: usize) -> Result<(Register, usize), Fault> {
    match fetch_byte(code, ip) {
        Err(fault) => Err(fault),
        Ok((byte, next)) => match register_of(low_nibble(byte)) {
            Err(error) => Err(Fault { error, ip: next }),
            Ok(rb) => Ok((rb, next)),
        },
    }
}

/// The operand byte at `ip` read as two registers, and the word that follows it.
pub open spec fn fetch_register_pair_and_word(code: Seq<u8>, ip: usize) -> Result<
    ((Register, Register, Word), usize),
    Fault,
> {
    match fetch_register_pair(code, ip) {
        Err(fault) => Err(fault),
        Ok(((ra, rb), next)) => match fetch_word(code, next) {
            Err(fault) => Err(fault),
            Ok((word, after)) => Ok(((ra, rb, word), after)),
        },
    }
}

/// The instruction that the operation `op` makes with the operands that
/// stand at `ip`, and the offset after them.
pub open spec fn operands(code: Seq<u8>, ip: usize, op: Opcode) -> Result<(Instruction, usize), Fault> {
    match op {
        Opcode::Halt => Ok((Instruction::Halt, ip)),
        Opcode::Nop => Ok((Instruction::Nop, ip)),
        Opcode::Ret => Ok((Instruction::Ret, ip)),
        Opcode::Rrmovq => match fetch_register_pair(code, ip) {
            Err(fault) => Err(fault),
            Ok(((src, dst), next)) => Ok((Instruction::Rrmovq { src, dst }, next)),
        },
        Opcode::Cmovxx(cond) => match fetch_register_pair(code, ip) {
            Err(fault) => Err(fault),
            Ok(((src, dst), next)) => Ok((Instruction::Cmovxx { cond, src, dst }, next)),
        },
        Opcode::Opq(fun) => match fetch_register_pair(code, ip) {
            Err(fault) => Err(fault),
            Ok(((src, dst), next)) => Ok((Instruction::Opq { fun, src, dst }, next)),
        },
        Opcode::Irmovq => match fetch_low_register(code, ip) {
            Err(fault) => Err(fault),
            Ok((dst, next)) => match fetch_word(code, next) {
                Err(fault) => Err(fault),
                Ok((value, after)) => Ok((Instruction::Irmovq { dst, value }, after)),
            },
        },
        Opcode::Rmmovq => match fetch_register_pair_and_word(code, ip) {
            Err(fault) => Err(fault),
            Ok(((src, base, disp), next)) => Ok((Instruction::Rmmovq { src, base, disp }, next)),
        },
        Opcode::Mrmovq => match fetch_register_pair_and_word(code, ip) {
            Err(fault) => Err(fault),
            Ok(((dst, base, disp), next)) => Ok((Instruction::Mrmovq { dst, base, disp }, next)),
        },
        Opcode::Jxx(cond) => match fetch_word(code, ip) {
            Err(fault) => Err(fault),
            Ok((target, next)) => Ok((Instruction::Jxx { cond, target }, next)),
        },
        Opcode::Call => match fetch_word(code, ip) {
            Err(fault) => Err(fault),
            Ok((target, next)) => Ok((Instruction::Call { target }, next)),
        },
        Opcode::Pushq => match fetch_high_register(code, ip) {
            Err(fault) => Err(fault),
            Ok((src, next)) => Ok((Instruction::Pushq { src }, next)),
        },
        Opcode::Popq => match fetch_high_register(code, ip) {
            Err(fault) => Err(fault),
            Ok((dst, next)) => Ok((Instruction::Popq { dst }, next)),
        },
    }
}

/// The instruction that stands at `ip`, and the offset after it.
#[verifier::opaque]
pub open spec fn decode(code: Seq<u8>, ip: usize) -> Result<(Instruction, usize), Fault> {
    match fetch_byte(code, ip) {
        Err(fault) => Err(fault),
        Ok((lead, next)) => match Opcode::decode(lead) {
            Err(e) => Err(Fault { error: Error::OpcodeError(e), ip: next }),
            Ok(op) => operands(code, next, op),
        },
    }
}

/// The result of an arithmetic operation on the destination's value and the
/// source's, and whether it overflowed; none where the divisor is zero.
/// Results wrap; only sum, difference and product report an overflow.
pub open spec fn alu(fun: OpFun, dst: Word, src: Word) -> Option<(Word, bool)> {
    match fun {
        OpFun::Add => Some((wrap(dst + src), !fits(dst + src))),
        OpFun::Sub => Some((wrap(dst - src), !fits(dst - src))),
        OpFun::And => Some((dst & src, false)),
        OpFun::Xor => Some((dst ^ src, false)),
        OpFun::Mul => Some((wrap(dst * src), !fits(dst * src))),
        OpFun::Div => if src == 0 {
            None
        } else {
            Some((wrap(quotient(dst as int, src as int)), false))
        },
        OpFun::Mod => if src == 0 {
            None
        } else {
            Some((wrap(remainder(dst as int, src as int)), false))
        },
    }
}

/// The flags that an arithmetic result sets.
pub open spec fn flags_of(result: Word, overflow: bool) -> Flags {
    Flags { zf: result == 0, sf: result < 0, of: overflow }
}

/// The address that a base and a displacement make: their sum, wrapped to
/// a word and cut to an offset.
pub open spec fn address(base: Word, disp: Word) -> usize {
    offset_of(wrap(base + disp))
}

/// The machine after `value` has been pushed: the stack pointer is lowered
/// by a block and the value stands where it then points. Where that is no
/// place to write, the machine is as it was.
pub open spec fn push(m: Machine, value: Word) -> Outcome {
    let top = wrap(m.stack_pointer() - 8);
    match write_spec(m.memory, offset_of(top), value) {
        (_, Err(e)) => (m, Err(Error::MemoryError(e))),
        (memory, Ok(_)) => (Machine { memory, ..m }.with_register(Register::Rsp, top), Ok(())),
    }
}

/// What executing an instruction does to a machine whose instruction
/// pointer stands after the instruction. Where it fails, the machine is as
/// it was.
#[verifier::opaque]
pub open spec fn execute(m: Machine, instruction: Instruction) -> Outcome {
    match instruction {
        Instruction::Halt => (Machine { state: State::Halted, ..m }, Ok(())),
        Instruction::Nop => (m, Ok(())),
        Instruction::Rrmovq { src, dst } => (m.with_register(dst, m.register(src)), Ok(())),
        Instruction::Cmovxx { cond, src, dst } => if m.flags.holds(cond) {
            (m.with_register(dst, m.register(src)), Ok(()))
        } else {
            (m, Ok(()))
        },
        Instruction::Irmovq { dst, value } => (m.with_register(dst, value), Ok(())),
        Instruction::Rmmovq { src, base, disp } => match write_spec(
            m.memory,
            address(m.register(base), disp),
            m.register(src),
        ) {
            (_, Err(e)) => (m, Err(Error::MemoryError(e))),
            (memory, Ok(_)) => (Machine { memory, ..m }, Ok(())),
        },
        Instruction::Mrmovq { dst, base, disp } => match read_spec(
            m.memory,
            address(m.register(base), disp),
        ) {
            Err(e) => (m, Err(Error::MemoryError(e))),
            Ok(value) => (m.with_register(dst, value), Ok(())),
        },
        Instruction::Opq { fun, src, dst } => match alu(fun, m.register(dst), m.register(src)) {
            None => (m, Err(Error::DivisionByZero)),
            Some((result, overflow)) => (
                Machine { flags: flags_of(result, overflow), ..m.with_register(dst, result) },
                Ok(()),
            ),
        },
        Instruction::Jxx { cond, target } => if m.flags.holds(cond) {
            (m.at(offset_of(target)), Ok(()))
        } else {
            (m, Ok(()))
        },
        Instruction::Call { target } => match push(m, word_of_offset(m.ip)) {
            (_, Err(e)) => (m, Err(e)),
            (pushed, Ok(_)) => (pushed.at(offset_of(target)), Ok(())),
        },
        Instruction::Ret => match read_spec(m.memory, offset_of(m.stack_pointer())) {
            Err(e) => (m, Err(Error::MemoryError(e))),
            Ok(back) => (
                m.with_register(Register::Rsp, wrap(m.stack_pointer() + 8)).at(offset_of(back)),
                Ok(()),
            ),
        },
        Instruction::Pushq { src } => push(m, m.register(src)),
        Instruction::Popq { dst } => match read_spec(m.memory, offset_of(m.stack_pointer())) {
            Err(e) => (m, Err(Error::MemoryError(e))),
            Ok(value) => (
                m.with_register(Register::Rsp, wrap(m.stack_pointer() + 8)).with_register(
                    dst,
                    value,
                ),
                Ok(()),
            ),
        },
    }
}

/// What the operation `op` does to a machine whose instruction pointer
/// stands after the lead byte: the operands are fetched, and if they are
/// there the instruction is executed. A failed fetch leaves the instruction
/// pointer where the fetch stopped and nothing else changed.
pub open spec fn run(m: Machine, code: Seq<u8>, op: Opcode) -> Outcome {
    match operands(code, m.ip, op) {
        Err(fault) => (m.at(fault.ip), Err(fault.error)),
        Ok((instruction, next)) => execute(m.at(next), instruction),
    }
}

/// What one step does. A halted machine refuses and stays as it is. An
/// active machine fetches the instruction at its instruction pointer and
/// executes it.
pub open spec fn step(m: Machine, code: Seq<u8>) -> Outcome {
    if m.state == State::Halted {
        (m, Err(Error::MachineHalted))
    } else {
        match decode(code, m.ip) {
            Err(fault) => (m.at(fault.ip), Err(fault.error)),
            Ok((instruction, next)) => execute(m.at(next), instruction),
        }
    }
}

} // verus!
