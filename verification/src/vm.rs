//! The execution engine: a machine that executes one instruction per step.

use vstd::prelude::*;
use vstd::std_specs::convert::FromSpecImpl;
use std::ops::IndexMut;
use crate::memory::{self, read_spec, write_spec, MainMemory};
use crate::model::{
    alu, decode, execute, fetch_byte, fetch_register_pair, fetch_word, flags_of, register_of, run,
    step, Fault, Machine,
};
use crate::opcode::{self, high_nibble, low_nibble, JCmovFun, OpFun, Opcode};
use crate::region::Region;
use crate::register::{self, Flag, Register, RegisterFile};
use crate::word::{
    decode_word, from_offset, offset_of, overflowing_add, overflowing_mul, overflowing_sub,
    to_offset, word_of_offset, wrap, wrapping_div, wrapping_rem,
};
use crate::{Block, Word};

verus! {

/// Whether a machine still runs.
#[derive(Debug, Clone, Copy, PartialEq, Eq, Structural)]
pub enum State {
    Active,
    Halted,
}

/// Why a step failed.
#[derive(Debug, Clone, Copy, PartialEq, Eq, Structural)]
pub enum Error {
    /// The machine has executed a halt instruction.
    MachineHalted,
    /// The instruction stream has no byte at this offset.
    EndOfInstructions(usize),
    /// The divisor of a division or a modulo was zero.
    DivisionByZero,
    /// The lead byte names no operation.
    OpcodeError(opcode::Error),
    /// The memory refused an access.
    MemoryError(memory::Error),
    /// An operand nibble names no register.
    RegisterError(register::Error),
}

impl FromSpecImpl<opcode::Error> for Error {
    open spec fn obeys_from_spec() -> bool {
        true
    }

    open spec fn from_spec(e: opcode::Error) -> Self {
        Error::OpcodeError(e)
    }
}

impl From<opcode::Error> for Error {
    fn from(e: opcode::Error) -> (error: Self) {
        Error::OpcodeError(e)
    }
}

impl FromSpecImpl<memory::Error> for Error {
    open spec fn obeys_from_spec() -> bool {
        true
    }

    open spec fn from_spec(e: memory::Error) -> Self {
        Error::MemoryError(e)
    }
}

impl From<memory::Error> for Error {
    fn from(e: memory::Error) -> (error: Self) {
        Error::MemoryError(e)
    }
}

impl FromSpecImpl<register::Error> for Error {
    open spec fn obeys_from_spec() -> bool {
        true
    }

    open spec fn from_spec(e: register::Error) -> Self {
        Error::RegisterError(e)
    }
}

impl From<register::Error> for Error {
    fn from(e: register::Error) -> (error: Self) {
        Error::RegisterError(e)
    }
}

/// A machine: an instruction pointer, a main memory, a register file, and
/// whether it still runs.
pub struct Vm {
    ip: usize,
    memory: MainMemory,
    reg_file: RegisterFile,
    state: State,
}

impl View for Vm {
    type V = Machine;

    closed spec fn view(&self) -> Machine {
        Machine {
            ip: self.ip,
            memory: self.memory@,
            registers: self.reg_file@.registers,
            flags: self.reg_file@.flags,
            state: self.state,
        }
    }
}

impl Vm {
    /// A machine that starts.
    pub fn new() -> (vm: Self)
        ensures
            vm@ == Machine::initial(),
            vm@.wf(),
    {
        Self {
            ip: 0,
            memory: MainMemory::default(),
            reg_file: RegisterFile::default(),
            state: State::Active,
        }
    }

    /// Takes one step on the instruction stream that `region` hands out:
    /// fetches the instruction at the instruction pointer and executes it.
    /// A halted machine refuses, asks the region for nothing and stays as it
    /// is.
    pub fn step<R>(&mut self, region: &R) -> (result: Result<(), Error>) where R: Region
        ensures
            final(self)@.wf(),
            old(self)@.state == State::Halted ==> final(self)@ == old(self)@ && result == Err::<
                (),
                Error,
            >(Error::MachineHalted),
            old(self)@.state == State::Active ==> exists|bytes: &[u8]|
                call_ensures(R::instructions, (region,), bytes) && (final(self)@, result) == step(
                    old(self)@,
                    bytes@,
                ),
    {
        if self.state == State::Halted {
            proof {
                use_type_invariant(&self.memory);
                self.reg_file.lemma_register_count();
            }
            return Err(Error::MachineHalted);
        }
        self.step_bytes(region.instructions())
    }

    /// Takes one step on the instruction stream `instructions`: fetches the
    /// instruction at the instruction pointer and executes it. A halted
    /// machine refuses and stays as it is.
    pub fn step_bytes(&mut self, instructions: &[u8]) -> (result: Result<(), Error>)
        ensures
            final(self)@.wf(),
            (final(self)@, result) == step(old(self)@, instructions@),
    {
        if self.state == State::Halted {
            proof {
                use_type_invariant(&self.memory);
                self.reg_file.lemma_register_count();
            }
            return Err(Error::MachineHalted);
        }
        let task = Task::new(instructions);
        let result = task.run(self);
        proof {
            use_type_invariant(&self.memory);
            self.reg_file.lemma_register_count();
        }
        result
    }

    /// The offset of the next byte to fetch.
    pub fn ip(&self) -> (ip: usize)
        ensures
            ip == self@.ip,
    {
        self.ip
    }

    /// Whether the machine still runs.
    pub fn state(&self) -> (state: State)
        ensures
            state == self@.state,
    {
        self.state
    }

    /// The value of a register.
    pub fn register(&self, reg: Register) -> (value: Word)
        ensures
            value == self@.register(reg),
    {
        self.reg_file[reg]
    }

    /// The value of a condition flag.
    pub fn flag(&self, flag: Flag) -> (value: bool)
        ensures
            value == self@.flags.get(flag),
    {
        self.reg_file[flag]
    }

    /// Reads the block of the main memory at `address`.
    pub fn read_block(&self, address: usize) -> (result: Result<Block, Error>)
        ensures
            self@.wf(),
            result == match read_spec(self@.memory, address) {
                Ok(value) => Ok::<Block, Error>(value),
                Err(e) => Err(Error::MemoryError(e)),
            },
    {
        proof {
            self.reg_file.lemma_register_count();
        }
        match self.memory.read(address) {
            Ok(value) => Ok(value),
            Err(e) => Err(Error::from(e)),
        }
    }

    /// Writes `value` as the block of the main memory at `address`.
    fn write_block(&mut self, address: usize, value: Block) -> (result: Result<(), Error>)
        ensures
            final(self)@.wf(),
            final(self)@ == (Machine { memory: write_spec(old(self)@.memory, address, value).0, ..old(self)@ }),
            result == match write_spec(old(self)@.memory, address, value).1 {
                Ok(_) => Ok::<(), Error>(()),
                Err(e) => Err(Error::MemoryError(e)),
            },
    {
        proof {
            self.reg_file.lemma_register_count();
        }
        match self.memory.write(address, value) {
            Ok(()) => Ok(()),
            Err(e) => Err(Error::from(e)),
        }
    }
}

impl Default for Vm {
    /// A machine that starts.
    fn default() -> (vm: Self)
        ensures
            vm@ == Machine::initial(),
    {
        Self::new()
    }
}

/// The outcome of a fetch, held against what the model says of it: the
/// value or the error is the one expected, and the machine has moved its
/// instruction pointer as expected and changed nothing else.
pub open spec fn fetched<T>(
    before: Machine,
    expected: Result<(T, usize), Fault>,
    after: Machine,
    result: Result<T, Error>,
) -> bool {
    match expected {
        Ok((value, next)) => result == Ok::<T, Error>(value) && after == before.at(next),
        Err(fault) => result == Err::<T, Error>(fault.error) && after == before.at(fault.ip),
    }
}

/// One step in progress: the instruction stream that it fetches from.
pub struct Task<'region> {
    instructions: &'region [u8],
}

impl View for Task<'_> {
    type V = Seq<u8>;

    closed spec fn view(&self) -> Seq<u8> {
        self.instructions@
    }
}

impl<'region> Task<'region> {
    /// A step on the given instruction stream.
    pub fn new(instructions: &'region [u8]) -> (task: Self)
        ensures
            task@ == instructions@,
    {
        Self { instructions }
    }

    /// Fetches the byte at the instruction pointer and moves past it.
    pub fn eat(&self, vm: &mut Vm) -> (result: Result<u8, Error>)
        ensures
            fetched(old(vm)@, fetch_byte(self@, old(vm)@.ip), final(vm)@, result),
    {
        match self.instructions.get(vm.ip) {
            Some(b) => {
                vm.ip += 1;
                Ok(*b)
            },
            None => Err(Error::EndOfInstructions(vm.ip)),
        }
    }

    /// Fetches the eight bytes at the instruction pointer, moving past each,
    /// and reads them as a little-endian word.
    pub fn eat_immediate(&self, vm: &mut Vm) -> (result: Result<Block, Error>)
        ensures
            fetched(old(vm)@, fetch_word(self@, old(vm)@.ip), final(vm)@, result),
    {
        let ghost code = self.instructions@;
        let ghost start = vm@.ip;
        let mut bytes = [0u8; 8];
        assert(code.len() == self.instructions.len());
        for i in 0..8usize
            invariant
                code == self.instructions@,
                code.len() <= usize::MAX,
                start + i <= code.len() || i == 0,
                vm@ == old(vm)@.at((start + i) as usize),
                start == old(vm)@.ip,
                forall|j: int| 0 <= j < i ==> bytes@[j] == code[start + j],
        {
            bytes[i] = self.eat(vm)?;
        }
        assert(bytes@.subrange(0, 8) =~= code.subrange(start as int, start + 8));
        Ok(decode_word(bytes.as_slice(), 0))
    }

    /// Fetches one instruction and executes it.
    pub fn run(&self, vm: &mut Vm) -> (result: Result<(), Error>)
        requires
            old(vm)@.state == State::Active,
        ensures
            (final(vm)@, result) == step(old(vm)@, self@),
    {
        proof {
            reveal(decode);
        }
        let opcode = match Opcode::try_from(self.eat(vm)?) {
            Ok(opcode) => opcode,
            Err(e) => return Err(Error::from(e)),
        };
        match opcode {
            Opcode::Halt => halt(self, vm)?,
            Opcode::Nop => nop(self, vm)?,
            Opcode::Rrmovq => rrmovq(self, vm)?,
            Opcode::Cmovxx(cond) => cmovxx(self, vm, cond)?,
            Opcode::Irmovq => irmovq(self, vm)?,
            Opcode::Rmmovq => rmmovq(self, vm)?,
            Opcode::Mrmovq => mrmovq(self, vm)?,
            Opcode::Opq(fun) => opq(self, vm, fun)?,
            Opcode::Jxx(cond) => jxx(self, vm, cond)?,
            Opcode::Call => call(self, vm)?,
            Opcode::Ret => ret(self, vm)?,
            Opcode::Pushq => pushq(self, vm)?,
            Opcode::Popq => popq(self, vm)?,
        }
        Ok(())
    }
}

/// The register that the high nibble of an operand byte names.
fn high_register(byte: u8) -> (result: Result<Register, Error>)
    ensures
        result == register_of(high_nibble(byte)),
{
    let nibble = byte >> 4;
    assert(nibble == high_nibble(byte)) by (bit_vector)
        requires
            nibble == byte >> 4,
    ;
    match Register::try_from(nibble) {
        Ok(reg) => Ok(reg),
        Err(e) => Err(Error::from(e)),
    }
}

/// The register that the low nibble of an operand byte names.
fn low_register(byte: u8) -> (result: Result<Register, Error>)
    ensures
        result == register_of(low_nibble(byte)),
{
    let nibble = byte & 0xf;
    assert(nibble == low_nibble(byte)) by (bit_vector)
        requires
            nibble == byte & 0xf,
    ;
    match Register::try_from(nibble) {
        Ok(reg) => Ok(reg),
        Err(e) => Err(Error::from(e)),
    }
}

/// Halts the machine.
pub fn halt(_task: &Task<'_>, vm: &mut Vm) -> (result: Result<(), Error>)
    ensures
        (final(vm)@, result) == run(old(vm)@, _task@, Opcode::Halt),
{
    proof {
        reveal(execute);
    }
    vm.state = State::Halted;
    Ok(())
}

/// Does nothing.
pub fn nop(_task: &Task<'_>, vm: &mut Vm) -> (result: Result<(), Error>)
    ensures
        (final(vm)@, result) == run(old(vm)@, _task@, Opcode::Nop),
{
    proof {
        reveal(execute);
    }
    Ok(())
}

/// Copies one register to another.
pub fn rrmovq(task: &Task<'_>, vm: &mut Vm) -> (result: Result<(), Error>)
    ensures
        (final(vm)@, result) == run(old(vm)@, task@, Opcode::Rrmovq),
{
    proof {
        reveal(execute);
    }
    let byte = task.eat(vm)?;
    let ra = high_register(byte)?;  // src
    let rb = low_register(byte)?;  // dest
    let val_a = vm.reg_file[ra];
    *vm.reg_file.index_mut(rb) = val_a;
    Ok(())
}

/// Copies one register to another if the predicate holds of the flags.
pub fn cmovxx(task: &Task<'_>, vm: &mut Vm, cond: JCmovFun) -> (result: Result<(), Error>)
    ensures
        (final(vm)@, result) == run(old(vm)@, task@, Opcode::Cmovxx(cond)),
{
    proof {
        reveal(execute);
    }
    let byte = task.eat(vm)?;
    let ra = high_register(byte)?;  // src
    let rb = low_register(byte)?;  // dest
    // only move if condition is met
    if vm.reg_file.eval_condition(&cond) {
        let val_a = vm.reg_file[ra];
        *vm.reg_file.index_mut(rb) = val_a;
    }
    Ok(())
}

/// Loads an immediate word into a register.
pub fn irmovq(task: &Task<'_>, vm: &mut Vm) -> (result: Result<(), Error>)
    ensures
        (final(vm)@, result) == run(old(vm)@, task@, Opcode::Irmovq),
{
    proof {
        reveal(execute);
    }
    let byte = task.eat(vm)?;
    let rb = low_register(byte)?;  // dest
    let val_c = task.eat_immediate(vm)?;
    *vm.reg_file.index_mut(rb) = val_c;
    Ok(())
}

/// Stores a register to the memory at a base register plus a displacement.
pub fn rmmovq(task: &Task<'_>, vm: &mut Vm) -> (result: Result<(), Error>)
    ensures
        (final(vm)@, result) == run(old(vm)@, task@, Opcode::Rmmovq),
{
    proof {
        reveal(execute);
    }
    let byte = task.eat(vm)?;
    let ra = high_register(byte)?;  // src
    let rb = low_register(byte)?;  // base
    let val_c = task.eat_immediate(vm)?;
    let val_a = vm.reg_file[ra];
    let val_b = vm.reg_file[rb];
    let addr = to_offset(overflowing_add(val_b, val_c).0);
    vm.write_block(addr, val_a)?;
    Ok(())
}

/// Loads a register from the memory at a base register plus a displacement.
pub fn mrmovq(task: &Task<'_>, vm: &mut Vm) -> (result: Result<(), Error>)
    ensures
        (final(vm)@, result) == run(old(vm)@, task@, Opcode::Mrmovq),
{
    proof {
        reveal(execute);
    }
    let byte = task.eat(vm)?;
    let ra = high_register(byte)?;  // dest
    let rb = low_register(byte)?;  // base
    let val_c = task.eat_immediate(vm)?;
    let val_b = vm.reg_file[rb];
    let addr = to_offset(overflowing_add(val_b, val_c).0);
    let val_m = vm.read_block(addr)?;
    *vm.reg_file.index_mut(ra) = val_m;
    Ok(())
}

/// Replaces the destination by the result of an arithmetic operation on
/// the destination and the source, and sets the flags by the result. A
/// division or a modulo by zero fails before anything is written.
///
/// Where the operand byte names two registers: if the operation has a
/// result, the step succeeds, the destination holds the wrapped result, the
/// zero flag says whether that result is zero, the sign flag whether it is
/// negative, the overflow flag what the operation reported, and nothing
/// else but the instruction pointer has changed; if the divisor is zero,
/// the step fails as a division by zero and nothing but the instruction
/// pointer has changed.
pub fn opq(task: &Task<'_>, vm: &mut Vm, fun: OpFun) -> (result: Result<(), Error>)
    ensures
        (final(vm)@, result) == run(old(vm)@, task@, Opcode::Opq(fun)),
        old(vm)@.wf(),
        final(vm)@.wf(),
        fetch_register_pair(task@, old(vm)@.ip) matches Ok(((src, dst), next)) ==> match alu(
            fun,
            old(vm)@.register(dst),
            old(vm)@.register(src),
        ) {
            Some((value, overflow)) => {
                &&& result == Ok::<(), Error>(())
                &&& final(vm)@ == (Machine {
                    flags: flags_of(value, overflow),
                    ..old(vm)@.at(next).with_register(dst, value)
                })
                &&& final(vm)@.register(dst) == value
                &&& final(vm)@.flags.zf == (value == 0)
                &&& final(vm)@.flags.sf == (value < 0)
                &&& final(vm)@.flags.of == overflow
            },
            None => {
                &&& result == Err::<(), Error>(Error::DivisionByZero)
                &&& final(vm)@ == old(vm)@.at(next)
            },
        },
{
    proof {
        reveal(execute);
        use_type_invariant(&vm.memory);
        vm.reg_file.lemma_register_count();
    }
    let byte = task.eat(vm)?;
    let ra = high_register(byte)?;  // src
    let rb = low_register(byte)?;  // dest
    let val_a = vm.reg_file[ra];
    let val_b = vm.reg_file[rb];

    let (result, of) = match fun {
        OpFun::Add => overflowing_add(val_b, val_a),
        OpFun::Sub => overflowing_sub(val_b, val_a),
        OpFun::And => (val_b & val_a, false),
        OpFun::Xor => (val_b ^ val_a, false),
        OpFun::Mul => overflowing_mul(val_b, val_a),
        OpFun::Div => {
            if val_a == 0 {
                return Err(Error::DivisionByZero);
            }
            (wrapping_div(val_b, val_a), false)
        },
        OpFun::Mod => {
            if val_a == 0 {
                return Err(Error::DivisionByZero);
            }
            (wrapping_rem(val_b, val_a), false)
        },
    };

    *vm.reg_file.index_mut(rb) = result;
    *vm.reg_file.index_mut(Flag::ZF) = result == 0;
    *vm.reg_file.index_mut(Flag::SF) = result < 0;
    *vm.reg_file.index_mut(Flag::OF) = of;

    Ok(())
}

/// Continues at the target if the predicate holds of the flags.
pub fn jxx(task: &Task<'_>, vm: &mut Vm, cond: JCmovFun) -> (result: Result<(), Error>)
    ensures
        (final(vm)@, result) == run(old(vm)@, task@, Opcode::Jxx(cond)),
{
    proof {
        reveal(execute);
    }
    let dest = to_offset(task.eat_immediate(vm)?);
    if vm.reg_file.eval_condition(&cond) {
        vm.ip = dest;
    }
    Ok(())
}

/// Pushes the offset of the next instruction and continues at the target.
///
/// Where the target is there to fetch: if the block below the stack
/// pointer can be written, the step succeeds, the stack pointer is lowered
/// by a block, the block there holds the offset after the instruction, and
/// the machine continues at the target; if not, the step fails and nothing
/// but the instruction pointer has changed, which stands after the
/// instruction.
pub fn call(task: &Task<'_>, vm: &mut Vm) -> (result: Result<(), Error>)
    ensures
        (final(vm)@, result) == run(old(vm)@, task@, Opcode::Call),
        old(vm)@.wf(),
        final(vm)@.wf(),
        fetch_word(task@, old(vm)@.ip) matches Ok((target, next)) ==> ({
            let top = wrap(old(vm)@.stack_pointer() - 8);
            match write_spec(old(vm)@.memory, offset_of(top), word_of_offset(next)) {
                (memory, Ok(_)) => {
                    &&& result == Ok::<(), Error>(())
                    &&& final(vm)@ == (Machine { memory, ..old(vm)@ }).with_register(
                        Register::Rsp,
                        top,
                    ).at(offset_of(target))
                },
                (_, Err(e)) => {
                    &&& result == Err::<(), Error>(Error::MemoryError(e))
                    &&& final(vm)@ == old(vm)@.at(next)
                },
            }
        }),
{
    proof {
        reveal(execute);
        use_type_invariant(&vm.memory);
        vm.reg_file.lemma_register_count();
    }
    let dest = to_offset(task.eat_immediate(vm)?);
    let val_p = from_offset(vm.ip);
    let val_rsp = vm.reg_file[Register::Rsp];
    let new_rsp = overflowing_sub(val_rsp, 8).0;
    // push ret address onto stack
    vm.write_block(to_offset(new_rsp), val_p)?;
    *vm.reg_file.index_mut(Register::Rsp) = new_rsp;
    vm.ip = dest;
    Ok(())
}

/// Pops an offset and continues there.
///
/// If the block at the stack pointer can be read, the step succeeds, the
/// machine continues at the offset that the block holds, the stack pointer
/// is raised by a block, and nothing else has changed; if not, the step
/// fails and nothing has changed.
pub fn ret(_task: &Task<'_>, vm: &mut Vm) -> (result: Result<(), Error>)
    ensures
        (final(vm)@, result) == run(old(vm)@, _task@, Opcode::Ret),
        old(vm)@.wf(),
        final(vm)@.wf(),
        match read_spec(old(vm)@.memory, offset_of(old(vm)@.stack_pointer())) {
            Ok(back) => {
                &&& result == Ok::<(), Error>(())
                &&& final(vm)@ == old(vm)@.with_register(
                    Register::Rsp,
                    wrap(old(vm)@.stack_pointer() + 8),
                ).at(offset_of(back))
                &&& final(vm)@.ip == offset_of(back)
                &&& final(vm)@.stack_pointer() == wrap(old(vm)@.stack_pointer() + 8)
            },
            Err(e) => {
                &&& result == Err::<(), Error>(Error::MemoryError(e))
                &&& final(vm)@ == old(vm)@
            },
        },
{
    proof {
        reveal(execute);
        use_type_invariant(&vm.memory);
        vm.reg_file.lemma_register_count();
    }
    let val_rsp = vm.reg_file[Register::Rsp];
    let ret_addr = to_offset(vm.read_block(to_offset(val_rsp))?);
    let new_rsp = overflowing_add(val_rsp, 8).0;
    *vm.reg_file.index_mut(Register::Rsp) = new_rsp;
    vm.ip = ret_addr;
    Ok(())
}

/// Pushes a register: lowers the stack pointer by a block and stores the
/// value that the register had before.
pub fn pushq(task: &Task<'_>, vm: &mut Vm) -> (result: Result<(), Error>)
    ensures
        (final(vm)@, result) == run(old(vm)@, task@, Opcode::Pushq),
{
    proof {
        reveal(execute);
    }
    let byte = task.eat(vm)?;
    let ra = high_register(byte)?;  // src
    let val_a = vm.reg_file[ra];
    let val_rsp = vm.reg_file[Register::Rsp];
    let new_rsp = overflowing_sub(val_rsp, 8).0;
    vm.write_block(to_offset(new_rsp), val_a)?;
    *vm.reg_file.index_mut(Register::Rsp) = new_rsp;
    Ok(())
}

/// Pops into a register: reads the block at the stack pointer, then raises
/// the stack pointer by a block, then writes the register.
pub fn popq(task: &Task<'_>, vm: &mut Vm) -> (result: Result<(), Error>)
    ensures
        (final(vm)@, result) == run(old(vm)@, task@, Opcode::Popq),
{
    proof {
        reveal(execute);
    }
    let byte = task.eat(vm)?;
    let ra = high_register(byte)?;  // dest
    let val_rsp = vm.reg_file[Register::Rsp];
    let val_m = vm.read_block(to_offset(val_rsp))?;
    let new_rsp = overflowing_add(val_rsp, 8).0;
    // the stack pointer is raised first, so that a pop into the stack
    // pointer leaves the popped value there
    *vm.reg_file.index_mut(Register::Rsp) = new_rsp;
    *vm.reg_file.index_mut(ra) = val_m;
    Ok(())
}

} // verus!
