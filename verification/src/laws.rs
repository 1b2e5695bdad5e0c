//! What holds of every machine and every instruction stream.

use vstd::prelude::*;
use crate::memory::{access_error, lemma_store_then_load, load, MEMORY_SIZE};
use crate::model::{alu, decode, execute, flags_of, step, Fault, Instruction, Machine};
use crate::opcode::{JCmovFun, OpFun};
use crate::register::{Flags, Register};
use crate::vm::{Error, State};
use crate::word::{lemma_offset_roundtrip, offset_of, word_of_offset, wrap};
use crate::Word;

verus! {

/// A machine that starts has its stack pointer at the last block of the
/// memory and zero in every other register, all flags false, and is
/// active.
pub proof fn lemma_initial_machine(reg: Register)
    ensures
        Machine::initial().wf(),
        Machine::initial().stack_pointer() == MEMORY_SIZE - 8,
        reg != Register::Rsp ==> Machine::initial().register(reg) == 0,
        Machine::initial().flags == (Flags { zf: false, sf: false, of: false }),
        Machine::initial().state == State::Active,
        Machine::initial().ip == 0,
{
}

/// A halted machine refuses every step and stays exactly as it is.
pub proof fn lemma_halted_machine_refuses(m: Machine, code: Seq<u8>)
    requires
        m.state == State::Halted,
    ensures
        step(m, code) == (m, Err::<(), Error>(Error::MachineHalted)),
{
}

/// A step changes the memory and the register file in size never.
pub proof fn lemma_step_keeps_well_formed(m: Machine, code: Seq<u8>)
    requires
        m.wf(),
    ensures
        step(m, code).0.wf(),
{
    reveal(execute);
}

/// A step that fails changes no register, no flag, no byte of the memory
/// and not the state: at most the instruction pointer has moved, past the
/// bytes that were fetched.
pub proof fn lemma_failed_step_moves_only_the_instruction_pointer(m: Machine, code: Seq<u8>)
    requires
        step(m, code).1 is Err,
    ensures
        step(m, code).0 == m.at(step(m, code).0.ip),
{
    reveal(execute);
}

/// Only an arithmetic instruction that succeeds can change the flags: no
/// move, no access to the memory, no jump and no stack instruction does.
pub proof fn lemma_only_arithmetic_changes_flags(m: Machine, code: Seq<u8>)
    requires
        step(m, code).0.flags != m.flags,
    ensures
        step(m, code).1 is Ok,
        decode(code, m.ip) matches Ok((instruction, _)) && instruction is Opq,
{
    reveal(execute);
}

/// After an arithmetic instruction that succeeded, the destination holds
/// the wrapped result, the zero flag says whether that result is zero, the
/// sign flag whether it is negative, and the overflow flag what the
/// operation reported. Sum, difference, conjunction, exclusive disjunction
/// and product always succeed.
pub proof fn lemma_arithmetic_sets_flags(
    m: Machine,
    code: Seq<u8>,
    fun: OpFun,
    src: Register,
    dst: Register,
    next: usize,
)
    requires
        m.wf(),
        m.state == State::Active,
        decode(code, m.ip) == Ok::<_, Fault>((Instruction::Opq { fun, src, dst }, next)),
        !(fun is Div || fun is Mod) || m.register(src) != 0,
    ensures
        alu(fun, m.register(dst), m.register(src)) is Some,
        step(m, code).1 == Ok::<(), Error>(()),
        ({
            let (result, overflow) = alu(fun, m.register(dst), m.register(src))->0;
            let after = step(m, code).0;
            &&& after.register(dst) == result
            &&& after.flags.zf == (result == 0)
            &&& after.flags.sf == (result < 0)
            &&& after.flags.of == overflow
            &&& after == (Machine { flags: after.flags, ..m.at(next).with_register(dst, result) })
        }),
{
    reveal(execute);
}

/// A division or a modulo by zero fails as such and changes no register, no
/// flag and no byte of the memory: only the instruction pointer has moved
/// past the instruction.
pub proof fn lemma_division_by_zero(
    m: Machine,
    code: Seq<u8>,
    fun: OpFun,
    src: Register,
    dst: Register,
    next: usize,
)
    requires
        m.state == State::Active,
        decode(code, m.ip) == Ok::<_, Fault>((Instruction::Opq { fun, src, dst }, next)),
        fun is Div || fun is Mod,
        m.register(src) == 0,
    ensures
        step(m, code) == (m.at(next), Err::<(), Error>(Error::DivisionByZero)),
{
    reveal(execute);
}

/// A subtraction leaves zero, and so sets the zero flag, exactly if the two
/// operands are equal.
pub proof fn lemma_difference_is_zero_of_equals(dst: Word, src: Word)
    ensures
        alu(OpFun::Sub, dst, src) is Some,
        ({
            let (result, overflow) = alu(OpFun::Sub, dst, src)->0;
            flags_of(result, overflow).zf <==> dst == src
        }),
{
}

/// A conditional jump continues at its target exactly if its predicate
/// holds of the flags, and after the instruction otherwise; it changes
/// nothing else. So a jump on equal is taken exactly if the zero flag is
/// set.
pub proof fn lemma_jump_follows_flags(
    m: Machine,
    code: Seq<u8>,
    cond: JCmovFun,
    target: Word,
    next: usize,
)
    requires
        m.state == State::Active,
        decode(code, m.ip) == Ok::<_, Fault>((Instruction::Jxx { cond, target }, next)),
    ensures
        step(m, code) == (
            m.at(
                if m.flags.holds(cond) {
                    offset_of(target)
                } else {
                    next
                },
            ),
            Ok::<(), Error>(()),
        ),
        m.flags.holds(JCmovFun::Equal) <==> m.flags.zf,
{
    reveal(execute);
}

/// A call that succeeds continues at its target, lowers the stack pointer
/// by one block and leaves there the offset at which the machine stood.
pub proof fn lemma_call_pushes_return_address(m: Machine, target: Word)
    requires
        m.wf(),
        execute(m, Instruction::Call { target }).1 is Ok,
    ensures
        ({
            let called = execute(m, Instruction::Call { target }).0;
            let top = called.stack_pointer();
            &&& called.wf()
            &&& called.ip == offset_of(target)
            &&& top == wrap(m.stack_pointer() - 8)
            &&& access_error(called.memory.len(), offset_of(top)) is None
            &&& load(called.memory, offset_of(top) as int) == word_of_offset(m.ip)
        }),
{
    reveal(execute);
    let top = wrap(m.stack_pointer() - 8);
    lemma_store_then_load(m.memory, offset_of(top) as int, word_of_offset(m.ip));
}

/// A return whose stack pointer names a block of the memory continues at
/// the offset that the block holds and raises the stack pointer by one
/// block.
pub proof fn lemma_return_pops_address(m: Machine)
    requires
        m.wf(),
        access_error(m.memory.len(), offset_of(m.stack_pointer())) is None,
    ensures
        ({
            let (returned, result) = execute(m, Instruction::Ret);
            &&& result is Ok
            &&& returned.ip == offset_of(load(m.memory, offset_of(m.stack_pointer()) as int))
            &&& returned.stack_pointer() == wrap(m.stack_pointer() + 8)
        }),
{
    reveal(execute);
}

/// A call that succeeds continues at its target. A return that is executed
/// later, when the stack pointer is back where the call left it and the
/// block there is still the one that the call wrote, continues at the byte
/// after the call instruction and leaves the stack pointer as it was before
/// the call.
pub proof fn lemma_call_then_return(
    m: Machine,
    code: Seq<u8>,
    target: Word,
    next: usize,
    later: Machine,
)
    requires
        m.wf(),
        m.state == State::Active,
        decode(code, m.ip) == Ok::<_, Fault>((Instruction::Call { target }, next)),
        step(m, code).1 is Ok,
        later.wf(),
        later.state == State::Active,
        decode(code, later.ip) matches Ok((instruction, _)) && instruction is Ret,
        later.stack_pointer() == step(m, code).0.stack_pointer(),
        load(later.memory, offset_of(later.stack_pointer()) as int) == load(
            step(m, code).0.memory,
            offset_of(later.stack_pointer()) as int,
        ),
    ensures
        step(m, code).0.ip == offset_of(target),
        step(later, code).1 is Ok,
        step(later, code).0.ip == next,
        step(later, code).0.stack_pointer() == m.stack_pointer(),
{
    assert(step(m, code) == execute(m.at(next), Instruction::Call { target }));
    lemma_call_pushes_return_address(m.at(next), target);
    let after = decode(code, later.ip)->Ok_0.1;
    assert(step(later, code) == execute(later.at(after), Instruction::Ret));
    lemma_return_pops_address(later.at(after));
    lemma_offset_roundtrip(next);
}

} // verus!
