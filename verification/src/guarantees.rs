//! What optimization guarantees of a basic block.

use crate::block::initial_operands;
use crate::block::BasicBlockView;
use crate::emulate::all_decodable;
use crate::emulate::stack_before;
use crate::emulate::ENTRY_SLOTS;
use crate::fold::evm_result;
use crate::fold::fold;
use crate::fold::is_constant_of;
use crate::fold::lemma_fold_single_result;
use crate::fold::lemma_fold_sound;
use crate::fold::operand_values;
use crate::fold::respects_constants;
use crate::fold::spec_evaluate_opcode;
use crate::instructions::Instruction;
use crate::operand::IInstructionView;
use crate::operand::Operand;
use crate::word::Word;
use vstd::prelude::*;

verus! {

/// Optimizing a block a second time changes nothing.
pub proof fn lemma_optimize_idempotent(block: BasicBlockView)
    ensures
        block.optimize().optimize() == block.optimize(),
{
}

/// By how much the first `n` instructions, executed one after the other, change
/// the height of the stack: each takes its operands off and leaves its results.
pub open spec fn stack_delta(instructions: Seq<IInstructionView>, n: int) -> int
    decreases n,
{
    if n <= 0 {
        0
    } else {
        stack_delta(instructions, n - 1) + (match instructions[n - 1].opcode {
            Ok(op) => op.spec_info().ret - op.spec_info().args,
            Err(_) => 0,
        })
    }
}

/// During emulation the abstract stack, less the entry slots taken below it,
/// is as much higher than at the start as the instructions so far make the
/// stack; and each instruction takes at most seven entry slots below it.
pub proof fn lemma_stack_height(instructions: Seq<IInstructionView>, n: int)
    requires
        all_decodable(instructions),
        0 <= n <= instructions.len(),
    ensures
        ({
            let st = stack_before(instructions, n);
            &&& st.stack.len() - st.pops == ENTRY_SLOTS + stack_delta(instructions, n)
            &&& 0 <= st.pops <= 7 * n
        }),
    decreases n,
{
    if n > 0 {
        lemma_stack_height(instructions, n - 1);
        let st = stack_before(instructions, n - 1);
        let inst = instructions[n - 1];
        let op = inst.opcode->Ok_0;
        op.lemma_stack_effect();
        if !op.spec_pushes_constant() && op.spec_dup_position() is None && op.spec_swap_position()
            is None && op != Instruction::POP && op != Instruction::JUMPDEST {
            let args = st.taken(op.spec_info().args as nat);
            if fold(op, (n - 1) as usize, args) is Some {
                lemma_fold_single_result(op, (n - 1) as usize, args);
            }
        }
    }
}

/// The summary of an optimized block accounts for what its instructions do to
/// the height of the stack: the values it leaves beyond what it found, less the
/// entry slots it removes, are as many as executing its opcodes one after the
/// other makes the stack higher.
///
/// This is stated of a block of opcodes that comes fresh from the code. A
/// block with a byte that is no opcode is not emulated and gets no summary.
pub proof fn lemma_net_effect(block: BasicBlockView)
    requires
        !block.optimized,
        block.optimizable(),
        block.returns.len() == 0,
        all_decodable(block.instructions),
    ensures
        block.optimize().returns.len() - block.optimize().pops_at_end == stack_delta(
            block.instructions,
            block.instructions.len() as int,
        ),
{
    lemma_stack_height(block.instructions, block.instructions.len() as int);
}

/// An instruction that optimization marks as constant carries what the EVM
/// computes: whatever values the operands that are no constants hold at run
/// time,
/// - a `DUP` that is marked carries the value of the operand it copies;
/// - an arithmetic, comparison or bitwise instruction that is marked has
///   operands from which the EVM computes each value that the instruction
///   carries.
///
/// This is stated of instruction `i` of a block of opcodes that is not
/// optimized yet, where the instruction is marked as constant only if it
/// pushes a constant, as it is when it comes fresh from the code. One folding
/// rule is left out, because it does not hold there: `EXP` with the constant
/// base 0 is folded to 0 whatever the exponent, while the EVM gives 1 where the
/// exponent holds 0.
pub proof fn lemma_constants_sound(block: BasicBlockView, i: int, env: spec_fn(Operand) -> Word)
    requires
        !block.optimized,
        all_decodable(block.instructions),
        0 <= i < block.instructions.len(),
        block.instructions[i].is_constant ==> block.instructions[i].opcode->Ok_0.spec_pushes_constant(),
        respects_constants(env),
        ({
            let inst = block.optimize().instructions[i];
            !(inst.opcode == Ok::<Instruction, u8>(Instruction::EXP) && is_constant_of(
                inst.operands->Some_0[0],
                0,
            ) && !(inst.operands->Some_0[1] is Constant) && env(inst.operands->Some_0[1])@ == 0)
        }),
    ensures
        ({
            let inst = block.optimize().instructions[i];
            let op = inst.opcode->Ok_0;
            inst.is_constant && !op.spec_pushes_constant() ==> {
                &&& inst.operands is Some
                &&& inst.value is Some
                &&& op.spec_dup_position() is Some ==> inst.value->Some_0 == seq![
                    env(inst.operands->Some_0[0]),
                ]
                &&& op.spec_dup_position() is None ==> forall|k: int|
                    0 <= k < inst.value->Some_0.len() ==> (#[trigger] inst.value->Some_0[k])
                        == evm_result(op, operand_values(env, inst.operands->Some_0))
            }
        }),
{
    let before = block.instructions[i];
    let st = stack_before(block.instructions, i);
    let inst = block.optimize().instructions[i];
    let op = inst.opcode->Ok_0;
    assert(inst == st.annotate(i as usize, before));
    if inst.is_constant && !op.spec_pushes_constant() {
        op.lemma_stack_effect();
        if op.spec_dup_position() is Some {
        } else if op.spec_swap_position() is Some {
        } else if op == Instruction::POP || op == Instruction::JUMPDEST {
        } else {
            let args = st.taken(op.spec_info().args as nat);
            let evaluated = spec_evaluate_opcode(op, i as usize, args);
            assert(evaluated.1);
            let folded = fold(op, i as usize, args)->Some_0;
            assert(evaluated.0 == seq![folded]);
            lemma_fold_single_result(op, i as usize, args);
            assert(args.len() > 0);
            assert(inst.operands == Some(args));
            lemma_fold_sound(op, i as usize, args, env);
            lemma_constants_among_one(folded);
        }
    }
}

/// The constants among one operand: its value if it is a constant, nothing
/// otherwise.
proof fn lemma_constants_among_one(operand: Operand)
    ensures
        crate::emulate::constants_among(seq![operand]) == (if operand is Constant {
            seq![operand.constant_value()]
        } else {
            Seq::<Word>::empty()
        }),
{
    let s = seq![operand];
    assert(s.drop_last() =~= Seq::<Operand>::empty());
    assert(crate::emulate::constants_among(s.drop_last()) =~= Seq::<Word>::empty());
    if operand is Constant {
        assert(crate::emulate::constants_among(s) =~= seq![operand.constant_value()]);
    }
}

/// Whether an operand says where instruction `idx` of a block takes a value
/// from: a constant, a stack slot as it was when the block was entered, or a
/// result of an instruction before it.
pub open spec fn resolved(operand: Operand, idx: int) -> bool {
    match operand {
        Operand::Constant(_) => true,
        Operand::StackRef((origin, _)) => origin == 0,
        Operand::InstructionRef((origin, _)) => origin < idx,
        Operand::StackPop(_) => false,
    }
}

/// Whatever instruction `idx` is evaluated to is resolved for the
/// instructions behind it, if its operands are resolved for it.
proof fn lemma_evaluated_resolved(op: Instruction, idx: usize, args: Seq<Operand>, k: int)
    requires
        forall|j: int| 0 <= j < args.len() ==> resolved(#[trigger] args[j], idx as int),
        0 <= k < spec_evaluate_opcode(op, idx, args).0.len(),
    ensures
        resolved(spec_evaluate_opcode(op, idx, args).0[k], idx + 1),
{
    if fold(op, idx, args) is Some {
        if args.len() == 2 {
            assert(resolved(args[0], idx as int));
            assert(resolved(args[1], idx as int));
        }
    }
}

/// During emulation the abstract stack holds resolved operands only.
pub proof fn lemma_stack_resolved(instructions: Seq<IInstructionView>, n: int)
    requires
        all_decodable(instructions),
        0 <= n <= instructions.len(),
        instructions.len() <= usize::MAX,
    ensures
        forall|k: int|
            0 <= k < stack_before(instructions, n).stack.len() ==> resolved(
                #[trigger] stack_before(instructions, n).stack[k],
                n,
            ),
    decreases n,
{
    if n > 0 {
        lemma_stack_resolved(instructions, n - 1);
        let st = stack_before(instructions, n - 1);
        let idx = (n - 1) as usize;
        let inst = instructions[n - 1];
        let op = inst.opcode->Ok_0;
        let after = stack_before(instructions, n);
        assert(after == st.step(idx, inst));
        assert forall|k: int| 0 <= k < st.stack.len() implies resolved(
            #[trigger] st.stack[k],
            n,
        ) by {
            assert(resolved(st.stack[k], n - 1));
        }
        assert forall|k: int| 0 <= k < after.stack.len() implies resolved(
            #[trigger] after.stack[k],
            n,
        ) by {
            if op.spec_pushes_constant() {
                if k > 0 {
                    assert(after.stack[k] == st.stack[k - 1]);
                }
            } else if op.spec_dup_position() is Some {
                if k > 0 {
                    assert(after.stack[k] == st.stack[k - 1]);
                }
            } else if op.spec_swap_position() is Some {
                let pos = op.spec_swap_position()->Some_0 as int;
                if st.stack.len() == 0 {
                } else if pos >= st.stack.len() {
                    if k > 0 {
                        assert(after.stack[k] == st.stack[k]);
                    }
                } else {
                }
            } else if op == Instruction::POP {
                if st.stack.len() >= 1 {
                    assert(after.stack[k] == st.stack[k + 1]);
                }
            } else if op == Instruction::JUMPDEST {
            } else {
                let count = op.spec_info().args as nat;
                let args = st.taken(count);
                let results = spec_evaluate_opcode(op, idx, args).0;
                let rest = st.take(count).stack;
                assert forall|j: int| 0 <= j < args.len() implies resolved(
                    #[trigger] args[j],
                    idx as int,
                ) by {
                    if j < st.stack.len() {
                        assert(resolved(st.stack[j], n - 1));
                    }
                }
                if k < results.len() {
                    lemma_evaluated_resolved(op, idx, args, results.len() - 1 - k);
                    assert(after.stack[k] == results[results.len() - 1 - k]);
                } else {
                    assert(after.stack[k] == rest[k - results.len()]);
                    assert(rest[k - results.len()] == st.stack[k - results.len() + count]);
                }
            }
        }
    }
}

/// After optimization no operand is left open: each operand of each
/// instruction is a constant, a stack slot as it was when the block was
/// entered, or a result of an earlier instruction of the block.
///
/// This is stated of instruction `i` of a block of opcodes, where the
/// instruction has the operands that it has when it comes fresh from the code.
pub proof fn lemma_operands_resolved(block: BasicBlockView, i: int, k: int)
    requires
        !block.optimized,
        block.optimizable(),
        all_decodable(block.instructions),
        0 <= i < block.instructions.len(),
        block.instructions[i].operands == initial_operands(
            block.instructions[i].opcode->Ok_0,
            i as usize,
        ),
        block.optimize().instructions[i].operands is Some,
        0 <= k < block.optimize().instructions[i].operands->Some_0.len(),
    ensures
        resolved(block.optimize().instructions[i].operands->Some_0[k], i),
{
    let before = block.instructions[i];
    let st = stack_before(block.instructions, i);
    let inst = block.optimize().instructions[i];
    let op = inst.opcode->Ok_0;
    assert(inst == st.annotate(i as usize, before));
    lemma_stack_resolved(block.instructions, i);
    op.lemma_stack_effect();
    if op.spec_pushes_constant() {
    } else if op.spec_dup_position() is Some {
        let pos = op.spec_dup_position()->Some_0 as int;
        if pos < st.stack.len() {
            assert(resolved(st.stack[pos], i));
        }
    } else if op.spec_swap_position() is Some {
        let pos = op.spec_swap_position()->Some_0 as int;
        if 0 < st.stack.len() {
            assert(resolved(st.stack[0], i));
        }
        if pos < st.stack.len() {
            assert(resolved(st.stack[pos], i));
        }
    } else if op == Instruction::POP || op == Instruction::JUMPDEST {
    } else {
        if k < st.stack.len() {
            assert(resolved(st.stack[k], i));
        }
    }
}

} // verus!
