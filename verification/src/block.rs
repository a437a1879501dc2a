//! Basic blocks: maximal runs of instructions that are entered at the first and
//! left at the last.

use crate::arith;
use crate::codemeta::immediate_len;
use crate::instructions::is_opcode;
use crate::instructions::Instruction;
use crate::operand::carries_constant;
use crate::operand::copy_operands;
use crate::operand::instruction_views;
use crate::operand::IInstruction;
use crate::operand::IInstructionView;
use crate::operand::Operand;
use crate::word::be_nat;
use crate::word::Word;
use std::collections::BTreeMap;
use vstd::prelude::*;
use vstd::slice::slice_subrange;

verus! {

/// A basic block and the summary of what it does to the stack.
#[derive(Debug)]
pub struct BasicBlock {
    /// The byte offset of the first instruction.
    pub address: usize,
    /// The instructions, in order.
    pub instructions: Vec<IInstruction>,
    /// The values that the block leaves on the stack beyond what it found
    /// there, the top of the stack first.
    pub returns: Vec<Operand>,
    /// The stack slots that were there when the block was entered and that it
    /// overwrites: the offset of the slot from the top of what is left of them,
    /// and the value that it gets.
    pub stack_sets: BTreeMap<usize, Operand>,
    /// How many of the stack slots that were there when the block was entered
    /// it removes.
    pub pops_at_end: usize,
    /// Whether the block has been optimized; it is optimized at most once.
    pub optimized: bool,
    /// Whether the last byte of the block is no opcode.
    pub ends_on_invalid: bool,
}

/// The mathematical content of a [`BasicBlock`].
pub struct BasicBlockView {
    pub address: usize,
    pub instructions: Seq<IInstructionView>,
    pub returns: Seq<Operand>,
    pub stack_sets: Map<usize, Operand>,
    pub pops_at_end: usize,
    pub optimized: bool,
    pub ends_on_invalid: bool,
}

impl View for BasicBlock {
    type V = BasicBlockView;

    open spec fn view(&self) -> BasicBlockView {
        BasicBlockView {
            address: self.address,
            instructions: instruction_views(self.instructions@),
            returns: self.returns@,
            stack_sets: self.stack_sets@,
            pops_at_end: self.pops_at_end,
            optimized: self.optimized,
            ends_on_invalid: self.ends_on_invalid,
        }
    }
}

impl Clone for BasicBlock {
    fn clone(&self) -> (r: BasicBlock)
        ensures
            r@ == self@,
    {
        let mut instructions: Vec<IInstruction> = Vec::new();
        let mut i: usize = 0;
        while i < self.instructions.len()
            invariant
                i <= self.instructions.len(),
                instructions@.len() == i,
                forall|k: int| 0 <= k < i ==> (#[trigger] instructions@[k])@ == self.instructions@[k]@,
            decreases self.instructions.len() - i,
        {
            instructions.push(self.instructions[i].clone());
            i += 1;
        }
        let r = BasicBlock {
            address: self.address,
            instructions,
            returns: copy_operands(&self.returns),
            stack_sets: self.stack_sets.clone(),
            pops_at_end: self.pops_at_end,
            optimized: self.optimized,
            ends_on_invalid: self.ends_on_invalid,
        };
        assert(r@.instructions =~= self@.instructions);
        r
    }
}

/// The operands of an instruction before optimization: a `DUP` and a `SWAP`
/// name the stack slots they read, any other instruction one pop for each
/// item that it takes.
pub open spec fn initial_operands(inst: Instruction, idx: usize) -> Option<Seq<Operand>> {
    match inst.spec_dup_position() {
        Some(pos) => Some(seq![Operand::StackRef((idx, pos))]),
        None => match inst.spec_swap_position() {
            Some(pos) => Some(seq![Operand::StackRef((idx, 0)), Operand::StackRef((idx, pos))]),
            None => if inst.spec_info().args == 0 {
                None
            } else {
                Some(
                    Seq::new(
                        inst.spec_info().args as nat,
                        |i: int| Operand::StackPop((idx, i as usize)),
                    ),
                )
            },
        },
    }
}

/// The end of the immediate bytes of a `PUSH` of `n` bytes at `pc`: where they
/// would end, or the end of the code where it comes first.
pub open spec fn immediate_end(code: Seq<u8>, pc: int, n: int) -> int {
    if pc + 1 + n < code.len() {
        pc + 1 + n
    } else {
        code.len() as int
    }
}

/// The constant attached to the instruction at `pc`: for a `PUSH` its
/// immediate bytes, as far as the code has them, read most significant byte
/// first; for `PC` the offset `pc`; for `CODESIZE` the length of the code.
pub open spec fn attached_value(code: Seq<u8>, pc: int, inst: Instruction) -> Option<Seq<Word>> {
    match inst.spec_push_bytes() {
        Some(n) => Some(
            seq![Word::from_nat(be_nat(code.subrange(pc + 1, immediate_end(code, pc, n as int))))],
        ),
        None => if inst == Instruction::PC {
            Some(seq![Word::from_nat(pc as nat)])
        } else if inst == Instruction::CODESIZE {
            Some(seq![Word::from_nat(code.len())])
        } else {
            None
        },
    }
}

/// The instruction that the partitioner records for the byte at `pc`, as the
/// instruction of number `idx` of its block and of number `global_idx` of the
/// program.
#[verifier::opaque]
pub open spec fn instruction_at(code: Seq<u8>, pc: int, global_idx: int, idx: int) -> IInstructionView {
    match Instruction::spec_from_u8(code[pc]) {
        Some(inst) => IInstructionView {
            address: pc as usize,
            global_idx: global_idx as usize,
            opcode: Ok(inst),
            operands: initial_operands(inst, idx as usize),
            is_constant: inst.spec_pushes_constant(),
            ignoreable: false,
            value: attached_value(code, pc, inst),
        },
        None => IInstructionView {
            address: pc as usize,
            global_idx: global_idx as usize,
            opcode: Err(code[pc]),
            operands: None,
            is_constant: false,
            ignoreable: false,
            value: None,
        },
    }
}

/// The offset of the opcode that follows the instruction at `pc`.
pub open spec fn next_pc(code: Seq<u8>, pc: int) -> int {
    pc + 1 + immediate_len(code[pc])
}

/// Whether a basic block ends with the instruction at `pc`: the instruction
/// halts or jumps, the byte is no opcode, or a `JUMPDEST` follows.
#[verifier::opaque]
pub open spec fn ends_block(code: Seq<u8>, pc: int) -> bool {
    match Instruction::spec_from_u8(code[pc]) {
        Some(inst) => inst.spec_stops() || inst.spec_is_jump() || (next_pc(code, pc) < code.len()
            && code[next_pc(code, pc)] == 0x5b),
        None => true,
    }
}

/// The instructions of the basic block that goes on at `pc`, where the next
/// instruction is number `idx` of the block and number `global_idx` of the
/// program.
pub open spec fn block_instructions(code: Seq<u8>, pc: int, global_idx: int, idx: int) -> Seq<
    IInstructionView,
>
    decreases code.len() - pc,
{
    if pc < 0 || pc >= code.len() {
        Seq::empty()
    } else if ends_block(code, pc) || next_pc(code, pc) >= code.len() {
        seq![instruction_at(code, pc, global_idx, idx)]
    } else {
        seq![instruction_at(code, pc, global_idx, idx)] + block_instructions(
            code,
            next_pc(code, pc),
            global_idx + 1,
            idx + 1,
        )
    }
}

/// The offset behind an instruction and its immediate bytes.
pub open spec fn instruction_end(inst: IInstructionView) -> int {
    match inst.opcode {
        Ok(op) => match op.spec_push_bytes() {
            Some(n) => inst.address + 1 + n,
            None => inst.address + 1,
        },
        Err(_) => inst.address + 1,
    }
}

impl BasicBlockView {
    /// The offset behind the block: behind its last instruction, or its own
    /// address where it has no instruction.
    pub open spec fn end(self) -> int {
        if self.instructions.len() == 0 {
            self.address as int
        } else {
            instruction_end(self.instructions.last())
        }
    }
}

/// The basic block that starts at `start`, before optimization, where its first
/// instruction is number `global_idx` of the program.
pub open spec fn parsed_block(code: Seq<u8>, start: int, global_idx: int) -> BasicBlockView {
    let instructions = block_instructions(code, start, global_idx, 0);
    BasicBlockView {
        address: start as usize,
        instructions,
        returns: Seq::empty(),
        stack_sets: Map::empty(),
        pops_at_end: 0,
        optimized: false,
        ends_on_invalid: instructions.len() > 0 && instructions.last().opcode is Err,
    }
}

/// What the partitioner records for a byte of the code: its offset and
/// number, the instruction it decodes to, and for an instruction that pushes a
/// constant the one constant it pushes. Nothing is marked as needing no code.
pub proof fn lemma_instruction_at(code: Seq<u8>, pc: int, global_idx: int, idx: int)
    requires
        0 <= pc < code.len(),
        code.len() + 33 <= usize::MAX,
        0 <= global_idx <= usize::MAX,
        0 <= idx <= usize::MAX,
    ensures
        ({
            let inst = instruction_at(code, pc, global_idx, idx);
            &&& inst.address == pc
            &&& inst.global_idx == global_idx
            &&& instruction_end(inst) == next_pc(code, pc)
            &&& !inst.ignoreable
            &&& match inst.opcode {
                Ok(op) => {
                    &&& op.spec_opcode() == code[pc]
                    &&& inst.is_constant == op.spec_pushes_constant()
                    &&& op.spec_pushes_constant() ==> inst.value is Some && inst.value->Some_0.len()
                        == 1
                    &&& inst.operands == initial_operands(op, idx as usize)
                },
                Err(byte) => {
                    &&& byte == code[pc]
                    &&& !is_opcode(byte)
                    &&& !inst.is_constant
                    &&& inst.value is None
                    &&& inst.operands is None
                },
            }
        }),
{
    reveal(instruction_at);
    Instruction::lemma_spec_from_u8(code[pc]);
}

/// The shape of a block's instructions: there is at least one; each lies in the
/// code, where the one before it ends, the first at `pc`; each is what the
/// partitioner records for its byte; their numbers in the program follow one
/// another; and none but the last ends a block.
pub proof fn lemma_block_instructions(code: Seq<u8>, pc: int, global_idx: int, idx: int)
    requires
        0 <= pc < code.len(),
        code.len() + 33 <= usize::MAX,
        0 <= global_idx,
        global_idx + (code.len() - pc) <= usize::MAX,
        0 <= idx <= pc,
    ensures
        ({
            let is = block_instructions(code, pc, global_idx, idx);
            &&& is.len() >= 1
            &&& is[0].address == pc
            &&& forall|j: int|
                0 <= j < is.len() ==> {
                    &&& pc + j <= (#[trigger] is[j]).address < code.len()
                    &&& is[j] == instruction_at(code, is[j].address as int, global_idx + j, idx + j)
                }
            &&& forall|i: int, j: int|
                0 <= i && j == i + 1 && j < is.len() ==> (#[trigger] is[j]).address == next_pc(
                    code,
                    (#[trigger] is[i]).address as int,
                )
            &&& forall|i: int, j: int|
                0 <= i < j < is.len() ==> (#[trigger] is[i]).address < (#[trigger] is[j]).address
            &&& pc + is.len() <= next_pc(code, is.last().address as int) <= code.len() + 32
            &&& forall|j: int|
                0 <= j < is.len() ==> next_pc(code, (#[trigger] is[j]).address as int) <= next_pc(
                    code,
                    is.last().address as int,
                )
            &&& forall|j: int|
                0 <= j < is.len() - 1 ==> !ends_block(code, (#[trigger] is[j]).address as int)
            &&& ends_block(code, is.last().address as int) || next_pc(
                code,
                is.last().address as int,
            ) >= code.len()
        }),
    decreases code.len() - pc,
{
    let is = block_instructions(code, pc, global_idx, idx);
    let first = instruction_at(code, pc, global_idx, idx);
    lemma_instruction_at(code, pc, global_idx, idx);
    if ends_block(code, pc) || next_pc(code, pc) >= code.len() {
        assert(is =~= seq![first]);
    } else {
        let rest = block_instructions(code, next_pc(code, pc), global_idx + 1, idx + 1);
        lemma_block_instructions(code, next_pc(code, pc), global_idx + 1, idx + 1);
        assert(is =~= seq![first] + rest);
        assert forall|j: int| 0 <= j < is.len() implies {
            &&& pc + j <= (#[trigger] is[j]).address < code.len()
            &&& is[j] == instruction_at(code, is[j].address as int, global_idx + j, idx + j)
        } by {
            if j > 0 {
                assert(is[j] == rest[j - 1]);
            }
        }
        assert forall|i: int, j: int| 0 <= i && j == i + 1 && j < is.len() implies (
        #[trigger] is[j]).address == next_pc(code, (#[trigger] is[i]).address as int) by {
            assert(is[j] == rest[j - 1]);
            if i > 0 {
                assert(is[i] == rest[i - 1]);
            }
        }
        assert forall|j: int| 0 <= j < is.len() - 1 implies !ends_block(
            code,
            (#[trigger] is[j]).address as int,
        ) by {
            if j > 0 {
                assert(is[j] == rest[j - 1]);
            }
        }
        assert(is.last() == rest.last());
        assert forall|i: int, j: int| 0 <= i < j < is.len() implies (#[trigger] is[i]).address < (
        #[trigger] is[j]).address by {
            assert(is[j] == rest[j - 1]);
            if i > 0 {
                assert(is[i] == rest[i - 1]);
            }
        }
        assert forall|j: int| 0 <= j < is.len() implies next_pc(
            code,
            (#[trigger] is[j]).address as int,
        ) <= next_pc(code, is.last().address as int) by {
            if j > 0 {
                assert(is[j] == rest[j - 1]);
            } else {
                assert(rest[0].address <= rest.last().address) by {
                    if rest.len() > 1 {
                        assert(rest[0].address < rest[rest.len() - 1].address);
                    }
                }
            }
        }
    }
}

/// A block read from the code has at least one instruction and ends behind
/// its start, within 32 bytes of the end of the code; it has at most one
/// instruction for each byte. Each of its instructions is as the partitioner
/// leaves it: it carries its constant if it pushes one, and only then is it
/// marked as constant; it is not marked as needing no code; and its operands
/// are those that its opcode has before optimization.
pub proof fn lemma_parsed_block(code: Seq<u8>, start: int, global_idx: int)
    requires
        0 <= start < code.len(),
        code.len() + 33 <= usize::MAX,
        0 <= global_idx,
        global_idx + (code.len() - start) <= usize::MAX,
    ensures
        ({
            let block = parsed_block(code, start, global_idx);
            &&& block.instructions.len() >= 1
            &&& block.address == start
            &&& block.instructions[0].address == start
            &&& start + block.instructions.len() <= block.end() <= code.len() + 32
            &&& start + block.instructions.len() <= code.len()
            &&& forall|i: int|
                0 <= i < block.instructions.len() ==> {
                    let inst = #[trigger] block.instructions[i];
                    &&& carries_constant(inst)
                    &&& !inst.ignoreable
                    &&& inst.opcode matches Ok(op) ==> inst.is_constant == op.spec_pushes_constant()
                        && inst.operands == initial_operands(op, i as usize)
                }
        }),
{
    let block = parsed_block(code, start, global_idx);
    lemma_block_instructions(code, start, global_idx, 0);
    assert(start + (block.instructions.len() - 1) <= block.instructions.last().address);
    lemma_instruction_at(
        code,
        block.instructions.last().address as int,
        global_idx + block.instructions.len() - 1,
        block.instructions.len() - 1,
    );
    assert forall|i: int| 0 <= i < block.instructions.len() implies {
        let inst = #[trigger] block.instructions[i];
        &&& carries_constant(inst)
        &&& !inst.ignoreable
        &&& inst.opcode matches Ok(op) ==> inst.is_constant == op.spec_pushes_constant()
            && inst.operands == initial_operands(op, i as usize)
    } by {
        lemma_instruction_at(code, block.instructions[i].address as int, global_idx + i, i);
    }
}

/// One pop for each of the `args` items that instruction `idx` takes.
fn pops(idx: usize, args: usize) -> (r: Vec<Operand>)
    ensures
        r@ == Seq::new(args as nat, |i: int| Operand::StackPop((idx, i as usize))),
{
    let mut r: Vec<Operand> = Vec::new();
    let mut i: usize = 0;
    while i < args
        invariant
            i <= args,
            r@ == Seq::new(i as nat, |k: int| Operand::StackPop((idx, k as usize))),
        decreases args - i,
    {
        r.push(Operand::StackPop((idx, i)));
        i += 1;
    }
    r
}

impl IInstruction {
    /// Reads the instruction at `pc`, as the instruction of number `idx` of its
    /// block and of number `global_idx` of the program. Returns what is
    /// recorded of it before optimization, whether a basic block ends with it,
    /// and the offset of the opcode that follows it.
    fn parse(bytecode: &[u8], pc: usize, global_idx: usize, idx: usize) -> (r: (
        IInstruction,
        bool,
        usize,
    ))
        requires
            pc < bytecode@.len(),
            bytecode@.len() + 33 <= usize::MAX,
        ensures
            r.0@ == instruction_at(bytecode@, pc as int, global_idx as int, idx as int),
            r.1 == ends_block(bytecode@, pc as int),
            r.2 == next_pc(bytecode@, pc as int),
    {
        reveal(instruction_at);
        reveal(ends_block);
        let ghost code = bytecode@;
        let mut iinst = IInstruction {
            address: pc,
            global_idx,
            opcode: Err(bytecode[pc]),
            is_constant: false,
            operands: None,
            value: None,
            ignoreable: false,
        };
        let mut should_break = false;
        let mut next = pc + 1;
        if let Some(inst) = Instruction::from_u8(bytecode[pc]) {
            let push_bytes_sz = match inst.push_bytes() {
                Some(n) => n,
                None => 0,
            };
            let next_pc = pc + 1 + push_bytes_sz;
            // the block also ends where the next instruction is a JUMPDEST
            let next_is_jumpdest = if next_pc < bytecode.len() {
                if let Some(jdest) = Instruction::from_u8(bytecode[next_pc]) {
                    proof {
                        if code[next_pc as int] == 0x5b {
                            Instruction::lemma_opcode_injective(jdest, Instruction::JUMPDEST);
                        }
                    }
                    jdest == Instruction::JUMPDEST
                } else {
                    false
                }
            } else {
                false
            };
            if inst.stops() || inst.is_jump() || next_is_jumpdest {
                should_break = true;
            }
            iinst.is_constant = inst.pushes_constant();
            let info = inst.info();
            // an instruction that pushes a constant carries the constant
            if inst.pushes_constant() {
                if let Some(n) = inst.push_bytes() {
                    let hex_bytes = if pc + 1 + n < bytecode.len() {
                        arith::from_big_endian(slice_subrange(bytecode, pc + 1, pc + 1 + n))
                    } else {
                        if pc + 1 == bytecode.len() {
                            proof {
                                assert(code.subrange(pc + 1, code.len() as int) =~= Seq::<
                                    u8,
                                >::empty());
                            }
                            Word::from_u64(0)
                        } else {
                            arith::from_big_endian(
                                slice_subrange(bytecode, pc + 1, bytecode.len()),
                            )
                        }
                    };
                    proof {
                        hex_bytes.lemma_is_from_nat(
                            be_nat(code.subrange(pc + 1, immediate_end(code, pc as int, n as int))),
                        );
                    }
                    iinst.value = Some(vec![hex_bytes]);
                } else {
                    iinst.value = Some(vec![Word::from_usize(pc)]);
                }
            }
            // the size of the code is taken to be that of this code
            if inst == Instruction::CODESIZE {
                iinst.value = Some(vec![Word::from_usize(bytecode.len())]);
            }
            // DUP and SWAP read stack slots; every other instruction pops what
            // it takes
            iinst.operands = if let Some(pos) = inst.dup_position() {
                Some(vec![Operand::StackRef((idx, pos))])
            } else if let Some(pos) = inst.swap_position() {
                Some(vec![Operand::StackRef((idx, 0)), Operand::StackRef((idx, pos))])
            } else {
                if info.args == 0 {
                    None
                } else {
                    Some(pops(idx, info.args))
                }
            };
            // skip the immediate bytes
            if let Some(n) = inst.push_bytes() {
                next += n;
            }
            iinst.opcode = Ok(inst);
        } else {
            should_break = true;
        }
        proof {
            let spec = instruction_at(code, pc as int, global_idx as int, idx as int);
            if iinst@.operands is Some {
                assert(iinst@.operands->Some_0 =~= spec.operands->Some_0);
            }
            if iinst@.value is Some {
                assert(iinst@.value->Some_0 =~= spec.value->Some_0);
            }
        }
        (iinst, should_break, next)
    }
}

impl BasicBlock {
    /// Reads the basic block that starts at `start_index`, where its first
    /// instruction is number `inst_global_index` of the program. Returns the
    /// block, before optimization, and the offset at which the next block starts.
    pub fn parse(bytecode: &[u8], start_index: usize, inst_global_index: usize) -> (r: (
        BasicBlock,
        usize,
    ))
        requires
            bytecode@.len() + 33 <= usize::MAX,
            start_index < bytecode@.len() ==> inst_global_index + (bytecode@.len() - start_index)
                <= usize::MAX,
        ensures
            r.0@ == parsed_block(bytecode@, start_index as int, inst_global_index as int),
            r.1 == r.0@.end(),
            r.0@.instructions.len() <= bytecode@.len(),
            forall|i: int|
                0 <= i < r.0@.instructions.len() ==> carries_constant(
                    #[trigger] r.0@.instructions[i],
                ),
    {
        proof {
            if start_index < bytecode@.len() {
                lemma_parsed_block(bytecode@, start_index as int, inst_global_index as int);
            }
        }
        let mut inst_global_index = inst_global_index;
        let mut bb = BasicBlock {
            address: start_index,
            instructions: Vec::new(),
            returns: Vec::new(),
            stack_sets: BTreeMap::new(),
            pops_at_end: 0,
            optimized: false,
            ends_on_invalid: false,
        };
        let ghost code = bytecode@;
        let ghost whole = block_instructions(code, start_index as int, inst_global_index as int, 0);
        let mut idx: usize = 0;
        let mut pc = start_index;
        let mut should_break = false;
        while pc < bytecode.len() && !should_break
            invariant
                code == bytecode@,
                code.len() + 33 <= usize::MAX,
                start_index <= pc,
                pc <= code.len() + 32 || pc == start_index,
                idx <= pc - start_index,
                idx == bb.instructions@.len(),
                pc < code.len() ==> inst_global_index + (code.len() - pc) <= usize::MAX,
                bb.address == start_index,
                bb.returns@ == Seq::<Operand>::empty(),
                bb.stack_sets@ == Map::<usize, Operand>::empty(),
                bb.pops_at_end == 0,
                !bb.optimized,
                whole == instruction_views(bb.instructions@) + (if should_break {
                    Seq::empty()
                } else {
                    block_instructions(code, pc as int, inst_global_index as int, idx as int)
                }),
                pc == bb@.end(),
                bb.ends_on_invalid ==> should_break,
                bb.ends_on_invalid == (bb.instructions@.len() > 0 && instruction_views(
                    bb.instructions@,
                ).last().opcode is Err),
            decreases code.len() + 33 - pc,
        {
            let ghost before = instruction_views(bb.instructions@);
            assert(inst_global_index < usize::MAX);
            let ghost opcode_pc = pc as int;
            let (iinst, ends, next) = IInstruction::parse(bytecode, pc, inst_global_index, idx);
            let ghost recorded = iinst@;
            proof {
                lemma_instruction_at(code, opcode_pc, inst_global_index as int, idx as int);
            }
            if iinst.opcode.is_err() {
                bb.ends_on_invalid = true;
            }
            should_break = ends;
            bb.instructions.push(iinst);
            inst_global_index += 1;
            pc = next;
            idx += 1;
            proof {
                assert(instruction_views(bb.instructions@) =~= before + seq![recorded]);
                if !should_break && pc >= code.len() {
                    assert(block_instructions(code, pc as int, inst_global_index as int, idx as int)
                        =~= Seq::empty());
                }
                assert(whole =~= instruction_views(bb.instructions@) + (if should_break {
                    Seq::empty()
                } else {
                    block_instructions(code, pc as int, inst_global_index as int, idx as int)
                }));
                assert(bb.ends_on_invalid ==> should_break) by {
                    reveal(ends_block);
                    Instruction::lemma_spec_from_u8(code[opcode_pc]);
                }
            }
        }
        proof {
            assert(whole =~= instruction_views(bb.instructions@));
        }
        (bb, pc)
    }
}

} // verus!
