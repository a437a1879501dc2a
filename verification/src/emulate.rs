//! Emulation of a basic block on an abstract stack: turns stack traffic into
//! explicit operands, folds constants, and summarizes what the block does to
//! the stack.

use crate::block::BasicBlock;
use crate::block::BasicBlockView;
use crate::fold::evaluate_opcode;
use crate::fold::spec_evaluate_opcode;
use crate::instructions::Instruction;
use crate::operand::carries_constant;
use crate::operand::IInstruction;
use crate::operand::IInstructionView;
use crate::operand::Operand;
use crate::word::Word;
use std::collections::BTreeMap;
use std::collections::VecDeque;
use vstd::prelude::*;

verus! {

/// The number of stack slots, as they were when the block was entered, that the
/// abstract stack starts with.
pub const ENTRY_SLOTS: usize = 32;

/// The abstract stack during the emulation of a block.
pub struct StackModel {
    /// The operands on the stack, the top first.
    pub stack: Seq<Operand>,
    /// How many entry slots below the ones that the abstract stack started with
    /// the block has taken so far.
    pub pops: int,
}

/// The operand that stands for the entry slot at `offset` from the top.
pub open spec fn entry_ref(offset: int) -> Operand {
    Operand::StackRef((0, offset as usize))
}

/// The abstract stack on entry to a block: its first slots of the stack as it
/// was then, each standing for itself.
pub open spec fn entry_stack() -> StackModel {
    StackModel { stack: Seq::new(ENTRY_SLOTS as nat, |i: int| entry_ref(i)), pops: 0 }
}

impl StackModel {
    /// The offset, on the stack as it was on entry, of what lies `depth` slots
    /// below the bottom of the abstract stack.
    pub open spec fn below(self, depth: int) -> int {
        depth + ENTRY_SLOTS + self.pops
    }

    /// The operand at `pos` from the top: of the abstract stack, or of the
    /// entry stack below it.
    pub open spec fn peek(self, pos: int) -> Operand {
        if pos < self.stack.len() {
            self.stack[pos]
        } else {
            entry_ref(self.below(pos - self.stack.len()))
        }
    }

    /// The stack with one more operand on top.
    pub open spec fn push(self, operand: Operand) -> StackModel {
        StackModel { stack: seq![operand] + self.stack, pops: self.pops }
    }

    /// The stack with the given operands pushed one after the other, so that
    /// the last of them ends on top.
    pub open spec fn push_all(self, operands: Seq<Operand>) -> StackModel {
        StackModel { stack: operands.reverse() + self.stack, pops: self.pops }
    }

    /// The `count` operands that an instruction takes off the stack, in the
    /// order in which it takes them.
    pub open spec fn taken(self, count: nat) -> Seq<Operand> {
        Seq::new(count, |j: int| self.peek(j))
    }

    /// The stack after an instruction took `count` operands off it: what the
    /// abstract stack cannot supply is taken from the entry stack below it.
    pub open spec fn take(self, count: nat) -> StackModel {
        if count <= self.stack.len() {
            StackModel { stack: self.stack.skip(count as int), pops: self.pops }
        } else {
            StackModel { stack: Seq::empty(), pops: self.pops + count - self.stack.len() }
        }
    }

    /// The stack after `SWAP` with position `pos`.
    pub open spec fn swap(self, pos: int) -> StackModel {
        if self.stack.len() == 0 {
            self
        } else if pos >= self.stack.len() {
            StackModel { stack: seq![self.peek(pos)] + self.stack.skip(1), pops: self.pops }
        } else {
            StackModel {
                stack: self.stack.update(0, self.stack[pos]).update(pos, self.stack[0]),
                pops: self.pops,
            }
        }
    }

    /// The stack after the instruction `inst`, number `idx` of its block.
    ///
    /// - An instruction that pushes a constant pushes the constant it carries.
    /// - `DUP` pushes the operand it finds at its position.
    /// - `SWAP` exchanges the top with the operand at its position; below the
    ///   abstract stack only the top is replaced, and on an empty abstract
    ///   stack nothing is.
    /// - `POP` takes one operand; `JUMPDEST` does nothing.
    /// - Any other instruction takes its operands and pushes what evaluating
    ///   it gives.
    /// - A byte that is no opcode leaves the stack as it is.
    pub open spec fn step(self, idx: usize, inst: IInstructionView) -> StackModel {
        match inst.opcode {
            Err(_) => self,
            Ok(op) => if op.spec_pushes_constant() {
                self.push(Operand::Constant((idx, inst.value->Some_0[0])))
            } else if op.spec_dup_position() is Some {
                self.push(self.peek(op.spec_dup_position()->Some_0 as int))
            } else if op.spec_swap_position() is Some {
                self.swap(op.spec_swap_position()->Some_0 as int)
            } else if op == Instruction::POP {
                self.take(1)
            } else if op == Instruction::JUMPDEST {
                self
            } else {
                let args = self.taken(op.spec_info().args as nat);
                self.take(op.spec_info().args as nat).push_all(
                    spec_evaluate_opcode(op, idx, args).0,
                )
            },
        }
    }

    /// What the emulation records of the instruction `inst`, number `idx` of
    /// its block, when it meets it with this stack.
    ///
    /// - An instruction that pushes a constant, `POP` and `JUMPDEST` need no
    ///   code; `POP` loses its operands.
    /// - `DUP` needs no code, has the operand it copies as its operand, and
    ///   carries its value where that is a constant.
    /// - `SWAP` has the two operands it exchanges as its operands, and needs
    ///   code only where one of them lies below the abstract stack.
    /// - Any other instruction has the operands it takes as its operands;
    ///   where evaluating it gives known operands it needs no code and carries
    ///   the constants among them.
    pub open spec fn annotate(self, idx: usize, inst: IInstructionView) -> IInstructionView {
        match inst.opcode {
            Err(_) => inst,
            Ok(op) => if op.spec_pushes_constant() {
                IInstructionView { ignoreable: true, ..inst }
            } else if op.spec_dup_position() is Some {
                let x = self.peek(op.spec_dup_position()->Some_0 as int);
                if x is Constant {
                    IInstructionView {
                        ignoreable: true,
                        operands: Some(seq![x]),
                        is_constant: true,
                        value: Some(seq![x.constant_value()]),
                        ..inst
                    }
                } else {
                    IInstructionView { ignoreable: true, operands: Some(seq![x]), ..inst }
                }
            } else if op.spec_swap_position() is Some {
                let pos = op.spec_swap_position()->Some_0 as int;
                IInstructionView {
                    ignoreable: 0 < self.stack.len() && pos < self.stack.len(),
                    operands: Some(seq![self.peek(0), self.peek(pos)]),
                    ..inst
                }
            } else if op == Instruction::POP {
                IInstructionView { ignoreable: true, operands: None, ..inst }
            } else if op == Instruction::JUMPDEST {
                IInstructionView { ignoreable: true, ..inst }
            } else {
                let args = self.taken(op.spec_info().args as nat);
                let evaluated = spec_evaluate_opcode(op, idx, args);
                let operands = if args.len() > 0 {
                    Some(args)
                } else {
                    inst.operands
                };
                if evaluated.1 {
                    IInstructionView {
                        is_constant: true,
                        value: Some(constants_among(evaluated.0)),
                        ignoreable: true,
                        operands,
                        ..inst
                    }
                } else {
                    IInstructionView { operands, ..inst }
                }
            },
        }
    }

    /// The values that the block leaves on the stack beyond what it found
    /// there, the top first; none where it leaves no more than it found.
    pub open spec fn surplus(self) -> Option<Seq<Operand>> {
        if self.stack.len() > ENTRY_SLOTS {
            Some(self.stack.subrange(0, self.stack.len() - ENTRY_SLOTS))
        } else {
            None
        }
    }

    /// What is left, at the end of the block, of the slots that the abstract
    /// stack started with, the top first.
    pub open spec fn remainder(self) -> Seq<Operand> {
        if self.stack.len() > ENTRY_SLOTS {
            self.stack.skip(self.stack.len() - ENTRY_SLOTS)
        } else {
            self.stack
        }
    }

    /// How many of the slots that the abstract stack started with are gone at
    /// the end of the block.
    pub open spec fn deficit(self) -> int {
        if self.stack.len() < ENTRY_SLOTS {
            ENTRY_SLOTS - self.stack.len()
        } else {
            0
        }
    }

    /// How many entry slots the block removes in all.
    pub open spec fn final_pops(self) -> int {
        self.pops + self.deficit()
    }

    /// Whether the block overwrites the entry slot that ends at `offset` from
    /// the top of what is left: the slot holds something other than the entry
    /// slot of that offset.
    pub open spec fn writes(self, offset: int) -> bool {
        let i = offset - self.deficit();
        0 <= i < self.remainder().len() && self.remainder()[i] != entry_ref(offset)
    }

    /// The stack slots that the block overwrites, added to those already
    /// recorded.
    pub open spec fn final_stack_sets(self, recorded: Map<usize, Operand>) -> Map<usize, Operand> {
        Map::new(
            |k: usize| recorded.contains_key(k) || self.writes(k as int),
            |k: usize|
                if self.writes(k as int) {
                    self.remainder()[k - self.deficit()]
                } else {
                    recorded[k]
                },
        )
    }
}

/// The values of the constants among the operands, in order.
pub open spec fn constants_among(operands: Seq<Operand>) -> Seq<Word>
    decreases operands.len(),
{
    if operands.len() == 0 {
        Seq::empty()
    } else if operands.last() is Constant {
        constants_among(operands.drop_last()).push(operands.last().constant_value())
    } else {
        constants_among(operands.drop_last())
    }
}

/// The abstract stack before instruction `n` of the block, and after the last
/// where `n` is the number of instructions.
pub open spec fn stack_before(instructions: Seq<IInstructionView>, n: int) -> StackModel
    decreases n,
{
    if n <= 0 {
        entry_stack()
    } else {
        stack_before(instructions, n - 1).step((n - 1) as usize, instructions[n - 1])
    }
}

/// Whether every instruction of the sequence is an opcode.
pub open spec fn all_decodable(instructions: Seq<IInstructionView>) -> bool {
    forall|i: int| 0 <= i < instructions.len() ==> (#[trigger] instructions[i]).opcode is Ok
}

impl BasicBlockView {
    /// Whether the block can be optimized: each of its instructions that push
    /// a constant carries the constant, and the block is short enough for its
    /// stack offsets to be machine integers.
    pub open spec fn optimizable(self) -> bool {
        &&& 7 * self.instructions.len() + 64 <= usize::MAX
        &&& forall|i: int|
            0 <= i < self.instructions.len() ==> carries_constant(#[trigger] self.instructions[i])
    }

    /// The block after the emulation of all its instructions.
    pub open spec fn emulated(self) -> BasicBlockView {
        let last = stack_before(self.instructions, self.instructions.len() as int);
        BasicBlockView {
            instructions: Seq::new(
                self.instructions.len(),
                |i: int| stack_before(self.instructions, i).annotate(i as usize, self.instructions[i]),
            ),
            returns: match last.surplus() {
                Some(surplus) => surplus,
                None => self.returns,
            },
            stack_sets: last.final_stack_sets(self.stack_sets),
            pops_at_end: last.final_pops() as usize,
            optimized: true,
            ..self
        }
    }

    /// The block after optimization. A block that is optimized already stays
    /// as it is; a block with a byte that is no opcode is only marked as
    /// optimized; any other block is emulated.
    pub open spec fn optimize(self) -> BasicBlockView {
        if self.optimized {
            self
        } else if !all_decodable(self.instructions) {
            BasicBlockView { optimized: true, ..self }
        } else {
            self.emulated()
        }
    }
}

/// `VecDeque::swap`: exchanges the items at two positions, position 0 being
/// the front. It panics on a position that is out of bounds.
#[verifier::external_body]
fn swap_items(stack: &mut VecDeque<Operand>, i: usize, j: usize)
    requires
        i < old(stack)@.len(),
        j < old(stack)@.len(),
    ensures
        final(stack)@ == old(stack)@.update(i as int, old(stack)@[j as int]).update(
            j as int,
            old(stack)@[i as int],
        ),
{
    stack.swap(i, j)
}

/// Records that the block writes `operand` to the entry slot at `offset`.
fn record_stack_set(sets: &mut BTreeMap<usize, Operand>, offset: usize, operand: Operand)
    ensures
        final(sets)@ == old(sets)@.insert(offset, operand),
{
    broadcast use vstd::laws_cmp::group_laws_cmp;

    sets.insert(offset, operand);
}

/// The constants among the operands.
fn constants_of(operands: &Vec<Operand>) -> (r: Vec<Word>)
    ensures
        r@ == constants_among(operands@),
{
    let mut r: Vec<Word> = Vec::new();
    let mut i: usize = 0;
    while i < operands.len()
        invariant
            i <= operands.len(),
            r@ == constants_among(operands@.subrange(0, i as int)),
        decreases operands.len() - i,
    {
        proof {
            let next = operands@.subrange(0, i + 1);
            assert(next.drop_last() =~= operands@.subrange(0, i as int));
        }
        if let Operand::Constant((_, v)) = operands[i] {
            r.push(v);
        }
        i += 1;
    }
    assert(operands@.subrange(0, i as int) =~= operands@);
    r
}

/// Emulates an instruction that pushes the constant it carries.
fn emulate_push(stack: &mut VecDeque<Operand>, pops: usize, idx: usize, inst: &mut IInstruction)
    requires
        old(inst)@.opcode matches Ok(op) && op.spec_pushes_constant(),
        carries_constant(old(inst)@),
    ensures
        final(stack)@ == (StackModel { stack: old(stack)@, pops: pops as int }).step(
            idx,
            old(inst)@,
        ).stack,
        final(inst)@ == (StackModel { stack: old(stack)@, pops: pops as int }).annotate(
            idx,
            old(inst)@,
        ),
{
    inst.ignoreable = true;
    match &inst.value {
        Some(value_vec) => {
            let v = value_vec[0];
            stack.push_front(Operand::Constant((idx, v)));
        },
        None => {},
    }
}

/// Emulates `DUP` with position `pos`.
fn emulate_dup(
    stack: &mut VecDeque<Operand>,
    pops: usize,
    idx: usize,
    pos: usize,
    inst: &mut IInstruction,
)
    requires
        old(inst)@.opcode matches Ok(op) && !op.spec_pushes_constant() && op.spec_dup_position()
            == Some(pos),
        pops + 64 <= usize::MAX,
    ensures
        final(stack)@ == (StackModel { stack: old(stack)@, pops: pops as int }).step(
            idx,
            old(inst)@,
        ).stack,
        final(inst)@ == (StackModel { stack: old(stack)@, pops: pops as int }).annotate(
            idx,
            old(inst)@,
        ),
{
    // a DUP never needs code of its own
    inst.ignoreable = true;
    let stack_len = stack.len();
    if pos < stack_len {
        // the slot lies on the abstract stack
        let x = stack[pos];
        if let Operand::Constant((_, v)) = x {
            inst.is_constant = true;
            inst.value = Some(vec![v]);
        }
        inst.operands = Some(vec![x]);
        stack.push_front(x);
        proof {
            assert(inst@.operands->Some_0 =~= seq![x]);
            if x is Constant {
                assert(inst@.value->Some_0 =~= seq![x.constant_value()]);
            }
        }
    } else {
        // the slot was there before the block
        let pos_at_bb_start = pos - stack_len + ENTRY_SLOTS + pops;
        let a = Operand::StackRef((0, pos_at_bb_start));
        inst.operands = Some(vec![a]);
        stack.push_front(a);
        proof {
            assert(inst@.operands->Some_0 =~= seq![a]);
        }
    }
}

/// Emulates `SWAP` with position `pos`.
fn emulate_swap(
    stack: &mut VecDeque<Operand>,
    pops: usize,
    idx: usize,
    pos: usize,
    inst: &mut IInstruction,
)
    requires
        old(inst)@.opcode matches Ok(op) && !op.spec_pushes_constant() && op.spec_dup_position()
            is None && op.spec_swap_position() == Some(pos),
        pops + 64 <= usize::MAX,
    ensures
        final(stack)@ == (StackModel { stack: old(stack)@, pops: pops as int }).step(
            idx,
            old(inst)@,
        ).stack,
        final(inst)@ == (StackModel { stack: old(stack)@, pops: pops as int }).annotate(
            idx,
            old(inst)@,
        ),
{
    let stack_len = stack.len();
    if stack_len == 0 {
        // both slots were there before the block
        inst.ignoreable = false;
        inst.operands = Some(
            vec![
                Operand::StackRef((0, 0 + pops + ENTRY_SLOTS)),
                Operand::StackRef((0, pos + pops + ENTRY_SLOTS)),
            ],
        );
    } else if pos >= stack_len {
        // the top is known, the other slot was there before the block
        inst.ignoreable = false;
        let pos_at_bb_start = pos - stack_len + ENTRY_SLOTS + pops;
        let top = stack[0];
        stack.pop_front();
        inst.operands = Some(vec![top, Operand::StackRef((0, pos_at_bb_start))]);
        stack.push_front(Operand::StackRef((0, pos_at_bb_start)));
    } else {
        // both slots lie on the abstract stack
        inst.ignoreable = true;
        inst.operands = Some(vec![stack[0], stack[pos]]);
        swap_items(stack, 0, pos);
    }
}

/// Emulates an instruction that is no stack instruction: takes its operands
/// off the stack, evaluates it and pushes what that gives.
fn emulate_other(
    stack: &mut VecDeque<Operand>,
    pops: &mut usize,
    idx: usize,
    evm_inst: Instruction,
    inst: &mut IInstruction,
)
    requires
        old(inst)@.opcode == Ok::<Instruction, u8>(evm_inst),
        !evm_inst.spec_pushes_constant(),
        evm_inst.spec_dup_position() is None,
        evm_inst.spec_swap_position() is None,
        evm_inst != Instruction::POP,
        evm_inst != Instruction::JUMPDEST,
        *old(pops) + 64 <= usize::MAX,
    ensures
        (StackModel { stack: final(stack)@, pops: *final(pops) as int }) == (StackModel {
            stack: old(stack)@,
            pops: *old(pops) as int,
        }).step(idx, old(inst)@),
        final(inst)@ == (StackModel { stack: old(stack)@, pops: *old(pops) as int }).annotate(
            idx,
            old(inst)@,
        ),
{
    let ghost model = StackModel { stack: stack@, pops: *pops as int };
    let evm_iinfo = evm_inst.info();
    let mut args: Vec<Operand> = Vec::new();
    let cur_pops_at_end = *pops;
    let cur_stack_len = stack.len();
    let mut args_idx: usize = 0;
    proof {
        assert(args@ =~= model.taken(0));
        assert(stack@ =~= model.take(0).stack);
    }
    while args_idx < evm_iinfo.args
        invariant
            args_idx <= evm_iinfo.args <= 7,
            evm_iinfo == evm_inst.spec_info(),
            cur_stack_len == model.stack.len(),
            cur_pops_at_end == model.pops,
            cur_pops_at_end + 64 <= usize::MAX,
            args@ == model.taken(args_idx as nat),
            (StackModel { stack: stack@, pops: *pops as int }) == model.take(args_idx as nat),
        decreases evm_iinfo.args - args_idx,
    {
        let ghost before = stack@;
        if let Some(val) = stack.pop_front() {
            args.push(val);
        } else {
            // the operand was there before the block
            let pos_at_bb_start = args_idx + cur_pops_at_end - cur_stack_len + ENTRY_SLOTS;
            args.push(Operand::StackRef((0, pos_at_bb_start)));
            *pops += 1;
        }
        args_idx += 1;
        proof {
            assert(args@ =~= model.taken(args_idx as nat));
            assert(stack@ =~= model.take(args_idx as nat).stack);
        }
    }
    let (vvec, evals_to_constant) = evaluate_opcode(evm_inst, idx, &args);
    if evals_to_constant {
        inst.is_constant = true;
        inst.value = Some(constants_of(&vvec));
        inst.ignoreable = true;
    }
    let ghost taken = stack@;
    let mut i: usize = 0;
    while i < vvec.len()
        invariant
            i <= vvec.len(),
            stack@ == vvec@.subrange(0, i as int).reverse() + taken,
        decreases vvec.len() - i,
    {
        stack.push_front(vvec[i]);
        i += 1;
        proof {
            assert(stack@ =~= vvec@.subrange(0, i as int).reverse() + taken);
        }
    }
    assert(vvec@.subrange(0, i as int) =~= vvec@);
    if args.len() > 0 {
        inst.operands = Some(args);
    }
}

/// Emulates one instruction on the abstract stack and records on the
/// instruction what the emulation finds.
fn emulate_instruction(
    stack: &mut VecDeque<Operand>,
    pops: &mut usize,
    idx: usize,
    evm_inst: Instruction,
    inst: &mut IInstruction,
)
    requires
        old(inst)@.opcode == Ok::<Instruction, u8>(evm_inst),
        carries_constant(old(inst)@),
        *old(pops) + 64 <= usize::MAX,
    ensures
        (StackModel { stack: final(stack)@, pops: *final(pops) as int }) == (StackModel {
            stack: old(stack)@,
            pops: *old(pops) as int,
        }).step(idx, old(inst)@),
        final(inst)@ == (StackModel { stack: old(stack)@, pops: *old(pops) as int }).annotate(
            idx,
            old(inst)@,
        ),
        *old(pops) <= *final(pops) <= *old(pops) + 7,
{
    let ghost model = StackModel { stack: stack@, pops: *pops as int };
    if evm_inst.pushes_constant() {
        emulate_push(stack, *pops, idx, inst);
    } else if let Some(pos) = evm_inst.dup_position() {
        emulate_dup(stack, *pops, idx, pos, inst);
    } else if let Some(pos) = evm_inst.swap_position() {
        emulate_swap(stack, *pops, idx, pos, inst);
    } else if evm_inst == Instruction::POP {
        // a POP never needs code of its own
        inst.ignoreable = true;
        if stack.len() > 0 {
            stack.pop_front();
            assert(stack@ =~= model.take(1).stack);
        } else {
            // the block removes a slot that was there before it
            *pops += 1;
            assert(stack@ =~= model.take(1).stack);
        }
        inst.operands = None;
    } else if evm_inst == Instruction::JUMPDEST {
        inst.ignoreable = true;
    } else {
        emulate_other(stack, pops, idx, evm_inst, inst);
    }
}

impl BasicBlock {
    /// Emulates the block on an abstract stack. Records on each instruction its
    /// operands and what is known of it, and on the block the entry slots it
    /// removes and overwrites. Returns the values that the block leaves on the
    /// stack beyond what it found there, if there are any.
    ///
    /// A block with a byte that is no opcode is not emulated: nothing changes.
    pub fn emulate_bb(&mut self) -> (r: Option<Vec<Operand>>)
        requires
            old(self)@.optimizable(),
        ensures
            !all_decodable(old(self)@.instructions) ==> r is None && final(self)@ == old(self)@,
            all_decodable(old(self)@.instructions) ==> final(self)@ == (BasicBlockView {
                returns: old(self)@.returns,
                optimized: old(self)@.optimized,
                ..old(self)@.emulated()
            }) && (match r {
                Some(surplus) => Some(surplus@),
                None => None,
            }) == stack_before(
                old(self)@.instructions,
                old(self)@.instructions.len() as int,
            ).surplus(),
    {
        let ghost orig = self@.instructions;
        let n = self.instructions.len();
        let mut k: usize = 0;
        while k < n
            invariant
                k <= n,
                n == self.instructions@.len(),
                *self == *old(self),
                orig == self@.instructions,
                forall|j: int| 0 <= j < k ==> (#[trigger] orig[j]).opcode is Ok,
            decreases n - k,
        {
            if self.instructions[k].opcode.is_err() {
                // only blocks of opcodes are optimized
                assert(orig[k as int].opcode is Err);
                return None;
            }
            k += 1;
        }

        // the abstract stack, its top at the front; it starts with the slots
        // that were there before the block, each standing for itself
        let mut evm_stack: VecDeque<Operand> = VecDeque::with_capacity(128);
        let mut i: usize = 0;
        while i < ENTRY_SLOTS
            invariant
                i <= ENTRY_SLOTS,
                evm_stack@ == Seq::new(i as nat, |j: int| entry_ref(j)),
            decreases ENTRY_SLOTS - i,
        {
            evm_stack.push_back(Operand::StackRef((0, i)));
            i += 1;
        }
        let evm_stack_initial_len = evm_stack.len();
        self.pops_at_end = 0;

        let mut idx: usize = 0;
        while idx < n
            invariant
                idx <= n,
                n == self.instructions@.len(),
                n == orig.len(),
                orig == old(self)@.instructions,
                old(self)@.optimizable(),
                all_decodable(orig),
                self.address == old(self).address,
                self.returns == old(self).returns,
                self.stack_sets == old(self).stack_sets,
                self.optimized == old(self).optimized,
                self.ends_on_invalid == old(self).ends_on_invalid,
                forall|j: int|
                    0 <= j < idx ==> (#[trigger] self.instructions@[j])@ == stack_before(
                        orig,
                        j,
                    ).annotate(j as usize, orig[j]),
                forall|j: int| idx <= j < n ==> (#[trigger] self.instructions@[j])@ == orig[j],
                (StackModel { stack: evm_stack@, pops: self.pops_at_end as int }) == stack_before(
                    orig,
                    idx as int,
                ),
                self.pops_at_end <= 7 * idx,
            decreases n - idx,
        {
            let mut inst = self.instructions[idx].clone();
            let mut pops = self.pops_at_end;
            match inst.opcode {
                Ok(evm_inst) => {
                    assert(carries_constant(orig[idx as int]));
                    emulate_instruction(&mut evm_stack, &mut pops, idx, evm_inst, &mut inst);
                },
                Err(_) => {
                    assert(orig[idx as int].opcode is Ok);
                },
            }
            self.pops_at_end = pops;
            self.instructions.set(idx, inst);
            idx += 1;
        }

        // what the block leaves on the stack beyond what it found there
        let ghost last = stack_before(orig, n as int);
        let stack_len = evm_stack.len();
        let mut offset: usize = 0;
        let mut skipped: usize = 0;
        let surplus = if stack_len > evm_stack_initial_len {
            let new_stack_slots_count = stack_len - evm_stack_initial_len;
            let mut r: Vec<Operand> = Vec::new();
            while skipped < new_stack_slots_count
                invariant
                    skipped <= new_stack_slots_count <= evm_stack@.len(),
                    r@ == evm_stack@.subrange(0, skipped as int),
                decreases new_stack_slots_count - skipped,
            {
                r.push(evm_stack[skipped]);
                skipped += 1;
            }
            Some(r)
        } else if stack_len < evm_stack_initial_len {
            // the block removes more than it pushes
            offset = evm_stack_initial_len - stack_len;
            self.pops_at_end += offset;
            None
        } else {
            None
        };

        // what the block writes to the slots that were there before it
        let ghost recorded = self.stack_sets@;
        let ghost emulated_instructions = self.instructions;
        let ghost final_pops = self.pops_at_end;
        let mut position: usize = 0;
        while skipped + position < stack_len
            invariant
                stack_len == evm_stack@.len(),
                evm_stack@ == last.stack,
                skipped + last.remainder().len() == stack_len,
                last.remainder().len() <= ENTRY_SLOTS,
                offset == last.deficit(),
                position <= last.remainder().len(),
                self.address == old(self).address,
                self.instructions == emulated_instructions,
                self.returns == old(self).returns,
                self.pops_at_end == final_pops,
                self.optimized == old(self).optimized,
                self.ends_on_invalid == old(self).ends_on_invalid,
                self.stack_sets@ == Map::new(
                    |key: usize|
                        recorded.contains_key(key) || (last.writes(key as int) && key < offset
                            + position),
                    |key: usize|
                        if last.writes(key as int) && key < offset + position {
                            last.remainder()[key - last.deficit()]
                        } else {
                            recorded[key]
                        },
                ),
            decreases stack_len - skipped - position,
        {
            let stack_item = evm_stack[skipped + position];
            let slot = position + offset;
            if stack_item != Operand::StackRef((0, slot)) {
                record_stack_set(&mut self.stack_sets, slot, stack_item);
            }
            position += 1;
        }
        proof {
            let spec = old(self)@.emulated();
            assert(self@.instructions =~= spec.instructions);
            assert(self.pops_at_end == last.final_pops());
            assert(self@.stack_sets =~= spec.stack_sets);
            assert(self@.pops_at_end == spec.pops_at_end);
            if surplus is Some {
                assert(last.surplus() == Some(surplus->Some_0@));
            } else {
                assert(last.surplus() is None);
            }
        }
        surplus
    }

    /// Optimizes the block: emulates it on an abstract stack, unless it has a
    /// byte that is no opcode, and marks it as optimized. A block that is
    /// optimized already stays as it is.
    pub fn optimize(&mut self)
        requires
            old(self)@.optimized || old(self)@.optimizable(),
        ensures
            final(self)@ == old(self)@.optimize(),
    {
        if self.optimized {
            return ;
        }
        self.optimized = true;
        if let Some(stack_remainder) = self.emulate_bb() {
            self.returns = stack_remainder;
        }
    }
}

} // verus!
