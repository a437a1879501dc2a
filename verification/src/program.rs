//! Whole programs: the code of a contract, its metadata and its basic blocks.

use crate::block::block_instructions;
use crate::block::instruction_end;
use crate::block::lemma_block_instructions;
use crate::block::lemma_instruction_at;
use crate::block::lemma_parsed_block;
use crate::block::next_pc;
use crate::block::parsed_block;
use crate::block::BasicBlock;
use crate::block::BasicBlockView;
use crate::codemeta::code_meta_of;
use crate::codemeta::is_instruction_at;
use crate::codemeta::lemma_scan_resumes;
use crate::codemeta::scan_reaches;
use crate::codemeta::max_bits;
use crate::codemeta::CodeMeta;
use crate::codemeta::CodeMetaView;
use vstd::prelude::*;
use vstd::slice::slice_to_vec;

verus! {

/// The code of a contract with what the analysis finds in it.
#[derive(Debug)]
pub struct Program {
    /// The code.
    pub bytecode: Vec<u8>,
    /// The basic blocks of the code, in the order of their addresses.
    pub basic_blocks: Vec<BasicBlock>,
    /// Which bytes of the code are instructions and jump destinations.
    pub meta: CodeMeta,
}

/// The mathematical content of a [`Program`].
pub struct ProgramView {
    pub bytecode: Seq<u8>,
    pub basic_blocks: Seq<BasicBlockView>,
    pub meta: CodeMetaView,
}

/// The views of a sequence of basic blocks.
pub open spec fn block_views(blocks: Seq<BasicBlock>) -> Seq<BasicBlockView> {
    Seq::new(blocks.len(), |i: int| blocks[i]@)
}

impl View for Program {
    type V = ProgramView;

    open spec fn view(&self) -> ProgramView {
        ProgramView {
            bytecode: self.bytecode@,
            basic_blocks: block_views(self.basic_blocks@),
            meta: self.meta@,
        }
    }
}

/// The basic blocks of the code from `index` on, before optimization, where
/// the first instruction at `index` is number `global_idx` of the program: the
/// block that starts at `index`, then the blocks from its end on.
pub open spec fn program_blocks(code: Seq<u8>, index: int, global_idx: int) -> Seq<BasicBlockView>
    decreases code.len() - index,
{
    if index < 0 || index >= code.len() {
        Seq::empty()
    } else {
        let block = parsed_block(code, index, global_idx);
        if block.end() <= index || block.end() >= code.len() {
            seq![block]
        } else {
            seq![block] + program_blocks(
                code,
                block.end(),
                global_idx + block.instructions.len(),
            )
        }
    }
}

/// The program of a contract's code, before optimization.
pub open spec fn program_of(code: Seq<u8>) -> ProgramView {
    ProgramView {
        bytecode: code,
        basic_blocks: program_blocks(code, 0, 0),
        meta: code_meta_of(code),
    }
}

/// The blocks of the code from `index` on lie one behind the other: the first
/// starts at `index`, each of the others where the one before it ends, and the
/// last ends at the end of the code or, with the immediate bytes of a `PUSH`
/// that the code lacks, behind it. The numbers of their instructions in the
/// program follow one another.
pub proof fn lemma_program_blocks(code: Seq<u8>, index: int, global_idx: int)
    requires
        0 <= index < code.len(),
        code.len() <= max_bits(),
        0 <= global_idx <= index,
    ensures
        ({
            let blocks = program_blocks(code, index, global_idx);
            &&& blocks.len() >= 1
            &&& blocks[0] == parsed_block(code, index, global_idx)
            &&& forall|k: int|
                0 <= k < blocks.len() ==> {
                    let block = #[trigger] blocks[k];
                    &&& block.instructions.len() >= 1
                    &&& index <= block.address < block.end()
                    &&& block.address < code.len()
                    &&& block.instructions == block_instructions(
                        code,
                        block.address as int,
                        block.instructions[0].global_idx as int,
                        0,
                    )
                    &&& block.instructions[0].global_idx <= block.address
                    &&& global_idx <= block.instructions[0].global_idx
                }
            &&& forall|i: int, k: int|
                0 <= i && k == i + 1 && k < blocks.len() ==> {
                    &&& (#[trigger] blocks[k]).address == (#[trigger] blocks[i]).end()
                    &&& blocks[k].instructions[0].global_idx == blocks[i].instructions[0].global_idx
                        + blocks[i].instructions.len()
                }
            &&& forall|i: int, k: int|
                0 <= i < k < blocks.len() ==> (#[trigger] blocks[i]).end() <= (
                #[trigger] blocks[k]).address
            &&& blocks.last().end() >= code.len()
        }),
    decreases code.len() - index,
{
    let blocks = program_blocks(code, index, global_idx);
    let first = parsed_block(code, index, global_idx);
    lemma_parsed_block(code, index, global_idx);
    lemma_block_instructions(code, index, global_idx, 0);
    lemma_instruction_at(code, index, global_idx, 0);
    if first.end() >= code.len() {
        assert(blocks =~= seq![first]);
    } else {
        let next_idx = global_idx + first.instructions.len();
        let rest = program_blocks(code, first.end(), next_idx);
        lemma_program_blocks(code, first.end(), next_idx);
        lemma_instruction_at(code, first.end(), next_idx, 0);
        assert(blocks =~= seq![first] + rest);
        assert forall|k: int| 0 <= k < blocks.len() implies {
            let block = #[trigger] blocks[k];
            &&& block.instructions.len() >= 1
            &&& index <= block.address < block.end()
            &&& block.address < code.len()
            &&& block.instructions == block_instructions(
                code,
                block.address as int,
                block.instructions[0].global_idx as int,
                0,
            )
            &&& block.instructions[0].global_idx <= block.address
            &&& global_idx <= block.instructions[0].global_idx
        } by {
            if k > 0 {
                assert(blocks[k] == rest[k - 1]);
            }
        }
        assert forall|i: int, k: int| 0 <= i && k == i + 1 && k < blocks.len() implies {
            &&& (#[trigger] blocks[k]).address == (#[trigger] blocks[i]).end()
            &&& blocks[k].instructions[0].global_idx == blocks[i].instructions[0].global_idx
                + blocks[i].instructions.len()
        } by {
            assert(blocks[k] == rest[k - 1]);
            if i > 0 {
                assert(blocks[i] == rest[i - 1]);
            }
        }
        assert forall|i: int, k: int| 0 <= i < k < blocks.len() implies (#[trigger] blocks[i]).end()
            <= (#[trigger] blocks[k]).address by {
            assert(blocks[k] == rest[k - 1]);
            if i > 0 {
                assert(blocks[i] == rest[i - 1]);
            }
        }
        assert(blocks.last() == rest.last());
    }
}

/// The basic blocks tile the code. The code has blocks exactly if it has
/// bytes; the first block starts at offset 0, each of the others where the one
/// before it ends, and the last ends at the end of the code or, with the
/// immediate bytes of a `PUSH` that the code lacks, behind it. Every block has
/// an instruction; its instructions lie within it, each where the one before
/// it ends. So the addresses of the instructions of the program, block after
/// block, increase strictly, and their numbers in the program count up from 0.
pub proof fn lemma_blocks_tile(code: Seq<u8>)
    requires
        code.len() <= max_bits(),
    ensures
        ({
            let blocks = program_blocks(code, 0, 0);
            &&& blocks.len() == 0 <==> code.len() == 0
            &&& blocks.len() > 0 ==> blocks[0].address == 0 && blocks[0].instructions[0].global_idx
                == 0 && blocks.last().end() >= code.len()
            &&& forall|i: int, k: int|
                0 <= i && k == i + 1 && k < blocks.len() ==> {
                    &&& (#[trigger] blocks[k]).address == (#[trigger] blocks[i]).end()
                    &&& blocks[k].instructions[0].global_idx == blocks[i].instructions.last().global_idx
                        + 1
                }
            &&& forall|k: int, j: int|
                0 <= k < blocks.len() && 0 <= j < blocks[k].instructions.len() ==> {
                    let inst = #[trigger] blocks[k].instructions[j];
                    &&& blocks[k].instructions[0].address == blocks[k].address
                    &&& blocks[k].address <= inst.address < code.len()
                    &&& inst.address < instruction_end(inst) <= blocks[k].end()
                    &&& inst.global_idx == blocks[k].instructions[0].global_idx + j
                    &&& j > 0 ==> inst.address == instruction_end(blocks[k].instructions[j - 1])
                }
            &&& forall|k1: int, j1: int, k2: int, j2: int|
                0 <= k1 < blocks.len() && 0 <= j1 < blocks[k1].instructions.len() && 0 <= k2
                    < blocks.len() && 0 <= j2 < blocks[k2].instructions.len() && (k1 < k2 || (k1
                    == k2 && j1 < j2)) ==> (#[trigger] blocks[k1].instructions[j1]).address < (
                #[trigger] blocks[k2].instructions[j2]).address
        }),
{
    let blocks = program_blocks(code, 0, 0);
    if code.len() > 0 {
        lemma_program_blocks(code, 0, 0);
        assert forall|k: int, j: int|
            0 <= k < blocks.len() && 0 <= j < blocks[k].instructions.len() implies {
            let inst = #[trigger] blocks[k].instructions[j];
            &&& blocks[k].instructions[0].address == blocks[k].address
            &&& blocks[k].address <= inst.address < code.len()
            &&& inst.address < instruction_end(inst) <= blocks[k].end()
            &&& inst.global_idx == blocks[k].instructions[0].global_idx + j
            &&& j > 0 ==> inst.address == instruction_end(blocks[k].instructions[j - 1])
        } by {
            lemma_block_shape(code, blocks[k], j);
        }
        assert forall|i: int, k: int| 0 <= i && k == i + 1 && k < blocks.len() implies {
            &&& (#[trigger] blocks[k]).address == (#[trigger] blocks[i]).end()
            &&& blocks[k].instructions[0].global_idx == blocks[i].instructions.last().global_idx + 1
        } by {
            lemma_block_shape(code, blocks[i], blocks[i].instructions.len() - 1);
        }
        assert forall|k1: int, j1: int, k2: int, j2: int|
            0 <= k1 < blocks.len() && 0 <= j1 < blocks[k1].instructions.len() && 0 <= k2
                < blocks.len() && 0 <= j2 < blocks[k2].instructions.len() && (k1 < k2 || (k1 == k2
                && j1 < j2)) implies (#[trigger] blocks[k1].instructions[j1]).address < (
        #[trigger] blocks[k2].instructions[j2]).address by {
            lemma_block_shape(code, blocks[k1], j1);
            lemma_block_shape(code, blocks[k2], j2);
            if k1 < k2 {
                assert(blocks[k1].end() <= blocks[k2].address);
            } else {
                lemma_block_order(code, blocks[k1], j1, j2);
            }
        }
    }
}

/// Where instruction `j` of a block that was read from the code lies.
proof fn lemma_block_shape(code: Seq<u8>, block: BasicBlockView, j: int)
    requires
        code.len() <= max_bits(),
        block.instructions.len() >= 1,
        block.address < code.len(),
        block.instructions[0].global_idx <= block.address,
        block.instructions == block_instructions(
            code,
            block.address as int,
            block.instructions[0].global_idx as int,
            0,
        ),
        0 <= j < block.instructions.len(),
    ensures
        ({
            let inst = block.instructions[j];
            &&& block.instructions[0].address == block.address
            &&& block.address <= inst.address < code.len()
            &&& inst.address < instruction_end(inst) <= block.end()
            &&& instruction_end(inst) == next_pc(code, inst.address as int)
            &&& inst.global_idx == block.instructions[0].global_idx + j
            &&& j > 0 ==> inst.address == instruction_end(block.instructions[j - 1])
        }),
{
    let first_idx = block.instructions[0].global_idx as int;
    lemma_block_instructions(code, block.address as int, first_idx, 0);
    let is = block.instructions;
    lemma_instruction_at(code, is[j].address as int, first_idx + j, j);
    lemma_instruction_at(code, is.last().address as int, first_idx + is.len() - 1, is.len() - 1);
    if j > 0 {
        lemma_instruction_at(code, is[j - 1].address as int, first_idx + j - 1, j - 1);
        assert(is[j].address == next_pc(code, is[j - 1].address as int));
    }
}

/// Of two instructions of a block that was read from the code, the earlier has
/// the smaller address.
proof fn lemma_block_order(code: Seq<u8>, block: BasicBlockView, i: int, j: int)
    requires
        code.len() <= max_bits(),
        block.instructions.len() >= 1,
        block.address < code.len(),
        block.instructions[0].global_idx <= block.address,
        block.instructions == block_instructions(
            code,
            block.address as int,
            block.instructions[0].global_idx as int,
            0,
        ),
        0 <= i < j < block.instructions.len(),
    ensures
        block.instructions[i].address < block.instructions[j].address,
{
    lemma_block_instructions(
        code,
        block.address as int,
        block.instructions[0].global_idx as int,
        0,
    );
}

/// The scan of the code steps from an instruction to the opcode behind it.
proof fn lemma_scan_step(code: Seq<u8>, pc: int)
    requires
        0 <= pc < code.len(),
        scan_reaches(code, 0, pc),
    ensures
        scan_reaches(code, 0, next_pc(code, pc)),
{
    let next = next_pc(code, pc);
    assert(scan_reaches(code, next, next));
    assert(scan_reaches(code, pc, next));
    lemma_scan_resumes(code, 0, pc, next);
}

/// The instructions of a block that starts at an instruction are
/// instructions.
proof fn lemma_block_follows_scan(code: Seq<u8>, block: BasicBlockView, j: int)
    requires
        code.len() <= max_bits(),
        block.instructions.len() >= 1,
        block.address < code.len(),
        block.instructions[0].global_idx <= block.address,
        block.instructions == block_instructions(
            code,
            block.address as int,
            block.instructions[0].global_idx as int,
            0,
        ),
        scan_reaches(code, 0, block.address as int),
        0 <= j < block.instructions.len(),
    ensures
        is_instruction_at(code, block.instructions[j].address as int),
        scan_reaches(code, 0, next_pc(code, block.instructions[j].address as int)),
    decreases j,
{
    lemma_block_instructions(
        code,
        block.address as int,
        block.instructions[0].global_idx as int,
        0,
    );
    let is = block.instructions;
    if j > 0 {
        lemma_block_follows_scan(code, block, j - 1);
        assert(is[j].address == next_pc(code, is[j - 1].address as int));
    }
    lemma_scan_step(code, is[j].address as int);
}

/// The blocks of a program start at instructions.
proof fn lemma_blocks_follow_scan(code: Seq<u8>, k: int)
    requires
        code.len() <= max_bits(),
        0 <= k < program_blocks(code, 0, 0).len(),
    ensures
        scan_reaches(code, 0, program_blocks(code, 0, 0)[k].address as int),
    decreases k,
{
    let blocks = program_blocks(code, 0, 0);
    lemma_program_blocks(code, 0, 0);
    if k > 0 {
        lemma_blocks_follow_scan(code, k - 1);
        let before = blocks[k - 1];
        assert(blocks[k].address == before.end());
        lemma_block_follows_scan(code, before, before.instructions.len() - 1);
        lemma_block_shape(code, before, before.instructions.len() - 1);
    } else {
        assert(blocks[0].address == 0);
    }
}

/// The partition and the metadata agree: the bytes at which the instructions
/// of the basic blocks stand are the bytes that the metadata flags as
/// instructions.
pub proof fn lemma_blocks_hold_the_instructions(code: Seq<u8>)
    requires
        code.len() <= max_bits(),
    ensures
        forall|k: int, j: int|
            0 <= k < program_blocks(code, 0, 0).len() && 0 <= j < program_blocks(
                code,
                0,
                0,
            )[k].instructions.len() ==> is_instruction_at(
                code,
                (#[trigger] program_blocks(code, 0, 0)[k].instructions[j]).address as int,
            ),
        forall|position: int|
            is_instruction_at(code, position) ==> exists|k: int, j: int|
                0 <= k < program_blocks(code, 0, 0).len() && 0 <= j < program_blocks(
                    code,
                    0,
                    0,
                )[k].instructions.len() && (#[trigger] program_blocks(
                    code,
                    0,
                    0,
                )[k].instructions[j]).address == position,
{
    let blocks = program_blocks(code, 0, 0);
    if code.len() > 0 {
        lemma_program_blocks(code, 0, 0);
        assert forall|k: int, j: int|
            0 <= k < blocks.len() && 0 <= j < blocks[k].instructions.len() implies is_instruction_at(
            code,
            (#[trigger] blocks[k].instructions[j]).address as int,
        ) by {
            lemma_blocks_follow_scan(code, k);
            lemma_block_follows_scan(code, blocks[k], j);
        }
        assert forall|position: int| is_instruction_at(code, position) implies exists|
            k: int,
            j: int,
        |
            0 <= k < blocks.len() && 0 <= j < blocks[k].instructions.len() && (
            #[trigger] blocks[k].instructions[j]).address == position by {
            lemma_block_shape(code, blocks[0], 0);
            lemma_instruction_is_held(code, position, 0, 0);
        }
    }
}

/// An instruction at or behind instruction `j` of block `k` is held by a
/// block.
proof fn lemma_instruction_is_held(code: Seq<u8>, position: int, k: int, j: int)
    requires
        code.len() <= max_bits(),
        0 <= k < program_blocks(code, 0, 0).len(),
        0 <= j < program_blocks(code, 0, 0)[k].instructions.len(),
        program_blocks(code, 0, 0)[k].instructions[j].address <= position < code.len(),
        scan_reaches(
            code,
            program_blocks(code, 0, 0)[k].instructions[j].address as int,
            position,
        ),
    ensures
        exists|k2: int, j2: int|
            0 <= k2 < program_blocks(code, 0, 0).len() && 0 <= j2 < program_blocks(
                code,
                0,
                0,
            )[k2].instructions.len() && (#[trigger] program_blocks(
                code,
                0,
                0,
            )[k2].instructions[j2]).address == position,
    decreases position - program_blocks(code, 0, 0)[k].instructions[j].address,
{
    let blocks = program_blocks(code, 0, 0);
    let block = blocks[k];
    let here = block.instructions[j].address as int;
    lemma_program_blocks(code, 0, 0);
    lemma_block_shape(code, block, j);
    if here == position {
    } else {
        let next = next_pc(code, here);
        assert(next <= position && scan_reaches(code, next, position));
        if j + 1 < block.instructions.len() {
            lemma_block_shape(code, block, j + 1);
            assert(block.instructions[j + 1].address == next);
            lemma_instruction_is_held(code, position, k, j + 1);
        } else {
            assert(block.end() == next);
            assert(k + 1 < blocks.len()) by {
                if k + 1 >= blocks.len() {
                    assert(blocks.last() == block);
                }
            }
            assert(blocks[k + 1].address == block.end());
            lemma_block_shape(code, blocks[k + 1], 0);
            lemma_instruction_is_held(code, position, k + 1, 0);
        }
    }
}

impl Clone for Program {
    fn clone(&self) -> (r: Program)
        ensures
            r@ == self@,
    {
        let mut basic_blocks: Vec<BasicBlock> = Vec::new();
        let mut i: usize = 0;
        while i < self.basic_blocks.len()
            invariant
                i <= self.basic_blocks.len(),
                basic_blocks@.len() == i,
                forall|k: int|
                    0 <= k < i ==> (#[trigger] basic_blocks@[k])@ == self.basic_blocks@[k]@,
            decreases self.basic_blocks.len() - i,
        {
            basic_blocks.push(self.basic_blocks[i].clone());
            i += 1;
        }
        let r = Program {
            bytecode: self.bytecode.clone(),
            basic_blocks,
            meta: self.meta.clone(),
        };
        assert(r@.basic_blocks =~= self@.basic_blocks);
        r
    }
}

impl Program {
    /// Reads the program of a contract's code: its basic blocks, each starting
    /// where the one before it ends, and its metadata.
    pub fn new(bytecode: &[u8]) -> (r: Program)
        requires
            bytecode@.len() <= max_bits(),
        ensures
            r@ == program_of(bytecode@),
            forall|k: int|
                0 <= k < r@.basic_blocks.len() ==> (#[trigger] r@.basic_blocks[k]).optimizable(),
    {
        let ghost code = bytecode@;
        let ghost whole = program_blocks(code, 0, 0);
        let mut blocks: Vec<BasicBlock> = Vec::new();
        let mut index: usize = 0;
        let mut inst_global_index: usize = 0;
        while index < bytecode.len()
            invariant
                code == bytecode@,
                code.len() <= max_bits(),
                inst_global_index <= index <= code.len() + 32,
                whole == block_views(blocks@) + program_blocks(
                    code,
                    index as int,
                    inst_global_index as int,
                ),
                forall|k: int|
                    0 <= k < blocks@.len() ==> (#[trigger] block_views(blocks@)[k]).optimizable(),
            decreases code.len() + 32 - index,
        {
            let ghost before = block_views(blocks@);
            proof {
                lemma_parsed_block(code, index as int, inst_global_index as int);
            }
            let (bb, pc) = BasicBlock::parse(bytecode, index, inst_global_index);
            let ghost block = bb@;
            inst_global_index += bb.instructions.len();
            blocks.push(bb);
            index = pc;
            proof {
                assert(block_views(blocks@) =~= before + seq![block]);
                if index >= code.len() {
                    assert(program_blocks(code, index as int, inst_global_index as int)
                        =~= Seq::empty());
                }
                assert(whole =~= block_views(blocks@) + program_blocks(
                    code,
                    index as int,
                    inst_global_index as int,
                ));
            }
        }
        proof {
            assert(whole =~= block_views(blocks@));
        }
        Program { bytecode: slice_to_vec(bytecode), meta: CodeMeta::new(bytecode), basic_blocks: blocks }
    }

    /// Optimizes every basic block of the program.
    pub fn optimize(&mut self)
        requires
            forall|k: int|
                0 <= k < old(self)@.basic_blocks.len() ==> {
                    let block = #[trigger] old(self)@.basic_blocks[k];
                    block.optimized || block.optimizable()
                },
        ensures
            final(self)@ == (ProgramView {
                basic_blocks: Seq::new(
                    old(self)@.basic_blocks.len(),
                    |k: int| old(self)@.basic_blocks[k].optimize(),
                ),
                ..old(self)@
            }),
    {
        let n = self.basic_blocks.len();
        let mut i: usize = 0;
        while i < n
            invariant
                i <= n,
                n == self.basic_blocks@.len(),
                n == old(self).basic_blocks@.len(),
                self.bytecode == old(self).bytecode,
                self.meta == old(self).meta,
                forall|k: int|
                    0 <= k < i ==> (#[trigger] self.basic_blocks@[k])@ == old(
                        self,
                    ).basic_blocks@[k]@.optimize(),
                forall|k: int|
                    i <= k < n ==> (#[trigger] self.basic_blocks@[k]) == old(
                        self,
                    ).basic_blocks@[k],
                forall|k: int|
                    0 <= k < n ==> {
                        let block = #[trigger] old(self)@.basic_blocks[k];
                        block.optimized || block.optimizable()
                    },
            decreases n - i,
        {
            assert(old(self)@.basic_blocks[i as int] == self.basic_blocks@[i as int]@);
            self.basic_blocks[i].optimize();
            i += 1;
        }
        assert(self@.basic_blocks =~= Seq::new(
            old(self)@.basic_blocks.len(),
            |k: int| old(self)@.basic_blocks[k].optimize(),
        ));
    }
}

} // verus!
