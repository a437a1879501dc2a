//! Operands and annotated instructions of the per-block intermediate representation.

use crate::instructions::Instruction;
use crate::word::Word;
use vstd::prelude::*;
use vstd::std_specs::cmp::PartialEqSpecImpl;

verus! {

/// The index of an instruction within its basic block.
pub type IInstRef = usize;

/// Where an instruction takes a value from. Every variant names, first, the
/// instruction of the block that introduced the operand.
#[derive(Clone, Copy, Debug, Eq)]
pub enum Operand {
    /// The stack slot at the given offset, counted from the top (offset 0), as
    /// the stack was when the basic block was entered.
    StackRef((IInstRef, usize)),
    /// The value that the instruction's pop of the given number takes off the
    /// stack. Only the representation before optimization uses it.
    StackPop((IInstRef, usize)),
    /// A known 256-bit value.
    Constant((IInstRef, Word)),
    /// The result of the given number of an instruction of the block.
    InstructionRef((IInstRef, usize)),
}

impl PartialEq for Operand {
    fn eq(&self, other: &Operand) -> (r: bool) {
        match (*self, *other) {
            (Operand::StackRef((a, b)), Operand::StackRef((c, d))) => a == c && b == d,
            (Operand::StackPop((a, b)), Operand::StackPop((c, d))) => a == c && b == d,
            (Operand::Constant((a, b)), Operand::Constant((c, d))) => a == c && b == d,
            (Operand::InstructionRef((a, b)), Operand::InstructionRef((c, d))) => a == c && b
                == d,
            _ => false,
        }
    }
}

impl PartialEqSpecImpl for Operand {
    open spec fn obeys_eq_spec() -> bool {
        true
    }

    open spec fn eq_spec(&self, other: &Operand) -> bool {
        *self == *other
    }
}

impl Operand {
    /// The value of a `Constant` operand.
    pub open spec fn constant_value(self) -> Word
        recommends
            self is Constant,
    {
        self->Constant_0.1
    }
}

/// An instruction of a basic block together with what the analysis knows of it.
#[derive(Debug)]
pub struct IInstruction {
    /// The byte offset of the opcode within the code.
    pub address: usize,
    /// The index of the instruction among all instructions of the program.
    pub global_idx: usize,
    /// The instruction, or the raw byte where the byte is no opcode.
    pub opcode: Result<Instruction, u8>,
    /// The operands that the instruction takes, in the order in which it takes
    /// them off the stack; absent where it takes none.
    pub operands: Option<Vec<Operand>>,
    /// Whether what the instruction leaves on the stack is known at analysis time.
    pub is_constant: bool,
    /// Whether the instruction needs no code of its own: its effect is already
    /// expressed by the operands of later instructions.
    pub ignoreable: bool,
    /// The constants attached to the instruction: the literal of a `PUSH`, the
    /// program counter for `PC`, the code length for `CODESIZE`, a folded result.
    pub value: Option<Vec<Word>>,
}

/// The mathematical content of an [`IInstruction`].
pub struct IInstructionView {
    pub address: usize,
    pub global_idx: usize,
    pub opcode: Result<Instruction, u8>,
    pub operands: Option<Seq<Operand>>,
    pub is_constant: bool,
    pub ignoreable: bool,
    pub value: Option<Seq<Word>>,
}

impl View for IInstruction {
    type V = IInstructionView;

    open spec fn view(&self) -> IInstructionView {
        IInstructionView {
            address: self.address,
            global_idx: self.global_idx,
            opcode: self.opcode,
            operands: match self.operands {
                Some(v) => Some(v@),
                None => None,
            },
            is_constant: self.is_constant,
            ignoreable: self.ignoreable,
            value: match self.value {
                Some(v) => Some(v@),
                None => None,
            },
        }
    }
}

/// A copy of a list of operands.
pub(crate) fn copy_operands(operands: &Vec<Operand>) -> (r: Vec<Operand>)
    ensures
        r@ == operands@,
{
    let mut r: Vec<Operand> = Vec::new();
    let mut i: usize = 0;
    while i < operands.len()
        invariant
            i <= operands.len(),
            r@ == operands@.subrange(0, i as int),
        decreases operands.len() - i,
    {
        r.push(operands[i]);
        i += 1;
    }
    r
}

/// A copy of a list of words.
pub(crate) fn copy_words(words: &Vec<Word>) -> (r: Vec<Word>)
    ensures
        r@ == words@,
{
    let mut r: Vec<Word> = Vec::new();
    let mut i: usize = 0;
    while i < words.len()
        invariant
            i <= words.len(),
            r@ == words@.subrange(0, i as int),
        decreases words.len() - i,
    {
        r.push(words[i]);
        i += 1;
    }
    r
}

impl Clone for IInstruction {
    fn clone(&self) -> (r: IInstruction)
        ensures
            r@ == self@,
    {
        IInstruction {
            address: self.address,
            global_idx: self.global_idx,
            opcode: self.opcode,
            operands: match &self.operands {
                Some(v) => Some(copy_operands(v)),
                None => None,
            },
            is_constant: self.is_constant,
            ignoreable: self.ignoreable,
            value: match &self.value {
                Some(v) => Some(copy_words(v)),
                None => None,
            },
        }
    }
}

/// The lower-case letter of an upper-case ASCII letter, and any other character
/// itself.
pub open spec fn ascii_lower(c: char) -> char {
    if 'A' <= c <= 'Z' {
        ((c as u8) + 32) as char
    } else {
        c
    }
}

/// The text with each of its characters in lower case.
pub open spec fn lowercase(text: Seq<char>) -> Seq<char> {
    Seq::new(text.len(), |i: int| ascii_lower(text[i]))
}

/// `str::to_ascii_lowercase`: a copy of the text in which each upper-case ASCII
/// letter is replaced by its lower-case letter.
#[verifier::external_body]
fn to_ascii_lowercase(text: &str) -> (r: String)
    ensures
        r@ == lowercase(text@),
{
    text.to_ascii_lowercase()
}

impl IInstruction {
    /// The name of the instruction: its mnemonic in lower case, or `invalid`
    /// for a byte that is no opcode.
    pub open spec fn spec_name(&self) -> Seq<char> {
        match self.opcode {
            Ok(op) => lowercase(op.spec_info().name@),
            Err(_) => "invalid"@,
        }
    }

    /// The name of the instruction.
    pub fn get_name(&self) -> (r: String)
        ensures
            r@ == self.spec_name(),
    {
        if let Ok(op) = self.opcode {
            to_ascii_lowercase(op.info().name)
        } else {
            "invalid".to_string()
        }
    }
}

/// Whether an instruction that pushes a constant carries that constant.
pub open spec fn carries_constant(inst: IInstructionView) -> bool {
    inst.opcode matches Ok(op) ==> (op.spec_pushes_constant() ==> inst.value is Some
        && inst.value->Some_0.len() >= 1)
}

/// The views of a sequence of instructions.
pub open spec fn instruction_views(instructions: Seq<IInstruction>) -> Seq<IInstructionView> {
    Seq::new(instructions.len(), |i: int| instructions[i]@)
}

} // verus!
