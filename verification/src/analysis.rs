//! The analysis in one place: the metadata of the code, the basic blocks with
//! their instructions and operands, and the program that holds them.

pub use crate::block::BasicBlock;
pub use crate::codemeta::CodeMeta;
pub use crate::fold::evaluate_opcode;
pub use crate::operand::IInstRef;
pub use crate::operand::IInstruction;
pub use crate::operand::Operand;
pub use crate::program::Program;
pub use crate::word::Word;
