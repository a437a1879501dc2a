//! Static analysis of EVM bytecode.
//!
//! From the code of a contract the library builds a [`program::Program`]: the
//! metadata of the code (which bytes are instructions, which are valid jump
//! destinations), its partition into basic blocks, and for each block a
//! representation in which every instruction names its operands. Optimizing a
//! block emulates it on an abstract stack, folds constants, and summarizes
//! what the block does to the stack.
//!
//! Beside the analysis stand the readers of what the compiler writes with the
//! code: hexadecimal text, source maps, and the names of the contracts of a
//! compilation.

pub mod analysis;
mod arith;
pub mod block;
pub mod codemeta;
pub mod combinedjson;
pub mod emulate;
pub mod fold;
pub mod guarantees;
pub mod hex;
pub mod instructions;
pub mod operand;
pub mod program;
pub mod sourcemap;
pub mod word;
