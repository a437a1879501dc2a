//! The EVM instruction set: one variant per opcode, with its static properties.

use vstd::prelude::*;

verus! {

/// What the instruction table records of one instruction.
#[derive(Clone, Copy, Debug, PartialEq, Eq)]
pub struct InstructionInfo {
    /// The mnemonic.
    pub name: &'static str,
    /// How many stack items the instruction takes.
    pub args: usize,
    /// How many stack items the instruction leaves.
    pub ret: usize,
}

/// An EVM instruction. A byte that is no opcode has no `Instruction`.
#[allow(non_camel_case_types)]
#[derive(Clone, Copy, Debug, PartialEq, Eq, Hash, Structural)]
pub enum Instruction {
    /// `0x00`: halts execution.
    STOP,
    /// `0x01`: addition.
    ADD,
    /// `0x02`: multiplication.
    MUL,
    /// `0x03`: subtraction.
    SUB,
    /// `0x04`: integer division.
    DIV,
    /// `0x05`: signed integer division.
    SDIV,
    /// `0x06`: remainder.
    MOD,
    /// `0x07`: signed remainder.
    SMOD,
    /// `0x08`: addition modulo a third operand.
    ADDMOD,
    /// `0x09`: multiplication modulo a third operand.
    MULMOD,
    /// `0x0a`: exponentiation.
    EXP,
    /// `0x0b`: sign extension.
    SIGNEXTEND,
    /// `0x10`: less-than comparison.
    LT,
    /// `0x11`: greater-than comparison.
    GT,
    /// `0x12`: signed less-than comparison.
    SLT,
    /// `0x13`: signed greater-than comparison.
    SGT,
    /// `0x14`: equality comparison.
    EQ,
    /// `0x15`: comparison with zero.
    ISZERO,
    /// `0x16`: bitwise and.
    AND,
    /// `0x17`: bitwise or.
    OR,
    /// `0x18`: bitwise exclusive or.
    XOR,
    /// `0x19`: bitwise complement.
    NOT,
    /// `0x1a`: one byte of a word.
    BYTE,
    /// `0x1b`: shift left.
    SHL,
    /// `0x1c`: logical shift right.
    SHR,
    /// `0x1d`: arithmetic shift right.
    SAR,
    /// `0x20`: Keccak-256 hash of a memory range.
    SHA3,
    /// `0x30`: address of the executing account.
    ADDRESS,
    /// `0x31`: balance of an account.
    BALANCE,
    /// `0x32`: address that started the transaction.
    ORIGIN,
    /// `0x33`: address of the caller.
    CALLER,
    /// `0x34`: value sent with the call.
    CALLVALUE,
    /// `0x35`: one word of the call data.
    CALLDATALOAD,
    /// `0x36`: size of the call data.
    CALLDATASIZE,
    /// `0x37`: copies call data to memory.
    CALLDATACOPY,
    /// `0x38`: size of the executing code.
    CODESIZE,
    /// `0x39`: copies the executing code to memory.
    CODECOPY,
    /// `0x3a`: gas price of the transaction.
    GASPRICE,
    /// `0x3b`: size of an account's code.
    EXTCODESIZE,
    /// `0x3c`: copies an account's code to memory.
    EXTCODECOPY,
    /// `0x3d`: size of the last call's return data.
    RETURNDATASIZE,
    /// `0x3e`: copies the last call's return data to memory.
    RETURNDATACOPY,
    /// `0x3f`: hash of an account's code.
    EXTCODEHASH,
    /// `0x40`: hash of a recent block.
    BLOCKHASH,
    /// `0x41`: beneficiary of the block.
    COINBASE,
    /// `0x42`: timestamp of the block.
    TIMESTAMP,
    /// `0x43`: number of the block.
    NUMBER,
    /// `0x44`: difficulty of the block.
    DIFFICULTY,
    /// `0x45`: gas limit of the block.
    GASLIMIT,
    /// `0x46`: identifier of the chain.
    CHAINID,
    /// `0x47`: balance of the executing account.
    SELFBALANCE,
    /// `0x48`: base fee of the block.
    BASEFEE,
    /// `0x50`: removes the top of the stack.
    POP,
    /// `0x51`: loads a word from memory.
    MLOAD,
    /// `0x52`: stores a word to memory.
    MSTORE,
    /// `0x53`: stores a byte to memory.
    MSTORE8,
    /// `0x54`: loads a word from storage.
    SLOAD,
    /// `0x55`: stores a word to storage.
    SSTORE,
    /// `0x56`: unconditional jump.
    JUMP,
    /// `0x57`: conditional jump.
    JUMPI,
    /// `0x58`: program counter of this instruction.
    PC,
    /// `0x59`: size of active memory.
    MSIZE,
    /// `0x5a`: remaining gas.
    GAS,
    /// `0x5b`: marks a valid jump destination.
    JUMPDEST,
    /// `0x60`: pushes the next 1 byte as a word.
    PUSH1,
    /// `0x61`: pushes the next 2 bytes as a word.
    PUSH2,
    /// `0x62`: pushes the next 3 bytes as a word.
    PUSH3,
    /// `0x63`: pushes the next 4 bytes as a word.
    PUSH4,
    /// `0x64`: pushes the next 5 bytes as a word.
    PUSH5,
    /// `0x65`: pushes the next 6 bytes as a word.
    PUSH6,
    /// `0x66`: pushes the next 7 bytes as a word.
    PUSH7,
    /// `0x67`: pushes the next 8 bytes as a word.
    PUSH8,
    /// `0x68`: pushes the next 9 bytes as a word.
    PUSH9,
    /// `0x69`: pushes the next 10 bytes as a word.
    PUSH10,
    /// `0x6a`: pushes the next 11 bytes as a word.
    PUSH11,
    /// `0x6b`: pushes the next 12 bytes as a word.
    PUSH12,
    /// `0x6c`: pushes the next 13 bytes as a word.
    PUSH13,
    /// `0x6d`: pushes the next 14 bytes as a word.
    PUSH14,
    /// `0x6e`: pushes the next 15 bytes as a word.
    PUSH15,
    /// `0x6f`: pushes the next 16 bytes as a word.
    PUSH16,
    /// `0x70`: pushes the next 17 bytes as a word.
    PUSH17,
    /// `0x71`: pushes the next 18 bytes as a word.
    PUSH18,
    /// `0x72`: pushes the next 19 bytes as a word.
    PUSH19,
    /// `0x73`: pushes the next 20 bytes as a word.
    PUSH20,
    /// `0x74`: pushes the next 21 bytes as a word.
    PUSH21,
    /// `0x75`: pushes the next 22 bytes as a word.
    PUSH22,
    /// `0x76`: pushes the next 23 bytes as a word.
    PUSH23,
    /// `0x77`: pushes the next 24 bytes as a word.
    PUSH24,
    /// `0x78`: pushes the next 25 bytes as a word.
    PUSH25,
    /// `0x79`: pushes the next 26 bytes as a word.
    PUSH26,
    /// `0x7a`: pushes the next 27 bytes as a word.
    PUSH27,
    /// `0x7b`: pushes the next 28 bytes as a word.
    PUSH28,
    /// `0x7c`: pushes the next 29 bytes as a word.
    PUSH29,
    /// `0x7d`: pushes the next 30 bytes as a word.
    PUSH30,
    /// `0x7e`: pushes the next 31 bytes as a word.
    PUSH31,
    /// `0x7f`: pushes the next 32 bytes as a word.
    PUSH32,
    /// `0x80`: duplicates the stack item at depth 1.
    DUP1,
    /// `0x81`: duplicates the stack item at depth 2.
    DUP2,
    /// `0x82`: duplicates the stack item at depth 3.
    DUP3,
    /// `0x83`: duplicates the stack item at depth 4.
    DUP4,
    /// `0x84`: duplicates the stack item at depth 5.
    DUP5,
    /// `0x85`: duplicates the stack item at depth 6.
    DUP6,
    /// `0x86`: duplicates the stack item at depth 7.
    DUP7,
    /// `0x87`: duplicates the stack item at depth 8.
    DUP8,
    /// `0x88`: duplicates the stack item at depth 9.
    DUP9,
    /// `0x89`: duplicates the stack item at depth 10.
    DUP10,
    /// `0x8a`: duplicates the stack item at depth 11.
    DUP11,
    /// `0x8b`: duplicates the stack item at depth 12.
    DUP12,
    /// `0x8c`: duplicates the stack item at depth 13.
    DUP13,
    /// `0x8d`: duplicates the stack item at depth 14.
    DUP14,
    /// `0x8e`: duplicates the stack item at depth 15.
    DUP15,
    /// `0x8f`: duplicates the stack item at depth 16.
    DUP16,
    /// `0x90`: exchanges the top of the stack with the item 1 below it.
    SWAP1,
    /// `0x91`: exchanges the top of the stack with the item 2 below it.
    SWAP2,
    /// `0x92`: exchanges the top of the stack with the item 3 below it.
    SWAP3,
    /// `0x93`: exchanges the top of the stack with the item 4 below it.
    SWAP4,
    /// `0x94`: exchanges the top of the stack with the item 5 below it.
    SWAP5,
    /// `0x95`: exchanges the top of the stack with the item 6 below it.
    SWAP6,
    /// `0x96`: exchanges the top of the stack with the item 7 below it.
    SWAP7,
    /// `0x97`: exchanges the top of the stack with the item 8 below it.
    SWAP8,
    /// `0x98`: exchanges the top of the stack with the item 9 below it.
    SWAP9,
    /// `0x99`: exchanges the top of the stack with the item 10 below it.
    SWAP10,
    /// `0x9a`: exchanges the top of the stack with the item 11 below it.
    SWAP11,
    /// `0x9b`: exchanges the top of the stack with the item 12 below it.
    SWAP12,
    /// `0x9c`: exchanges the top of the stack with the item 13 below it.
    SWAP13,
    /// `0x9d`: exchanges the top of the stack with the item 14 below it.
    SWAP14,
    /// `0x9e`: exchanges the top of the stack with the item 15 below it.
    SWAP15,
    /// `0x9f`: exchanges the top of the stack with the item 16 below it.
    SWAP16,
    /// `0xa0`: appends a log record with 0 topics.
    LOG0,
    /// `0xa1`: appends a log record with 1 topic.
    LOG1,
    /// `0xa2`: appends a log record with 2 topics.
    LOG2,
    /// `0xa3`: appends a log record with 3 topics.
    LOG3,
    /// `0xa4`: appends a log record with 4 topics.
    LOG4,
    /// `0xf0`: creates an account with code.
    CREATE,
    /// `0xf1`: message call into an account.
    CALL,
    /// `0xf2`: message call with another account's code.
    CALLCODE,
    /// `0xf3`: halts execution and returns data.
    RETURN,
    /// `0xf4`: message call with another account's code, keeping sender and value.
    DELEGATECALL,
    /// `0xf5`: creates an account at a salted address.
    CREATE2,
    /// `0xfa`: message call that may not change state.
    STATICCALL,
    /// `0xfd`: halts execution, reverts state changes and returns data.
    REVERT,
    /// `0xfe`: the designated invalid instruction.
    INVALID,
    /// `0xff`: halts execution and schedules the account for deletion.
    SELFDESTRUCT,
}

/// Whether the byte is the opcode of an instruction.
pub open spec fn is_opcode(value: u8) -> bool {
    value <= 0x0b || 0x10 <= value <= 0x1d || value == 0x20 || 0x30 <= value <= 0x48 || 0x50
        <= value <= 0x5b || 0x60 <= value <= 0xa4 || 0xf0 <= value <= 0xf5 || value == 0xfa
        || value >= 0xfd
}

impl Instruction {
    /// The opcode byte of the instruction.
    pub open spec fn spec_opcode(self) -> u8 {
        match self {
            Instruction::STOP => 0x00,
            Instruction::ADD => 0x01,
            Instruction::MUL => 0x02,
            Instruction::SUB => 0x03,
            Instruction::DIV => 0x04,
            Instruction::SDIV => 0x05,
            Instruction::MOD => 0x06,
            Instruction::SMOD => 0x07,
            Instruction::ADDMOD => 0x08,
            Instruction::MULMOD => 0x09,
            Instruction::EXP => 0x0a,
            Instruction::SIGNEXTEND => 0x0b,
            Instruction::LT => 0x10,
            Instruction::GT => 0x11,
            Instruction::SLT => 0x12,
            Instruction::SGT => 0x13,
            Instruction::EQ => 0x14,
            Instruction::ISZERO => 0x15,
            Instruction::AND => 0x16,
            Instruction::OR => 0x17,
            Instruction::XOR => 0x18,
            Instruction::NOT => 0x19,
            Instruction::BYTE => 0x1a,
            Instruction::SHL => 0x1b,
            Instruction::SHR => 0x1c,
            Instruction::SAR => 0x1d,
            Instruction::SHA3 => 0x20,
            Instruction::ADDRESS => 0x30,
            Instruction::BALANCE => 0x31,
            Instruction::ORIGIN => 0x32,
            Instruction::CALLER => 0x33,
            Instruction::CALLVALUE => 0x34,
            Instruction::CALLDATALOAD => 0x35,
            Instruction::CALLDATASIZE => 0x36,
            Instruction::CALLDATACOPY => 0x37,
            Instruction::CODESIZE => 0x38,
            Instruction::CODECOPY => 0x39,
            Instruction::GASPRICE => 0x3a,
            Instruction::EXTCODESIZE => 0x3b,
            Instruction::EXTCODECOPY => 0x3c,
            Instruction::RETURNDATASIZE => 0x3d,
            Instruction::RETURNDATACOPY => 0x3e,
            Instruction::EXTCODEHASH => 0x3f,
            Instruction::BLOCKHASH => 0x40,
            Instruction::COINBASE => 0x41,
            Instruction::TIMESTAMP => 0x42,
            Instruction::NUMBER => 0x43,
            Instruction::DIFFICULTY => 0x44,
            Instruction::GASLIMIT => 0x45,
            Instruction::CHAINID => 0x46,
            Instruction::SELFBALANCE => 0x47,
            Instruction::BASEFEE => 0x48,
            Instruction::POP => 0x50,
            Instruction::MLOAD => 0x51,
            Instruction::MSTORE => 0x52,
            Instruction::MSTORE8 => 0x53,
            Instruction::SLOAD => 0x54,
            Instruction::SSTORE => 0x55,
            Instruction::JUMP => 0x56,
            Instruction::JUMPI => 0x57,
            Instruction::PC => 0x58,
            Instruction::MSIZE => 0x59,
            Instruction::GAS => 0x5a,
            Instruction::JUMPDEST => 0x5b,
            Instruction::PUSH1 => 0x60,
            Instruction::PUSH2 => 0x61,
            Instruction::PUSH3 => 0x62,
            Instruction::PUSH4 => 0x63,
            Instruction::PUSH5 => 0x64,
            Instruction::PUSH6 => 0x65,
            Instruction::PUSH7 => 0x66,
            Instruction::PUSH8 => 0x67,
            Instruction::PUSH9 => 0x68,
            Instruction::PUSH10 => 0x69,
            Instruction::PUSH11 => 0x6a,
            Instruction::PUSH12 => 0x6b,
            Instruction::PUSH13 => 0x6c,
            Instruction::PUSH14 => 0x6d,
            Instruction::PUSH15 => 0x6e,
            Instruction::PUSH16 => 0x6f,
            Instruction::PUSH17 => 0x70,
            Instruction::PUSH18 => 0x71,
            Instruction::PUSH19 => 0x72,
            Instruction::PUSH20 => 0x73,
            Instruction::PUSH21 => 0x74,
            Instruction::PUSH22 => 0x75,
            Instruction::PUSH23 => 0x76,
            Instruction::PUSH24 => 0x77,
            Instruction::PUSH25 => 0x78,
            Instruction::PUSH26 => 0x79,
            Instruction::PUSH27 => 0x7a,
            Instruction::PUSH28 => 0x7b,
            Instruction::PUSH29 => 0x7c,
            Instruction::PUSH30 => 0x7d,
            Instruction::PUSH31 => 0x7e,
            Instruction::PUSH32 => 0x7f,
            Instruction::DUP1 => 0x80,
            Instruction::DUP2 => 0x81,
            Instruction::DUP3 => 0x82,
            Instruction::DUP4 => 0x83,
            Instruction::DUP5 => 0x84,
            Instruction::DUP6 => 0x85,
            Instruction::DUP7 => 0x86,
            Instruction::DUP8 => 0x87,
            Instruction::DUP9 => 0x88,
            Instruction::DUP10 => 0x89,
            Instruction::DUP11 => 0x8a,
            Instruction::DUP12 => 0x8b,
            Instruction::DUP13 => 0x8c,
            Instruction::DUP14 => 0x8d,
            Instruction::DUP15 => 0x8e,
            Instruction::DUP16 => 0x8f,
            Instruction::SWAP1 => 0x90,
            Instruction::SWAP2 => 0x91,
            Instruction::SWAP3 => 0x92,
            Instruction::SWAP4 => 0x93,
            Instruction::SWAP5 => 0x94,
            Instruction::SWAP6 => 0x95,
            Instruction::SWAP7 => 0x96,
            Instruction::SWAP8 => 0x97,
            Instruction::SWAP9 => 0x98,
            Instruction::SWAP10 => 0x99,
            Instruction::SWAP11 => 0x9a,
            Instruction::SWAP12 => 0x9b,
            Instruction::SWAP13 => 0x9c,
            Instruction::SWAP14 => 0x9d,
            Instruction::SWAP15 => 0x9e,
            Instruction::SWAP16 => 0x9f,
            Instruction::LOG0 => 0xa0,
            Instruction::LOG1 => 0xa1,
            Instruction::LOG2 => 0xa2,
            Instruction::LOG3 => 0xa3,
            Instruction::LOG4 => 0xa4,
            Instruction::CREATE => 0xf0,
            Instruction::CALL => 0xf1,
            Instruction::CALLCODE => 0xf2,
            Instruction::RETURN => 0xf3,
            Instruction::DELEGATECALL => 0xf4,
            Instruction::CREATE2 => 0xf5,
            Instruction::STATICCALL => 0xfa,
            Instruction::REVERT => 0xfd,
            Instruction::INVALID => 0xfe,
            Instruction::SELFDESTRUCT => 0xff,
        }
    }

    /// The table entry of the instruction: mnemonic, stack items taken and left.
    pub open spec fn spec_info(self) -> InstructionInfo {
        match self {
            Instruction::STOP => InstructionInfo { name: "STOP", args: 0, ret: 0 },
            Instruction::ADD => InstructionInfo { name: "ADD", args: 2, ret: 1 },
            Instruction::MUL => InstructionInfo { name: "MUL", args: 2, ret: 1 },
            Instruction::SUB => InstructionInfo { name: "SUB", args: 2, ret: 1 },
            Instruction::DIV => InstructionInfo { name: "DIV", args: 2, ret: 1 },
            Instruction::SDIV => InstructionInfo { name: "SDIV", args: 2, ret: 1 },
            Instruction::MOD => InstructionInfo { name: "MOD", args: 2, ret: 1 },
            Instruction::SMOD => InstructionInfo { name: "SMOD", args: 2, ret: 1 },
            Instruction::ADDMOD => InstructionInfo { name: "ADDMOD", args: 3, ret: 1 },
            Instruction::MULMOD => InstructionInfo { name: "MULMOD", args: 3, ret: 1 },
            Instruction::EXP => InstructionInfo { name: "EXP", args: 2, ret: 1 },
            Instruction::SIGNEXTEND => InstructionInfo { name: "SIGNEXTEND", args: 2, ret: 1 },
            Instruction::LT => InstructionInfo { name: "LT", args: 2, ret: 1 },
            Instruction::GT => InstructionInfo { name: "GT", args: 2, ret: 1 },
            Instruction::SLT => InstructionInfo { name: "SLT", args: 2, ret: 1 },
            Instruction::SGT => InstructionInfo { name: "SGT", args: 2, ret: 1 },
            Instruction::EQ => InstructionInfo { name: "EQ", args: 2, ret: 1 },
            Instruction::ISZERO => InstructionInfo { name: "ISZERO", args: 1, ret: 1 },
            Instruction::AND => InstructionInfo { name: "AND", args: 2, ret: 1 },
            Instruction::OR => InstructionInfo { name: "OR", args: 2, ret: 1 },
            Instruction::XOR => InstructionInfo { name: "XOR", args: 2, ret: 1 },
            Instruction::NOT => InstructionInfo { name: "NOT", args: 1, ret: 1 },
            Instruction::BYTE => InstructionInfo { name: "BYTE", args: 2, ret: 1 },
            Instruction::SHL => InstructionInfo { name: "SHL", args: 2, ret: 1 },
            Instruction::SHR => InstructionInfo { name: "SHR", args: 2, ret: 1 },
            Instruction::SAR => InstructionInfo { name: "SAR", args: 2, ret: 1 },
            Instruction::SHA3 => InstructionInfo { name: "SHA3", args: 2, ret: 1 },
            Instruction::ADDRESS => InstructionInfo { name: "ADDRESS", args: 0, ret: 1 },
            Instruction::BALANCE => InstructionInfo { name: "BALANCE", args: 1, ret: 1 },
            Instruction::ORIGIN => InstructionInfo { name: "ORIGIN", args: 0, ret: 1 },
            Instruction::CALLER => InstructionInfo { name: "CALLER", args: 0, ret: 1 },
            Instruction::CALLVALUE => InstructionInfo { name: "CALLVALUE", args: 0, ret: 1 },
            Instruction::CALLDATALOAD => InstructionInfo { name: "CALLDATALOAD", args: 1, ret: 1 },
            Instruction::CALLDATASIZE => InstructionInfo { name: "CALLDATASIZE", args: 0, ret: 1 },
            Instruction::CALLDATACOPY => InstructionInfo { name: "CALLDATACOPY", args: 3, ret: 0 },
            Instruction::CODESIZE => InstructionInfo { name: "CODESIZE", args: 0, ret: 1 },
            Instruction::CODECOPY => InstructionInfo { name: "CODECOPY", args: 3, ret: 0 },
            Instruction::GASPRICE => InstructionInfo { name: "GASPRICE", args: 0, ret: 1 },
            Instruction::EXTCODESIZE => InstructionInfo { name: "EXTCODESIZE", args: 1, ret: 1 },
            Instruction::EXTCODECOPY => InstructionInfo { name: "EXTCODECOPY", args: 4, ret: 0 },
            Instruction::RETURNDATASIZE => InstructionInfo { name: "RETURNDATASIZE", args: 0, ret: 1 },
            Instruction::RETURNDATACOPY => InstructionInfo { name: "RETURNDATACOPY", args: 3, ret: 0 },
            Instruction::EXTCODEHASH => InstructionInfo { name: "EXTCODEHASH", args: 1, ret: 1 },
            Instruction::BLOCKHASH => InstructionInfo { name: "BLOCKHASH", args: 1, ret: 1 },
            Instruction::COINBASE => InstructionInfo { name: "COINBASE", args: 0, ret: 1 },
            Instruction::TIMESTAMP => InstructionInfo { name: "TIMESTAMP", args: 0, ret: 1 },
            Instruction::NUMBER => InstructionInfo { name: "NUMBER", args: 0, ret: 1 },
            Instruction::DIFFICULTY => InstructionInfo { name: "DIFFICULTY", args: 0, ret: 1 },
            Instruction::GASLIMIT => InstructionInfo { name: "GASLIMIT", args: 0, ret: 1 },
            Instruction::CHAINID => InstructionInfo { name: "CHAINID", args: 0, ret: 1 },
            Instruction::SELFBALANCE => InstructionInfo { name: "SELFBALANCE", args: 0, ret: 1 },
            Instruction::BASEFEE => InstructionInfo { name: "BASEFEE", args: 0, ret: 1 },
            Instruction::POP => InstructionInfo { name: "POP", args: 1, ret: 0 },
            Instruction::MLOAD => InstructionInfo { name: "MLOAD", args: 1, ret: 1 },
            Instruction::MSTORE => InstructionInfo { name: "MSTORE", args: 2, ret: 0 },
            Instruction::MSTORE8 => InstructionInfo { name: "MSTORE8", args: 2, ret: 0 },
            Instruction::SLOAD => InstructionInfo { name: "SLOAD", args: 1, ret: 1 },
            Instruction::SSTORE => InstructionInfo { name: "SSTORE", args: 2, ret: 0 },
            Instruction::JUMP => InstructionInfo { name: "JUMP", args: 1, ret: 0 },
            Instruction::JUMPI => InstructionInfo { name: "JUMPI", args: 2, ret: 0 },
            Instruction::PC => InstructionInfo { name: "PC", args: 0, ret: 1 },
            Instruction::MSIZE => InstructionInfo { name: "MSIZE", args: 0, ret: 1 },
            Instruction::GAS => InstructionInfo { name: "GAS", args: 0, ret: 1 },
            Instruction::JUMPDEST => InstructionInfo { name: "JUMPDEST", args: 0, ret: 0 },
            Instruction::PUSH1 => InstructionInfo { name: "PUSH1", args: 0, ret: 1 },
            Instruction::PUSH2 => InstructionInfo { name: "PUSH2", args: 0, ret: 1 },
            Instruction::PUSH3 => InstructionInfo { name: "PUSH3", args: 0, ret: 1 },
            Instruction::PUSH4 => InstructionInfo { name: "PUSH4", args: 0, ret: 1 },
            Instruction::PUSH5 => InstructionInfo { name: "PUSH5", args: 0, ret: 1 },
            Instruction::PUSH6 => InstructionInfo { name: "PUSH6", args: 0, ret: 1 },
            Instruction::PUSH7 => InstructionInfo { name: "PUSH7", args: 0, ret: 1 },
            Instruction::PUSH8 => InstructionInfo { name: "PUSH8", args: 0, ret: 1 },
            Instruction::PUSH9 => InstructionInfo { name: "PUSH9", args: 0, ret: 1 },
            Instruction::PUSH10 => InstructionInfo { name: "PUSH10", args: 0, ret: 1 },
            Instruction::PUSH11 => InstructionInfo { name: "PUSH11", args: 0, ret: 1 },
            Instruction::PUSH12 => InstructionInfo { name: "PUSH12", args: 0, ret: 1 },
            Instruction::PUSH13 => InstructionInfo { name: "PUSH13", args: 0, ret: 1 },
            Instruction::PUSH14 => InstructionInfo { name: "PUSH14", args: 0, ret: 1 },
            Instruction::PUSH15 => InstructionInfo { name: "PUSH15", args: 0, ret: 1 },
            Instruction::PUSH16 => InstructionInfo { name: "PUSH16", args: 0, ret: 1 },
            Instruction::PUSH17 => InstructionInfo { name: "PUSH17", args: 0, ret: 1 },
            Instruction::PUSH18 => InstructionInfo { name: "PUSH18", args: 0, ret: 1 },
            Instruction::PUSH19 => InstructionInfo { name: "PUSH19", args: 0, ret: 1 },
            Instruction::PUSH20 => InstructionInfo { name: "PUSH20", args: 0, ret: 1 },
            Instruction::PUSH21 => InstructionInfo { name: "PUSH21", args: 0, ret: 1 },
            Instruction::PUSH22 => InstructionInfo { name: "PUSH22", args: 0, ret: 1 },
            Instruction::PUSH23 => InstructionInfo { name: "PUSH23", args: 0, ret: 1 },
            Instruction::PUSH24 => InstructionInfo { name: "PUSH24", args: 0, ret: 1 },
            Instruction::PUSH25 => InstructionInfo { name: "PUSH25", args: 0, ret: 1 },
            Instruction::PUSH26 => InstructionInfo { name: "PUSH26", args: 0, ret: 1 },
            Instruction::PUSH27 => InstructionInfo { name: "PUSH27", args: 0, ret: 1 },
            Instruction::PUSH28 => InstructionInfo { name: "PUSH28", args: 0, ret: 1 },
            Instruction::PUSH29 => InstructionInfo { name: "PUSH29", args: 0, ret: 1 },
            Instruction::PUSH30 => InstructionInfo { name: "PUSH30", args: 0, ret: 1 },
            Instruction::PUSH31 => InstructionInfo { name: "PUSH31", args: 0, ret: 1 },
            Instruction::PUSH32 => InstructionInfo { name: "PUSH32", args: 0, ret: 1 },
            Instruction::DUP1 => InstructionInfo { name: "DUP1", args: 1, ret: 2 },
            Instruction::DUP2 => InstructionInfo { name: "DUP2", args: 2, ret: 3 },
            Instruction::DUP3 => InstructionInfo { name: "DUP3", args: 3, ret: 4 },
            Instruction::DUP4 => InstructionInfo { name: "DUP4", args: 4, ret: 5 },
            Instruction::DUP5 => InstructionInfo { name: "DUP5", args: 5, ret: 6 },
            Instruction::DUP6 => InstructionInfo { name: "DUP6", args: 6, ret: 7 },
            Instruction::DUP7 => InstructionInfo { name: "DUP7", args: 7, ret: 8 },
            Instruction::DUP8 => InstructionInfo { name: "DUP8", args: 8, ret: 9 },
            Instruction::DUP9 => InstructionInfo { name: "DUP9", args: 9, ret: 10 },
            Instruction::DUP10 => InstructionInfo { name: "DUP10", args: 10, ret: 11 },
            Instruction::DUP11 => InstructionInfo { name: "DUP11", args: 11, ret: 12 },
            Instruction::DUP12 => InstructionInfo { name: "DUP12", args: 12, ret: 13 },
            Instruction::DUP13 => InstructionInfo { name: "DUP13", args: 13, ret: 14 },
            Instruction::DUP14 => InstructionInfo { name: "DUP14", args: 14, ret: 15 },
            Instruction::DUP15 => InstructionInfo { name: "DUP15", args: 15, ret: 16 },
            Instruction::DUP16 => InstructionInfo { name: "DUP16", args: 16, ret: 17 },
            Instruction::SWAP1 => InstructionInfo { name: "SWAP1", args: 2, ret: 2 },
            Instruction::SWAP2 => InstructionInfo { name: "SWAP2", args: 3, ret: 3 },
            Instruction::SWAP3 => InstructionInfo { name: "SWAP3", args: 4, ret: 4 },
            Instruction::SWAP4 => InstructionInfo { name: "SWAP4", args: 5, ret: 5 },
            Instruction::SWAP5 => InstructionInfo { name: "SWAP5", args: 6, ret: 6 },
            Instruction::SWAP6 => InstructionInfo { name: "SWAP6", args: 7, ret: 7 },
            Instruction::SWAP7 => InstructionInfo { name: "SWAP7", args: 8, ret: 8 },
            Instruction::SWAP8 => InstructionInfo { name: "SWAP8", args: 9, ret: 9 },
            Instruction::SWAP9 => InstructionInfo { name: "SWAP9", args: 10, ret: 10 },
            Instruction::SWAP10 => InstructionInfo { name: "SWAP10", args: 11, ret: 11 },
            Instruction::SWAP11 => InstructionInfo { name: "SWAP11", args: 12, ret: 12 },
            Instruction::SWAP12 => InstructionInfo { name: "SWAP12", args: 13, ret: 13 },
            Instruction::SWAP13 => InstructionInfo { name: "SWAP13", args: 14, ret: 14 },
            Instruction::SWAP14 => InstructionInfo { name: "SWAP14", args: 15, ret: 15 },
            Instruction::SWAP15 => InstructionInfo { name: "SWAP15", args: 16, ret: 16 },
            Instruction::SWAP16 => InstructionInfo { name: "SWAP16", args: 17, ret: 17 },
            Instruction::LOG0 => InstructionInfo { name: "LOG0", args: 2, ret: 0 },
            Instruction::LOG1 => InstructionInfo { name: "LOG1", args: 3, ret: 0 },
            Instruction::LOG2 => InstructionInfo { name: "LOG2", args: 4, ret: 0 },
            Instruction::LOG3 => InstructionInfo { name: "LOG3", args: 5, ret: 0 },
            Instruction::LOG4 => InstructionInfo { name: "LOG4", args: 6, ret: 0 },
            Instruction::CREATE => InstructionInfo { name: "CREATE", args: 3, ret: 1 },
            Instruction::CALL => InstructionInfo { name: "CALL", args: 7, ret: 1 },
            Instruction::CALLCODE => InstructionInfo { name: "CALLCODE", args: 7, ret: 1 },
            Instruction::RETURN => InstructionInfo { name: "RETURN", args: 2, ret: 0 },
            Instruction::DELEGATECALL => InstructionInfo { name: "DELEGATECALL", args: 6, ret: 1 },
            Instruction::CREATE2 => InstructionInfo { name: "CREATE2", args: 4, ret: 1 },
            Instruction::STATICCALL => InstructionInfo { name: "STATICCALL", args: 6, ret: 1 },
            Instruction::REVERT => InstructionInfo { name: "REVERT", args: 2, ret: 0 },
            Instruction::INVALID => InstructionInfo { name: "INVALID", args: 0, ret: 0 },
            Instruction::SELFDESTRUCT => InstructionInfo { name: "SELFDESTRUCT", args: 1, ret: 0 },
        }
    }

    /// The number of immediate bytes that follow the opcode: `n` for `PUSHn`.
    pub open spec fn spec_push_bytes(self) -> Option<usize> {
        let op = self.spec_opcode();
        if 0x60 <= op <= 0x7f {
            Some((op - 0x5f) as usize)
        } else {
            None
        }
    }

    /// The stack position that `DUPk` copies, counted from the top: `k - 1`.
    pub open spec fn spec_dup_position(self) -> Option<usize> {
        let op = self.spec_opcode();
        if 0x80 <= op <= 0x8f {
            Some((op - 0x80) as usize)
        } else {
            None
        }
    }

    /// The stack position that `SWAPk` exchanges with the top: `k`.
    pub open spec fn spec_swap_position(self) -> Option<usize> {
        let op = self.spec_opcode();
        if 0x90 <= op <= 0x9f {
            Some((op - 0x8f) as usize)
        } else {
            None
        }
    }

    /// Whether the instruction ends execution.
    pub open spec fn spec_stops(self) -> bool {
        self == Instruction::STOP || self == Instruction::RETURN || self == Instruction::REVERT
            || self == Instruction::SELFDESTRUCT || self == Instruction::INVALID
    }

    /// Whether the instruction is `JUMP` or `JUMPI`.
    pub open spec fn spec_is_jump(self) -> bool {
        self == Instruction::JUMP || self == Instruction::JUMPI
    }

    /// Whether the instruction pushes a value that is known from the code alone:
    /// the `PUSH` family and `PC`.
    pub open spec fn spec_pushes_constant(self) -> bool {
        self.spec_push_bytes() is Some || self == Instruction::PC
    }

    /// The instruction with the given opcode, if there is one.
    pub open spec fn spec_from_u8(value: u8) -> Option<Instruction> {
        match value {
            0x00 => Some(Instruction::STOP),
            0x01 => Some(Instruction::ADD),
            0x02 => Some(Instruction::MUL),
            0x03 => Some(Instruction::SUB),
            0x04 => Some(Instruction::DIV),
            0x05 => Some(Instruction::SDIV),
            0x06 => Some(Instruction::MOD),
            0x07 => Some(Instruction::SMOD),
            0x08 => Some(Instruction::ADDMOD),
            0x09 => Some(Instruction::MULMOD),
            0x0a => Some(Instruction::EXP),
            0x0b => Some(Instruction::SIGNEXTEND),
            0x10 => Some(Instruction::LT),
            0x11 => Some(Instruction::GT),
            0x12 => Some(Instruction::SLT),
            0x13 => Some(Instruction::SGT),
            0x14 => Some(Instruction::EQ),
            0x15 => Some(Instruction::ISZERO),
            0x16 => Some(Instruction::AND),
            0x17 => Some(Instruction::OR),
            0x18 => Some(Instruction::XOR),
            0x19 => Some(Instruction::NOT),
            0x1a => Some(Instruction::BYTE),
            0x1b => Some(Instruction::SHL),
            0x1c => Some(Instruction::SHR),
            0x1d => Some(Instruction::SAR),
            0x20 => Some(Instruction::SHA3),
            0x30 => Some(Instruction::ADDRESS),
            0x31 => Some(Instruction::BALANCE),
            0x32 => Some(Instruction::ORIGIN),
            0x33 => Some(Instruction::CALLER),
            0x34 => Some(Instruction::CALLVALUE),
            0x35 => Some(Instruction::CALLDATALOAD),
            0x36 => Some(Instruction::CALLDATASIZE),
            0x37 => Some(Instruction::CALLDATACOPY),
            0x38 => Some(Instruction::CODESIZE),
            0x39 => Some(Instruction::CODECOPY),
            0x3a => Some(Instruction::GASPRICE),
            0x3b => Some(Instruction::EXTCODESIZE),
            0x3c => Some(Instruction::EXTCODECOPY),
            0x3d => Some(Instruction::RETURNDATASIZE),
            0x3e => Some(Instruction::RETURNDATACOPY),
            0x3f => Some(Instruction::EXTCODEHASH),
            0x40 => Some(Instruction::BLOCKHASH),
            0x41 => Some(Instruction::COINBASE),
            0x42 => Some(Instruction::TIMESTAMP),
            0x43 => Some(Instruction::NUMBER),
            0x44 => Some(Instruction::DIFFICULTY),
            0x45 => Some(Instruction::GASLIMIT),
            0x46 => Some(Instruction::CHAINID),
            0x47 => Some(Instruction::SELFBALANCE),
            0x48 => Some(Instruction::BASEFEE),
            0x50 => Some(Instruction::POP),
            0x51 => Some(Instruction::MLOAD),
            0x52 => Some(Instruction::MSTORE),
            0x53 => Some(Instruction::MSTORE8),
            0x54 => Some(Instruction::SLOAD),
            0x55 => Some(Instruction::SSTORE),
            0x56 => Some(Instruction::JUMP),
            0x57 => Some(Instruction::JUMPI),
            0x58 => Some(Instruction::PC),
            0x59 => Some(Instruction::MSIZE),
            0x5a => Some(Instruction::GAS),
            0x5b => Some(Instruction::JUMPDEST),
            0x60 => Some(Instruction::PUSH1),
            0x61 => Some(Instruction::PUSH2),
            0x62 => Some(Instruction::PUSH3),
            0x63 => Some(Instruction::PUSH4),
            0x64 => Some(Instruction::PUSH5),
            0x65 => Some(Instruction::PUSH6),
            0x66 => Some(Instruction::PUSH7),
            0x67 => Some(Instruction::PUSH8),
            0x68 => Some(Instruction::PUSH9),
            0x69 => Some(Instruction::PUSH10),
            0x6a => Some(Instruction::PUSH11),
            0x6b => Some(Instruction::PUSH12),
            0x6c => Some(Instruction::PUSH13),
            0x6d => Some(Instruction::PUSH14),
            0x6e => Some(Instruction::PUSH15),
            0x6f => Some(Instruction::PUSH16),
            0x70 => Some(Instruction::PUSH17),
            0x71 => Some(Instruction::PUSH18),
            0x72 => Some(Instruction::PUSH19),
            0x73 => Some(Instruction::PUSH20),
            0x74 => Some(Instruction::PUSH21),
            0x75 => Some(Instruction::PUSH22),
            0x76 => Some(Instruction::PUSH23),
            0x77 => Some(Instruction::PUSH24),
            0x78 => Some(Instruction::PUSH25),
            0x79 => Some(Instruction::PUSH26),
            0x7a => Some(Instruction::PUSH27),
            0x7b => Some(Instruction::PUSH28),
            0x7c => Some(Instruction::PUSH29),
            0x7d => Some(Instruction::PUSH30),
            0x7e => Some(Instruction::PUSH31),
            0x7f => Some(Instruction::PUSH32),
            0x80 => Some(Instruction::DUP1),
            0x81 => Some(Instruction::DUP2),
            0x82 => Some(Instruction::DUP3),
            0x83 => Some(Instruction::DUP4),
            0x84 => Some(Instruction::DUP5),
            0x85 => Some(Instruction::DUP6),
            0x86 => Some(Instruction::DUP7),
            0x87 => Some(Instruction::DUP8),
            0x88 => Some(Instruction::DUP9),
            0x89 => Some(Instruction::DUP10),
            0x8a => Some(Instruction::DUP11),
            0x8b => Some(Instruction::DUP12),
            0x8c => Some(Instruction::DUP13),
            0x8d => Some(Instruction::DUP14),
            0x8e => Some(Instruction::DUP15),
            0x8f => Some(Instruction::DUP16),
            0x90 => Some(Instruction::SWAP1),
            0x91 => Some(Instruction::SWAP2),
            0x92 => Some(Instruction::SWAP3),
            0x93 => Some(Instruction::SWAP4),
            0x94 => Some(Instruction::SWAP5),
            0x95 => Some(Instruction::SWAP6),
            0x96 => Some(Instruction::SWAP7),
            0x97 => Some(Instruction::SWAP8),
            0x98 => Some(Instruction::SWAP9),
            0x99 => Some(Instruction::SWAP10),
            0x9a => Some(Instruction::SWAP11),
            0x9b => Some(Instruction::SWAP12),
            0x9c => Some(Instruction::SWAP13),
            0x9d => Some(Instruction::SWAP14),
            0x9e => Some(Instruction::SWAP15),
            0x9f => Some(Instruction::SWAP16),
            0xa0 => Some(Instruction::LOG0),
            0xa1 => Some(Instruction::LOG1),
            0xa2 => Some(Instruction::LOG2),
            0xa3 => Some(Instruction::LOG3),
            0xa4 => Some(Instruction::LOG4),
            0xf0 => Some(Instruction::CREATE),
            0xf1 => Some(Instruction::CALL),
            0xf2 => Some(Instruction::CALLCODE),
            0xf3 => Some(Instruction::RETURN),
            0xf4 => Some(Instruction::DELEGATECALL),
            0xf5 => Some(Instruction::CREATE2),
            0xfa => Some(Instruction::STATICCALL),
            0xfd => Some(Instruction::REVERT),
            0xfe => Some(Instruction::INVALID),
            0xff => Some(Instruction::SELFDESTRUCT),
            _ => None,
        }
    }

    /// Decodes an opcode byte: the instruction with that opcode, if there is one.
    #[verifier::when_used_as_spec(spec_from_u8)]
    pub fn from_u8(value: u8) -> (r: Option<Instruction>)
        ensures
            r == Instruction::spec_from_u8(value),
            r is Some <==> is_opcode(value),
            r matches Some(inst) ==> inst.spec_opcode() == value,
    {
        match value {
            0x00 => Some(Instruction::STOP),
            0x01 => Some(Instruction::ADD),
            0x02 => Some(Instruction::MUL),
            0x03 => Some(Instruction::SUB),
            0x04 => Some(Instruction::DIV),
            0x05 => Some(Instruction::SDIV),
            0x06 => Some(Instruction::MOD),
            0x07 => Some(Instruction::SMOD),
            0x08 => Some(Instruction::ADDMOD),
            0x09 => Some(Instruction::MULMOD),
            0x0a => Some(Instruction::EXP),
            0x0b => Some(Instruction::SIGNEXTEND),
            0x10 => Some(Instruction::LT),
            0x11 => Some(Instruction::GT),
            0x12 => Some(Instruction::SLT),
            0x13 => Some(Instruction::SGT),
            0x14 => Some(Instruction::EQ),
            0x15 => Some(Instruction::ISZERO),
            0x16 => Some(Instruction::AND),
            0x17 => Some(Instruction::OR),
            0x18 => Some(Instruction::XOR),
            0x19 => Some(Instruction::NOT),
            0x1a => Some(Instruction::BYTE),
            0x1b => Some(Instruction::SHL),
            0x1c => Some(Instruction::SHR),
            0x1d => Some(Instruction::SAR),
            0x20 => Some(Instruction::SHA3),
            0x30 => Some(Instruction::ADDRESS),
            0x31 => Some(Instruction::BALANCE),
            0x32 => Some(Instruction::ORIGIN),
            0x33 => Some(Instruction::CALLER),
            0x34 => Some(Instruction::CALLVALUE),
            0x35 => Some(Instruction::CALLDATALOAD),
            0x36 => Some(Instruction::CALLDATASIZE),
            0x37 => Some(Instruction::CALLDATACOPY),
            0x38 => Some(Instruction::CODESIZE),
            0x39 => Some(Instruction::CODECOPY),
            0x3a => Some(Instruction::GASPRICE),
            0x3b => Some(Instruction::EXTCODESIZE),
            0x3c => Some(Instruction::EXTCODECOPY),
            0x3d => Some(Instruction::RETURNDATASIZE),
            0x3e => Some(Instruction::RETURNDATACOPY),
            0x3f => Some(Instruction::EXTCODEHASH),
            0x40 => Some(Instruction::BLOCKHASH),
            0x41 => Some(Instruction::COINBASE),
            0x42 => Some(Instruction::TIMESTAMP),
            0x43 => Some(Instruction::NUMBER),
            0x44 => Some(Instruction::DIFFICULTY),
            0x45 => Some(Instruction::GASLIMIT),
            0x46 => Some(Instruction::CHAINID),
            0x47 => Some(Instruction::SELFBALANCE),
            0x48 => Some(Instruction::BASEFEE),
            0x50 => Some(Instruction::POP),
            0x51 => Some(Instruction::MLOAD),
            0x52 => Some(Instruction::MSTORE),
            0x53 => Some(Instruction::MSTORE8),
            0x54 => Some(Instruction::SLOAD),
            0x55 => Some(Instruction::SSTORE),
            0x56 => Some(Instruction::JUMP),
            0x57 => Some(Instruction::JUMPI),
            0x58 => Some(Instruction::PC),
            0x59 => Some(Instruction::MSIZE),
            0x5a => Some(Instruction::GAS),
            0x5b => Some(Instruction::JUMPDEST),
            0x60 => Some(Instruction::PUSH1),
            0x61 => Some(Instruction::PUSH2),
            0x62 => Some(Instruction::PUSH3),
            0x63 => Some(Instruction::PUSH4),
            0x64 => Some(Instruction::PUSH5),
            0x65 => Some(Instruction::PUSH6),
            0x66 => Some(Instruction::PUSH7),
            0x67 => Some(Instruction::PUSH8),
            0x68 => Some(Instruction::PUSH9),
            0x69 => Some(Instruction::PUSH10),
            0x6a => Some(Instruction::PUSH11),
            0x6b => Some(Instruction::PUSH12),
            0x6c => Some(Instruction::PUSH13),
            0x6d => Some(Instruction::PUSH14),
            0x6e => Some(Instruction::PUSH15),
            0x6f => Some(Instruction::PUSH16),
            0x70 => Some(Instruction::PUSH17),
            0x71 => Some(Instruction::PUSH18),
            0x72 => Some(Instruction::PUSH19),
            0x73 => Some(Instruction::PUSH20),
            0x74 => Some(Instruction::PUSH21),
            0x75 => Some(Instruction::PUSH22),
            0x76 => Some(Instruction::PUSH23),
            0x77 => Some(Instruction::PUSH24),
            0x78 => Some(Instruction::PUSH25),
            0x79 => Some(Instruction::PUSH26),
            0x7a => Some(Instruction::PUSH27),
            0x7b => Some(Instruction::PUSH28),
            0x7c => Some(Instruction::PUSH29),
            0x7d => Some(Instruction::PUSH30),
            0x7e => Some(Instruction::PUSH31),
            0x7f => Some(Instruction::PUSH32),
            0x80 => Some(Instruction::DUP1),
            0x81 => Some(Instruction::DUP2),
            0x82 => Some(Instruction::DUP3),
            0x83 => Some(Instruction::DUP4),
            0x84 => Some(Instruction::DUP5),
            0x85 => Some(Instruction::DUP6),
            0x86 => Some(Instruction::DUP7),
            0x87 => Some(Instruction::DUP8),
            0x88 => Some(Instruction::DUP9),
            0x89 => Some(Instruction::DUP10),
            0x8a => Some(Instruction::DUP11),
            0x8b => Some(Instruction::DUP12),
            0x8c => Some(Instruction::DUP13),
            0x8d => Some(Instruction::DUP14),
            0x8e => Some(Instruction::DUP15),
            0x8f => Some(Instruction::DUP16),
            0x90 => Some(Instruction::SWAP1),
            0x91 => Some(Instruction::SWAP2),
            0x92 => Some(Instruction::SWAP3),
            0x93 => Some(Instruction::SWAP4),
            0x94 => Some(Instruction::SWAP5),
            0x95 => Some(Instruction::SWAP6),
            0x96 => Some(Instruction::SWAP7),
            0x97 => Some(Instruction::SWAP8),
            0x98 => Some(Instruction::SWAP9),
            0x99 => Some(Instruction::SWAP10),
            0x9a => Some(Instruction::SWAP11),
            0x9b => Some(Instruction::SWAP12),
            0x9c => Some(Instruction::SWAP13),
            0x9d => Some(Instruction::SWAP14),
            0x9e => Some(Instruction::SWAP15),
            0x9f => Some(Instruction::SWAP16),
            0xa0 => Some(Instruction::LOG0),
            0xa1 => Some(Instruction::LOG1),
            0xa2 => Some(Instruction::LOG2),
            0xa3 => Some(Instruction::LOG3),
            0xa4 => Some(Instruction::LOG4),
            0xf0 => Some(Instruction::CREATE),
            0xf1 => Some(Instruction::CALL),
            0xf2 => Some(Instruction::CALLCODE),
            0xf3 => Some(Instruction::RETURN),
            0xf4 => Some(Instruction::DELEGATECALL),
            0xf5 => Some(Instruction::CREATE2),
            0xfa => Some(Instruction::STATICCALL),
            0xfd => Some(Instruction::REVERT),
            0xfe => Some(Instruction::INVALID),
            0xff => Some(Instruction::SELFDESTRUCT),
            _ => None,
        }
    }

    /// The table entry of the instruction.
    #[verifier::when_used_as_spec(spec_info)]
    pub fn info(self) -> (r: InstructionInfo)
        ensures
            r == self.spec_info(),
    {
        match self {
            Instruction::STOP => InstructionInfo { name: "STOP", args: 0, ret: 0 },
            Instruction::ADD => InstructionInfo { name: "ADD", args: 2, ret: 1 },
            Instruction::MUL => InstructionInfo { name: "MUL", args: 2, ret: 1 },
            Instruction::SUB => InstructionInfo { name: "SUB", args: 2, ret: 1 },
            Instruction::DIV => InstructionInfo { name: "DIV", args: 2, ret: 1 },
            Instruction::SDIV => InstructionInfo { name: "SDIV", args: 2, ret: 1 },
            Instruction::MOD => InstructionInfo { name: "MOD", args: 2, ret: 1 },
            Instruction::SMOD => InstructionInfo { name: "SMOD", args: 2, ret: 1 },
            Instruction::ADDMOD => InstructionInfo { name: "ADDMOD", args: 3, ret: 1 },
            Instruction::MULMOD => InstructionInfo { name: "MULMOD", args: 3, ret: 1 },
            Instruction::EXP => InstructionInfo { name: "EXP", args: 2, ret: 1 },
            Instruction::SIGNEXTEND => InstructionInfo { name: "SIGNEXTEND", args: 2, ret: 1 },
            Instruction::LT => InstructionInfo { name: "LT", args: 2, ret: 1 },
            Instruction::GT => InstructionInfo { name: "GT", args: 2, ret: 1 },
            Instruction::SLT => InstructionInfo { name: "SLT", args: 2, ret: 1 },
            Instruction::SGT => InstructionInfo { name: "SGT", args: 2, ret: 1 },
            Instruction::EQ => InstructionInfo { name: "EQ", args: 2, ret: 1 },
            Instruction::ISZERO => InstructionInfo { name: "ISZERO", args: 1, ret: 1 },
            Instruction::AND => InstructionInfo { name: "AND", args: 2, ret: 1 },
            Instruction::OR => InstructionInfo { name: "OR", args: 2, ret: 1 },
            Instruction::XOR => InstructionInfo { name: "XOR", args: 2, ret: 1 },
            Instruction::NOT => InstructionInfo { name: "NOT", args: 1, ret: 1 },
            Instruction::BYTE => InstructionInfo { name: "BYTE", args: 2, ret: 1 },
            Instruction::SHL => InstructionInfo { name: "SHL", args: 2, ret: 1 },
            Instruction::SHR => InstructionInfo { name: "SHR", args: 2, ret: 1 },
            Instruction::SAR => InstructionInfo { name: "SAR", args: 2, ret: 1 },
            Instruction::SHA3 => InstructionInfo { name: "SHA3", args: 2, ret: 1 },
            Instruction::ADDRESS => InstructionInfo { name: "ADDRESS", args: 0, ret: 1 },
            Instruction::BALANCE => InstructionInfo { name: "BALANCE", args: 1, ret: 1 },
            Instruction::ORIGIN => InstructionInfo { name: "ORIGIN", args: 0, ret: 1 },
            Instruction::CALLER => InstructionInfo { name: "CALLER", args: 0, ret: 1 },
            Instruction::CALLVALUE => InstructionInfo { name: "CALLVALUE", args: 0, ret: 1 },
            Instruction::CALLDATALOAD => InstructionInfo { name: "CALLDATALOAD", args: 1, ret: 1 },
            Instruction::CALLDATASIZE => InstructionInfo { name: "CALLDATASIZE", args: 0, ret: 1 },
            Instruction::CALLDATACOPY => InstructionInfo { name: "CALLDATACOPY", args: 3, ret: 0 },
            Instruction::CODESIZE => InstructionInfo { name: "CODESIZE", args: 0, ret: 1 },
            Instruction::CODECOPY => InstructionInfo { name: "CODECOPY", args: 3, ret: 0 },
            Instruction::GASPRICE => InstructionInfo { name: "GASPRICE", args: 0, ret: 1 },
            Instruction::EXTCODESIZE => InstructionInfo { name: "EXTCODESIZE", args: 1, ret: 1 },
            Instruction::EXTCODECOPY => InstructionInfo { name: "EXTCODECOPY", args: 4, ret: 0 },
            Instruction::RETURNDATASIZE => InstructionInfo { name: "RETURNDATASIZE", args: 0, ret: 1 },
            Instruction::RETURNDATACOPY => InstructionInfo { name: "RETURNDATACOPY", args: 3, ret: 0 },
            Instruction::EXTCODEHASH => InstructionInfo { name: "EXTCODEHASH", args: 1, ret: 1 },
            Instruction::BLOCKHASH => InstructionInfo { name: "BLOCKHASH", args: 1, ret: 1 },
            Instruction::COINBASE => InstructionInfo { name: "COINBASE", args: 0, ret: 1 },
            Instruction::TIMESTAMP => InstructionInfo { name: "TIMESTAMP", args: 0, ret: 1 },
            Instruction::NUMBER => InstructionInfo { name: "NUMBER", args: 0, ret: 1 },
            Instruction::DIFFICULTY => InstructionInfo { name: "DIFFICULTY", args: 0, ret: 1 },
            Instruction::GASLIMIT => InstructionInfo { name: "GASLIMIT", args: 0, ret: 1 },
            Instruction::CHAINID => InstructionInfo { name: "CHAINID", args: 0, ret: 1 },
            Instruction::SELFBALANCE => InstructionInfo { name: "SELFBALANCE", args: 0, ret: 1 },
            Instruction::BASEFEE => InstructionInfo { name: "BASEFEE", args: 0, ret: 1 },
            Instruction::POP => InstructionInfo { name: "POP", args: 1, ret: 0 },
            Instruction::MLOAD => InstructionInfo { name: "MLOAD", args: 1, ret: 1 },
            Instruction::MSTORE => InstructionInfo { name: "MSTORE", args: 2, ret: 0 },
            Instruction::MSTORE8 => InstructionInfo { name: "MSTORE8", args: 2, ret: 0 },
            Instruction::SLOAD => InstructionInfo { name: "SLOAD", args: 1, ret: 1 },
            Instruction::SSTORE => InstructionInfo { name: "SSTORE", args: 2, ret: 0 },
            Instruction::JUMP => InstructionInfo { name: "JUMP", args: 1, ret: 0 },
            Instruction::JUMPI => InstructionInfo { name: "JUMPI", args: 2, ret: 0 },
            Instruction::PC => InstructionInfo { name: "PC", args: 0, ret: 1 },
            Instruction::MSIZE => InstructionInfo { name: "MSIZE", args: 0, ret: 1 },
            Instruction::GAS => InstructionInfo { name: "GAS", args: 0, ret: 1 },
            Instruction::JUMPDEST => InstructionInfo { name: "JUMPDEST", args: 0, ret: 0 },
            Instruction::PUSH1 => InstructionInfo { name: "PUSH1", args: 0, ret: 1 },
            Instruction::PUSH2 => InstructionInfo { name: "PUSH2", args: 0, ret: 1 },
            Instruction::PUSH3 => InstructionInfo { name: "PUSH3", args: 0, ret: 1 },
            Instruction::PUSH4 => InstructionInfo { name: "PUSH4", args: 0, ret: 1 },
            Instruction::PUSH5 => InstructionInfo { name: "PUSH5", args: 0, ret: 1 },
            Instruction::PUSH6 => InstructionInfo { name: "PUSH6", args: 0, ret: 1 },
            Instruction::PUSH7 => InstructionInfo { name: "PUSH7", args: 0, ret: 1 },
            Instruction::PUSH8 => InstructionInfo { name: "PUSH8", args: 0, ret: 1 },
            Instruction::PUSH9 => InstructionInfo { name: "PUSH9", args: 0, ret: 1 },
            Instruction::PUSH10 => InstructionInfo { name: "PUSH10", args: 0, ret: 1 },
            Instruction::PUSH11 => InstructionInfo { name: "PUSH11", args: 0, ret: 1 },
            Instruction::PUSH12 => InstructionInfo { name: "PUSH12", args: 0, ret: 1 },
            Instruction::PUSH13 => InstructionInfo { name: "PUSH13", args: 0, ret: 1 },
            Instruction::PUSH14 => InstructionInfo { name: "PUSH14", args: 0, ret: 1 },
            Instruction::PUSH15 => InstructionInfo { name: "PUSH15", args: 0, ret: 1 },
            Instruction::PUSH16 => InstructionInfo { name: "PUSH16", args: 0, ret: 1 },
            Instruction::PUSH17 => InstructionInfo { name: "PUSH17", args: 0, ret: 1 },
            Instruction::PUSH18 => InstructionInfo { name: "PUSH18", args: 0, ret: 1 },
            Instruction::PUSH19 => InstructionInfo { name: "PUSH19", args: 0, ret: 1 },
            Instruction::PUSH20 => InstructionInfo { name: "PUSH20", args: 0, ret: 1 },
            Instruction::PUSH21 => InstructionInfo { name: "PUSH21", args: 0, ret: 1 },
            Instruction::PUSH22 => InstructionInfo { name: "PUSH22", args: 0, ret: 1 },
            Instruction::PUSH23 => InstructionInfo { name: "PUSH23", args: 0, ret: 1 },
            Instruction::PUSH24 => InstructionInfo { name: "PUSH24", args: 0, ret: 1 },
            Instruction::PUSH25 => InstructionInfo { name: "PUSH25", args: 0, ret: 1 },
            Instruction::PUSH26 => InstructionInfo { name: "PUSH26", args: 0, ret: 1 },
            Instruction::PUSH27 => InstructionInfo { name: "PUSH27", args: 0, ret: 1 },
            Instruction::PUSH28 => InstructionInfo { name: "PUSH28", args: 0, ret: 1 },
            Instruction::PUSH29 => InstructionInfo { name: "PUSH29", args: 0, ret: 1 },
            Instruction::PUSH30 => InstructionInfo { name: "PUSH30", args: 0, ret: 1 },
            Instruction::PUSH31 => InstructionInfo { name: "PUSH31", args: 0, ret: 1 },
            Instruction::PUSH32 => InstructionInfo { name: "PUSH32", args: 0, ret: 1 },
            Instruction::DUP1 => InstructionInfo { name: "DUP1", args: 1, ret: 2 },
            Instruction::DUP2 => InstructionInfo { name: "DUP2", args: 2, ret: 3 },
            Instruction::DUP3 => InstructionInfo { name: "DUP3", args: 3, ret: 4 },
            Instruction::DUP4 => InstructionInfo { name: "DUP4", args: 4, ret: 5 },
            Instruction::DUP5 => InstructionInfo { name: "DUP5", args: 5, ret: 6 },
            Instruction::DUP6 => InstructionInfo { name: "DUP6", args: 6, ret: 7 },
            Instruction::DUP7 => InstructionInfo { name: "DUP7", args: 7, ret: 8 },
            Instruction::DUP8 => InstructionInfo { name: "DUP8", args: 8, ret: 9 },
            Instruction::DUP9 => InstructionInfo { name: "DUP9", args: 9, ret: 10 },
            Instruction::DUP10 => InstructionInfo { name: "DUP10", args: 10, ret: 11 },
            Instruction::DUP11 => InstructionInfo { name: "DUP11", args: 11, ret: 12 },
            Instruction::DUP12 => InstructionInfo { name: "DUP12", args: 12, ret: 13 },
            Instruction::DUP13 => InstructionInfo { name: "DUP13", args: 13, ret: 14 },
            Instruction::DUP14 => InstructionInfo { name: "DUP14", args: 14, ret: 15 },
            Instruction::DUP15 => InstructionInfo { name: "DUP15", args: 15, ret: 16 },
            Instruction::DUP16 => InstructionInfo { name: "DUP16", args: 16, ret: 17 },
            Instruction::SWAP1 => InstructionInfo { name: "SWAP1", args: 2, ret: 2 },
            Instruction::SWAP2 => InstructionInfo { name: "SWAP2", args: 3, ret: 3 },
            Instruction::SWAP3 => InstructionInfo { name: "SWAP3", args: 4, ret: 4 },
            Instruction::SWAP4 => InstructionInfo { name: "SWAP4", args: 5, ret: 5 },
            Instruction::SWAP5 => InstructionInfo { name: "SWAP5", args: 6, ret: 6 },
            Instruction::SWAP6 => InstructionInfo { name: "SWAP6", args: 7, ret: 7 },
            Instruction::SWAP7 => InstructionInfo { name: "SWAP7", args: 8, ret: 8 },
            Instruction::SWAP8 => InstructionInfo { name: "SWAP8", args: 9, ret: 9 },
            Instruction::SWAP9 => InstructionInfo { name: "SWAP9", args: 10, ret: 10 },
            Instruction::SWAP10 => InstructionInfo { name: "SWAP10", args: 11, ret: 11 },
            Instruction::SWAP11 => InstructionInfo { name: "SWAP11", args: 12, ret: 12 },
            Instruction::SWAP12 => InstructionInfo { name: "SWAP12", args: 13, ret: 13 },
            Instruction::SWAP13 => InstructionInfo { name: "SWAP13", args: 14, ret: 14 },
            Instruction::SWAP14 => InstructionInfo { name: "SWAP14", args: 15, ret: 15 },
            Instruction::SWAP15 => InstructionInfo { name: "SWAP15", args: 16, ret: 16 },
            Instruction::SWAP16 => InstructionInfo { name: "SWAP16", args: 17, ret: 17 },
            Instruction::LOG0 => InstructionInfo { name: "LOG0", args: 2, ret: 0 },
            Instruction::LOG1 => InstructionInfo { name: "LOG1", args: 3, ret: 0 },
            Instruction::LOG2 => InstructionInfo { name: "LOG2", args: 4, ret: 0 },
            Instruction::LOG3 => InstructionInfo { name: "LOG3", args: 5, ret: 0 },
            Instruction::LOG4 => InstructionInfo { name: "LOG4", args: 6, ret: 0 },
            Instruction::CREATE => InstructionInfo { name: "CREATE", args: 3, ret: 1 },
            Instruction::CALL => InstructionInfo { name: "CALL", args: 7, ret: 1 },
            Instruction::CALLCODE => InstructionInfo { name: "CALLCODE", args: 7, ret: 1 },
            Instruction::RETURN => InstructionInfo { name: "RETURN", args: 2, ret: 0 },
            Instruction::DELEGATECALL => InstructionInfo { name: "DELEGATECALL", args: 6, ret: 1 },
            Instruction::CREATE2 => InstructionInfo { name: "CREATE2", args: 4, ret: 1 },
            Instruction::STATICCALL => InstructionInfo { name: "STATICCALL", args: 6, ret: 1 },
            Instruction::REVERT => InstructionInfo { name: "REVERT", args: 2, ret: 0 },
            Instruction::INVALID => InstructionInfo { name: "INVALID", args: 0, ret: 0 },
            Instruction::SELFDESTRUCT => InstructionInfo { name: "SELFDESTRUCT", args: 1, ret: 0 },
        }
    }

    /// The number of immediate bytes of a `PUSH`, `None` for any other instruction.
    #[verifier::when_used_as_spec(spec_push_bytes)]
    pub fn push_bytes(self) -> (r: Option<usize>)
        ensures
            r == self.spec_push_bytes(),
    {
        match self {
            Instruction::PUSH1 => Some(1),
            Instruction::PUSH2 => Some(2),
            Instruction::PUSH3 => Some(3),
            Instruction::PUSH4 => Some(4),
            Instruction::PUSH5 => Some(5),
            Instruction::PUSH6 => Some(6),
            Instruction::PUSH7 => Some(7),
            Instruction::PUSH8 => Some(8),
            Instruction::PUSH9 => Some(9),
            Instruction::PUSH10 => Some(10),
            Instruction::PUSH11 => Some(11),
            Instruction::PUSH12 => Some(12),
            Instruction::PUSH13 => Some(13),
            Instruction::PUSH14 => Some(14),
            Instruction::PUSH15 => Some(15),
            Instruction::PUSH16 => Some(16),
            Instruction::PUSH17 => Some(17),
            Instruction::PUSH18 => Some(18),
            Instruction::PUSH19 => Some(19),
            Instruction::PUSH20 => Some(20),
            Instruction::PUSH21 => Some(21),
            Instruction::PUSH22 => Some(22),
            Instruction::PUSH23 => Some(23),
            Instruction::PUSH24 => Some(24),
            Instruction::PUSH25 => Some(25),
            Instruction::PUSH26 => Some(26),
            Instruction::PUSH27 => Some(27),
            Instruction::PUSH28 => Some(28),
            Instruction::PUSH29 => Some(29),
            Instruction::PUSH30 => Some(30),
            Instruction::PUSH31 => Some(31),
            Instruction::PUSH32 => Some(32),
            _ => None,
        }
    }

    /// The position that a `DUP` copies, `None` for any other instruction.
    #[verifier::when_used_as_spec(spec_dup_position)]
    pub fn dup_position(self) -> (r: Option<usize>)
        ensures
            r == self.spec_dup_position(),
    {
        match self {
            Instruction::DUP1 => Some(0),
            Instruction::DUP2 => Some(1),
            Instruction::DUP3 => Some(2),
            Instruction::DUP4 => Some(3),
            Instruction::DUP5 => Some(4),
            Instruction::DUP6 => Some(5),
            Instruction::DUP7 => Some(6),
            Instruction::DUP8 => Some(7),
            Instruction::DUP9 => Some(8),
            Instruction::DUP10 => Some(9),
            Instruction::DUP11 => Some(10),
            Instruction::DUP12 => Some(11),
            Instruction::DUP13 => Some(12),
            Instruction::DUP14 => Some(13),
            Instruction::DUP15 => Some(14),
            Instruction::DUP16 => Some(15),
            _ => None,
        }
    }

    /// The position that a `SWAP` exchanges with the top, `None` for any other
    /// instruction.
    #[verifier::when_used_as_spec(spec_swap_position)]
    pub fn swap_position(self) -> (r: Option<usize>)
        ensures
            r == self.spec_swap_position(),
    {
        match self {
            Instruction::SWAP1 => Some(1),
            Instruction::SWAP2 => Some(2),
            Instruction::SWAP3 => Some(3),
            Instruction::SWAP4 => Some(4),
            Instruction::SWAP5 => Some(5),
            Instruction::SWAP6 => Some(6),
            Instruction::SWAP7 => Some(7),
            Instruction::SWAP8 => Some(8),
            Instruction::SWAP9 => Some(9),
            Instruction::SWAP10 => Some(10),
            Instruction::SWAP11 => Some(11),
            Instruction::SWAP12 => Some(12),
            Instruction::SWAP13 => Some(13),
            Instruction::SWAP14 => Some(14),
            Instruction::SWAP15 => Some(15),
            Instruction::SWAP16 => Some(16),
            _ => None,
        }
    }

    /// Whether the instruction ends execution.
    #[verifier::when_used_as_spec(spec_stops)]
    pub fn stops(self) -> (r: bool)
        ensures
            r == self.spec_stops(),
    {
        match self {
            Instruction::STOP => true,
            Instruction::RETURN => true,
            Instruction::REVERT => true,
            Instruction::SELFDESTRUCT => true,
            Instruction::INVALID => true,
            _ => false,
        }
    }

    /// Whether the instruction is `JUMP` or `JUMPI`.
    #[verifier::when_used_as_spec(spec_is_jump)]
    pub fn is_jump(self) -> (r: bool)
        ensures
            r == self.spec_is_jump(),
    {
        match self {
            Instruction::JUMP => true,
            Instruction::JUMPI => true,
            _ => false,
        }
    }

    /// Whether the instruction pushes a value that is known from the code alone.
    #[verifier::when_used_as_spec(spec_pushes_constant)]
    pub fn pushes_constant(self) -> (r: bool)
        ensures
            r == self.spec_pushes_constant(),
    {
        match self {
            Instruction::PC => true,
            _ => self.push_bytes().is_some(),
        }
    }

    /// Decoding is the inverse of the opcode table: a byte decodes to an
    /// instruction exactly if it is the opcode of that instruction. The bytes
    /// that decode are the opcodes.
    pub proof fn lemma_spec_from_u8(value: u8)
        ensures
            Instruction::spec_from_u8(value) is Some <==> is_opcode(value),
            forall|inst: Instruction|
                Instruction::spec_from_u8(value) == Some(inst) <==> #[trigger] inst.spec_opcode()
                    == value,
    {
    }

    /// How many items the kinds of instructions take and leave: an instruction
    /// that pushes a constant takes none and leaves one; a `DUP` leaves one more
    /// than it takes, a `SWAP` as many; any other instruction takes at most
    /// seven and leaves at most one.
    pub proof fn lemma_stack_effect(self)
        ensures
            self.spec_pushes_constant() ==> self.spec_info().args == 0 && self.spec_info().ret
                == 1,
            self.spec_dup_position() is Some ==> self.spec_info().ret == self.spec_info().args
                + 1,
            self.spec_swap_position() is Some ==> self.spec_info().ret == self.spec_info().args,
            self.spec_dup_position() is None && self.spec_swap_position() is None
                ==> self.spec_info().args <= 7 && self.spec_info().ret <= 1,
    {
    }

    /// Two instructions with the same opcode are the same instruction.
    pub proof fn lemma_opcode_injective(a: Instruction, b: Instruction)
        requires
            a.spec_opcode() == b.spec_opcode(),
        ensures
            a == b,
    {
    }
}

} // verus!
