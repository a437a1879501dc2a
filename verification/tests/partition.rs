use evm2cpp::block::BasicBlock;
use evm2cpp::codemeta::CodeMeta;
use evm2cpp::hex::read_hex;
use evm2cpp::hex::ParseHexError;
use evm2cpp::instructions::Instruction;
use evm2cpp::operand::Operand;
use evm2cpp::program::Program;
use evm2cpp::sourcemap::JumpType;
use evm2cpp::word::Word;

#[test]
fn hex_is_read_with_and_without_prefix() {
    assert_eq!(read_hex("0x60ff56"), Ok(vec![0x60, 0xff, 0x56]));
    assert_eq!(read_hex("60ff56"), Ok(vec![0x60, 0xff, 0x56]));
    assert_eq!(read_hex("60FF5b"), Ok(vec![0x60, 0xff, 0x5b]));
    assert_eq!(read_hex(""), Ok(vec![]));
    assert_eq!(read_hex("0x"), Ok(vec![]));
    assert_eq!(read_hex("0001"), Ok(vec![0x00, 0x01]));
}

#[test]
fn hex_errors() {
    assert_eq!(read_hex("0x6"), Err(ParseHexError::TooShort));
    assert_eq!(read_hex("600"), Err(ParseHexError::TooShort));
    assert_eq!(read_hex("0x60fg"), Err(ParseHexError::InvalidCharacter));
    assert_eq!(read_hex("60 ff"), Err(ParseHexError::InvalidCharacter));
    assert_eq!(read_hex("0X60"), Err(ParseHexError::InvalidCharacter));
    assert_eq!(read_hex("6g0"), Err(ParseHexError::InvalidCharacter));
    assert_eq!(read_hex("\u{e9}\u{e9}"), Err(ParseHexError::InvalidCharacter));
}

#[test]
fn instruction_table() {
    assert_eq!(Instruction::from_u8(0x00), Some(Instruction::STOP));
    assert_eq!(Instruction::from_u8(0x01), Some(Instruction::ADD));
    assert_eq!(Instruction::from_u8(0x56), Some(Instruction::JUMP));
    assert_eq!(Instruction::from_u8(0x5b), Some(Instruction::JUMPDEST));
    assert_eq!(Instruction::from_u8(0x60), Some(Instruction::PUSH1));
    assert_eq!(Instruction::from_u8(0x7f), Some(Instruction::PUSH32));
    assert_eq!(Instruction::from_u8(0x80), Some(Instruction::DUP1));
    assert_eq!(Instruction::from_u8(0x9f), Some(Instruction::SWAP16));
    assert_eq!(Instruction::from_u8(0xff), Some(Instruction::SELFDESTRUCT));
    assert_eq!(Instruction::from_u8(0x0c), None);
    assert_eq!(Instruction::from_u8(0x21), None);
    assert_eq!(Instruction::from_u8(0xa5), None);
    assert_eq!(Instruction::from_u8(0xef), None);

    let add = Instruction::ADD.info();
    assert_eq!((add.name, add.args, add.ret), ("ADD", 2, 1));
    let call = Instruction::CALL.info();
    assert_eq!((call.name, call.args, call.ret), ("CALL", 7, 1));
    let log3 = Instruction::LOG3.info();
    assert_eq!((log3.name, log3.args, log3.ret), ("LOG3", 5, 0));
    let stop = Instruction::STOP.info();
    assert_eq!((stop.name, stop.args, stop.ret), ("STOP", 0, 0));

    assert_eq!(Instruction::PUSH1.push_bytes(), Some(1));
    assert_eq!(Instruction::PUSH32.push_bytes(), Some(32));
    assert_eq!(Instruction::ADD.push_bytes(), None);
    assert_eq!(Instruction::DUP1.dup_position(), Some(0));
    assert_eq!(Instruction::DUP16.dup_position(), Some(15));
    assert_eq!(Instruction::SWAP1.dup_position(), None);
    assert_eq!(Instruction::SWAP1.swap_position(), Some(1));
    assert_eq!(Instruction::SWAP16.swap_position(), Some(16));
    assert_eq!(Instruction::DUP1.swap_position(), None);

    assert!(Instruction::STOP.stops());
    assert!(Instruction::RETURN.stops());
    assert!(Instruction::REVERT.stops());
    assert!(Instruction::SELFDESTRUCT.stops());
    assert!(Instruction::INVALID.stops());
    assert!(!Instruction::JUMP.stops());
    assert!(Instruction::JUMP.is_jump());
    assert!(Instruction::JUMPI.is_jump());
    assert!(!Instruction::JUMPDEST.is_jump());
    assert!(Instruction::PUSH7.pushes_constant());
    assert!(Instruction::PC.pushes_constant());
    assert!(!Instruction::CODESIZE.pushes_constant());
    assert!(!Instruction::DUP1.pushes_constant());
}

#[test]
fn jump_type_letters() {
    assert_eq!(JumpType::parse('i'), Some(JumpType::Call));
    assert_eq!(JumpType::parse('o'), Some(JumpType::Return));
    assert_eq!(JumpType::parse('-'), Some(JumpType::Jump));
    assert_eq!(JumpType::parse('x'), None);
    assert_eq!(JumpType::parse('I'), None);
}

#[test]
fn code_meta_marks_jump_destinations_and_data() {
    // 0: PUSH1 0x5b; 2: JUMPDEST; 3: PUSH2 0x5b 0x5b; 6: STOP
    let code = read_hex("0x605b5b615b5b00").unwrap();
    let meta = CodeMeta::new(&code);
    assert_eq!(meta.len(), 7);
    assert!(!meta.is_empty());
    let jumpdests: Vec<bool> = (0..8).map(|i| meta.is_valid_jumpdest(i)).collect();
    assert_eq!(jumpdests, vec![false, false, true, false, false, false, false, false]);
    let instructions: Vec<bool> = (0..8).map(|i| meta.is_instruction(i)).collect();
    assert_eq!(instructions, vec![true, false, true, true, false, false, true, false]);
    assert!(!meta.is_valid_jumpdest(usize::MAX));
    assert!(!meta.is_instruction(usize::MAX));
    let copy = meta.clone();
    assert_eq!(copy, meta);
    assert!(copy.is_valid_jumpdest(2));
    assert!(!copy.is_instruction(1));
}

#[test]
fn code_meta_of_a_push_that_the_code_cuts_short() {
    // 0: JUMPDEST; 1: PUSH4 with two of its four bytes
    let code = read_hex("0x5b635b5b").unwrap();
    let meta = CodeMeta::new(&code);
    assert_eq!(meta.len(), 4);
    assert!(meta.is_valid_jumpdest(0));
    assert!(!meta.is_valid_jumpdest(2));
    assert!(!meta.is_valid_jumpdest(3));
    assert!(meta.is_instruction(1));
    assert!(!meta.is_instruction(2));
    assert!(!meta.is_instruction(3));

    let only_push = CodeMeta::new(&[0x7f]);
    assert_eq!(only_push.len(), 1);
    assert!(only_push.is_instruction(0));

    let empty = CodeMeta::new(&[]);
    assert_eq!(empty.len(), 0);
    assert!(empty.is_empty());
    assert!(!empty.is_instruction(0));
}

#[test]
fn code_meta_treats_unknown_bytes_as_instructions() {
    // 0: 0x0c is no opcode; 1: JUMPDEST
    let meta = CodeMeta::new(&[0x0c, 0x5b]);
    assert!(meta.is_instruction(0));
    assert!(meta.is_instruction(1));
    assert!(meta.is_valid_jumpdest(1));
}

#[test]
fn blocks_end_at_jumps_halts_and_before_jump_destinations() {
    let code = read_hex("0x600456005b600456").unwrap();
    let program = Program::new(&code);
    assert_eq!(program.bytecode, code);
    assert_eq!(program.basic_blocks.len(), 3);

    let b0 = &program.basic_blocks[0];
    assert_eq!(b0.address, 0);
    let addresses: Vec<usize> = b0.instructions.iter().map(|i| i.address).collect();
    assert_eq!(addresses, vec![0, 2]);
    assert_eq!(b0.instructions[1].opcode, Ok(Instruction::JUMP));

    let b1 = &program.basic_blocks[1];
    assert_eq!(b1.address, 3);
    assert_eq!(b1.instructions.len(), 1);
    assert_eq!(b1.instructions[0].opcode, Ok(Instruction::STOP));
    assert_eq!(b1.instructions[0].address, 3);

    let b2 = &program.basic_blocks[2];
    assert_eq!(b2.address, 4);
    let addresses: Vec<usize> = b2.instructions.iter().map(|i| i.address).collect();
    assert_eq!(addresses, vec![4, 5, 7]);
    assert_eq!(b2.instructions[0].opcode, Ok(Instruction::JUMPDEST));
    assert_eq!(b2.instructions[2].opcode, Ok(Instruction::JUMP));

    // the numbers of the instructions count up through the program
    let numbers: Vec<usize> = program
        .basic_blocks
        .iter()
        .flat_map(|b| b.instructions.iter().map(|i| i.global_idx))
        .collect();
    assert_eq!(numbers, vec![0, 1, 2, 3, 4, 5]);

    assert!(program.meta.is_valid_jumpdest(4));
    assert!(!program.meta.is_instruction(1));
    for b in program.basic_blocks.iter() {
        assert!(!b.optimized);
        assert!(!b.ends_on_invalid);
        assert!(b.returns.is_empty());
        assert!(b.stack_sets.is_empty());
        assert_eq!(b.pops_at_end, 0);
    }
}

#[test]
fn a_block_ends_before_a_jump_destination() {
    // 0: PUSH1 1; 2: JUMPDEST; 3: ADD
    let code = read_hex("0x60015b01").unwrap();
    let (b0, next) = BasicBlock::parse(&code, 0, 0);
    assert_eq!(next, 2);
    assert_eq!(b0.instructions.len(), 1);
    let (b1, next) = BasicBlock::parse(&code, 2, 1);
    assert_eq!(next, 4);
    assert_eq!(b1.address, 2);
    assert_eq!(b1.instructions.len(), 2);
    assert_eq!(b1.instructions[0].global_idx, 1);
    assert_eq!(b1.instructions[1].global_idx, 2);
    let (b2, next) = BasicBlock::parse(&code, 4, 3);
    assert_eq!(next, 4);
    assert_eq!(b2.address, 4);
    assert!(b2.instructions.is_empty());
}

#[test]
fn a_byte_that_is_no_opcode_ends_its_block() {
    // 0: PUSH1 1; 2: 0x0c; 3: STOP
    let code = read_hex("0x60010c00").unwrap();
    let program = Program::new(&code);
    assert_eq!(program.basic_blocks.len(), 2);
    let b0 = &program.basic_blocks[0];
    assert!(b0.ends_on_invalid);
    assert_eq!(b0.instructions.len(), 2);
    let bad = &b0.instructions[1];
    assert_eq!(bad.opcode, Err(0x0c));
    assert_eq!(bad.address, 2);
    assert!(bad.operands.is_none());
    assert!(bad.value.is_none());
    assert!(!bad.is_constant);
    assert_eq!(bad.get_name(), "invalid");
    assert_eq!(b0.instructions[0].get_name(), "push1");
    let b1 = &program.basic_blocks[1];
    assert!(!b1.ends_on_invalid);
    assert_eq!(b1.address, 3);
    assert_eq!(b1.instructions[0].get_name(), "stop");
}

#[test]
fn instructions_carry_their_constants() {
    // 0: PUSH2 0x0102; 3: PC; 4: CODESIZE; 5: PUSH32 ..; 38: PUSH3 with one byte
    let mut code = vec![0x61, 0x01, 0x02, 0x58, 0x38, 0x7f];
    for i in 0..32u8 {
        code.push(0xe0 + i);
    }
    code.push(0x62);
    code.push(0xab);
    let (bb, next) = BasicBlock::parse(&code, 0, 10);
    assert_eq!(next, 42);
    assert_eq!(bb.instructions.len(), 5);

    let i0 = &bb.instructions[0];
    assert_eq!(i0.value, Some(vec![Word::from_u64(0x0102)]));
    assert!(i0.is_constant);
    assert!(!i0.ignoreable);
    assert!(i0.operands.is_none());
    assert_eq!(i0.global_idx, 10);

    let i1 = &bb.instructions[1];
    assert_eq!(i1.opcode, Ok(Instruction::PC));
    assert_eq!(i1.value, Some(vec![Word::from_u64(3)]));
    assert!(i1.is_constant);

    let i2 = &bb.instructions[2];
    assert_eq!(i2.opcode, Ok(Instruction::CODESIZE));
    assert_eq!(i2.value, Some(vec![Word::from_u64(40)]));
    assert!(!i2.is_constant);

    let i3 = &bb.instructions[3];
    assert_eq!(i3.address, 5);
    let expected = Word {
        limb3: 0xe0e1_e2e3_e4e5_e6e7,
        limb2: 0xe8e9_eaeb_eced_eeef,
        limb1: 0xf0f1_f2f3_f4f5_f6f7,
        limb0: 0xf8f9_fafb_fcfd_feff,
    };
    assert_eq!(i3.value, Some(vec![expected]));

    let i4 = &bb.instructions[4];
    assert_eq!(i4.address, 38);
    assert_eq!(i4.opcode, Ok(Instruction::PUSH3));
    assert_eq!(i4.value, Some(vec![Word::from_u64(0xab)]));
    assert_eq!(i4.global_idx, 14);
}

#[test]
fn a_push_at_the_very_end_carries_zero() {
    let (bb, next) = BasicBlock::parse(&[0x00, 0x60], 1, 0);
    assert_eq!(next, 3);
    assert_eq!(bb.address, 1);
    assert_eq!(bb.instructions.len(), 1);
    assert_eq!(bb.instructions[0].value, Some(vec![Word::from_u64(0)]));
}

#[test]
fn operands_before_optimization() {
    // 0: DUP3; 1: SWAP2; 2: ADD; 3: ADDRESS; 4: CALL; 5: STOP
    let code = read_hex("0x8291013000f100").unwrap();
    let (bb, _) = BasicBlock::parse(&code, 0, 0);
    assert_eq!(bb.instructions[0].operands, Some(vec![Operand::StackRef((0, 2))]));
    assert_eq!(
        bb.instructions[1].operands,
        Some(vec![Operand::StackRef((1, 0)), Operand::StackRef((1, 2))])
    );
    assert_eq!(
        bb.instructions[2].operands,
        Some(vec![Operand::StackPop((2, 0)), Operand::StackPop((2, 1))])
    );
    assert_eq!(bb.instructions[3].operands, None);
    assert_eq!(bb.instructions.len(), 5);
    assert_eq!(bb.instructions[4].opcode, Ok(Instruction::STOP));
}

#[test]
fn the_program_of_empty_code_has_no_blocks() {
    let program = Program::new(&[]);
    assert!(program.basic_blocks.is_empty());
    assert!(program.meta.is_empty());
    assert!(program.bytecode.is_empty());
}

#[test]
fn the_blocks_tile_the_code() {
    let code = read_hex("0x6080604052348015600e575f5ffd5b50603e80601a5f395ff3fe60806040525f5ffdfea2").unwrap();
    let program = Program::new(&code);
    let mut expected_start = 0;
    let mut last_address = None;
    let mut number = 0;
    for block in program.basic_blocks.iter() {
        assert_eq!(block.address, expected_start);
        assert!(!block.instructions.is_empty());
        assert_eq!(block.instructions[0].address, block.address);
        for inst in block.instructions.iter() {
            assert_eq!(inst.address, expected_start);
            assert!(inst.address < code.len());
            if let Some(last) = last_address {
                assert!(last < inst.address);
            }
            last_address = Some(inst.address);
            assert_eq!(inst.global_idx, number);
            number += 1;
            let immediate = match inst.opcode {
                Ok(op) => op.push_bytes().unwrap_or(0),
                Err(_) => 0,
            };
            expected_start = inst.address + 1 + immediate;
            assert_eq!(program.meta.is_instruction(inst.address), true);
        }
    }
    assert!(expected_start >= code.len());
}
