use evm2cpp::analysis::BasicBlock;
use evm2cpp::analysis::Operand;
use evm2cpp::analysis::Program;
use evm2cpp::analysis::Word;
use evm2cpp::hex::read_hex;
use evm2cpp::instructions::Instruction;

#[test]
fn u256_const_equalities() {
    assert_eq!(Word::one(), Word::from(1));
    assert!(!Word::one().is_zero());
    assert_eq!(Word::zero(), Word::from(0));
    assert!(Word::zero().is_zero());
}

#[test]
fn build_program() {
    // 0: PUSH1 0x4 [60 04];
    // 2: JUMP [56]; branches to loc_4
    // 3: STOP [00];
    // 4: JUMPDEST [5b]; loc_4
    // 5: PUSH1 0x4 [60 04];
    // 7: JUMP [56]; branches to loc_4
    let bytecode_str = "0x600456005b600456";
    let bytecode = read_hex(bytecode_str).unwrap();
    let mut program = Program::new(&bytecode);

    println!("program: {:?}", program);
    program.optimize();
    println!("program': {:?}", program);

    assert_eq!(program.basic_blocks.len(), 3);
}

#[test]
fn push_constant_prop() {
    // 0: PUSH1 0xff [60 ff];
    // 2: JUMP [56];
    let bytecode_str = "0x60ff56";
    let bytecode = read_hex(bytecode_str).unwrap();
    let (mut bb, pc) = BasicBlock::parse(&bytecode, 0, 0);
    println!("bytecode: {:?}", bb.instructions);
    assert_eq!(bb.instructions.len(), 2);
    assert_eq!(pc, 3);

    // start optimizer
    bb.optimize();
    let bb = bb;

    // check results
    let push_inst = bb.instructions[0].clone();
    assert_eq!(push_inst.opcode, Ok(Instruction::PUSH1));
    let jump_inst = bb.instructions[1].clone();
    assert_eq!(jump_inst.opcode, Ok(Instruction::JUMP));
    assert_eq!(
        jump_inst.operands.unwrap()[0],
        Operand::Constant((0, Word::from(0xff)))
    );
}

#[test]
fn dup_constant_prop() {
    // 0: PUSH1 0xff [60 ff];
    // 2: DUP1 [80];
    // 3: JUMP [56];
    let bytecode_str = "0x60ff8056";
    let bytecode = read_hex(bytecode_str).unwrap();
    let (mut bb, pc) = BasicBlock::parse(&bytecode, 0, 0);
    println!("BB: {:?}", bb.instructions);
    assert_eq!(bb.instructions.len(), 3);
    assert_eq!(pc, 4);

    // start optimizer
    bb.optimize();
    println!("BB': {:?}", bb.instructions);

    // check results
    let push_inst = bb.instructions[0].clone();
    assert_eq!(push_inst.opcode, Ok(Instruction::PUSH1));
    let jump_inst = bb.instructions[2].clone();
    assert_eq!(jump_inst.opcode, Ok(Instruction::JUMP));
    assert_eq!(
        jump_inst.operands.unwrap()[0],
        Operand::Constant((0, Word::from(0xff)))
    );
}

#[test]
fn add_constant_prop() {
    // 0: PUSH1 0x01 [60 01];
    // 2: PUSH1 0x02 [60 02];
    // 4: ADD [01];
    // 5: JUMP [56]; illegal target
    let bytecode_str = "0x600160020156";
    let bytecode = read_hex(bytecode_str).unwrap();
    let (mut bb, pc) = BasicBlock::parse(&bytecode, 0, 0);
    println!("BB: {:?}", bb.instructions);
    assert_eq!(bb.instructions.len(), 4);
    assert_eq!(pc, 6);

    // start optimizer
    bb.optimize();
    println!("BB': {:?}", bb.instructions);

    // check results
    let jump_inst = bb.instructions[3].clone();
    assert!(jump_inst.opcode == Ok(Instruction::JUMP));
    assert_eq!(
        jump_inst.operands.unwrap()[0],
        Operand::Constant((2, Word::from(3)))
    );
}

#[test]
fn mstore_constant_prop() {
    // 0: PUSH1 0x80 [60 80];
    // 2: PUSH1 0x20 [60 20];
    // 4: MSTORE [52];
    // 5: JUMP [56]; illegal target
    let bytecode_str = "0x608060205256";
    let bytecode = read_hex(bytecode_str).unwrap();
    let (mut bb, pc) = BasicBlock::parse(&bytecode, 0, 0);
    println!("BB: {:?}", bb.instructions);
    assert_eq!(bb.instructions.len(), 4);
    assert_eq!(pc, 6);

    // start optimizer
    bb.optimize();
    println!("BB': {:?}", bb.instructions);

    // check results
    let jump_inst = bb.instructions[3].clone();
    assert!(jump_inst.opcode == Ok(Instruction::JUMP));

    // mstore checks
    let inst = bb.instructions[2].clone();
    println!("checking {:?}", inst);
    assert_eq!(inst.ignoreable, false);
    assert!(inst.operands.is_some());
    let operands = inst.operands.unwrap();
    assert!(operands.len() == 2);
    assert_eq!(operands[0], Operand::Constant((1, Word::from(0x20))));
    assert_eq!(operands[1], Operand::Constant((0, Word::from(0x80))));
}

#[test]
fn add_no_constant_prop() {
    // 2: PUSH1 0x02 [60 02];
    // 4: ADD [01];
    // 5: JUMP [56];
    let bytecode_str = "0x60020156";
    let bytecode = read_hex(bytecode_str).unwrap();
    let (mut bb, pc) = BasicBlock::parse(&bytecode, 0, 0);
    println!("BB: {:?}", bb.instructions);
    assert_eq!(bb.instructions.len(), 3);
    assert_eq!(pc, 4);

    // start optimizer
    bb.optimize();
    println!("BB': {:?}", bb.instructions);

    // check results
    let jump_inst = bb.instructions[2].clone();
    assert!(jump_inst.opcode == Ok(Instruction::JUMP));
    assert_eq!(
        jump_inst.operands.unwrap()[0],
        Operand::InstructionRef((1, 0))
    );
}

#[test]
fn no_constant_prop_possible() {
    // 0: DUP1 [80];
    // 1: JUMP [56];
    let bytecode_str = "0x8056";
    let bytecode = read_hex(bytecode_str).unwrap();
    let (mut bb, pc) = BasicBlock::parse(&bytecode, 0, 0);
    println!("BB: {:?}", bb.instructions);
    assert_eq!(bb.instructions.len(), 2);
    assert_eq!(pc, 2);

    // start optimizer
    bb.optimize();
    println!("BB': {:?}", bb.instructions);

    assert_eq!(bb.instructions[0].ignoreable, true);
    assert_eq!(bb.instructions[1].ignoreable, false);

    // check results
    let jump_inst = bb.instructions[1].clone();
    assert!(jump_inst.opcode == Ok(Instruction::JUMP));
    assert_eq!(jump_inst.operands.unwrap()[0], Operand::StackRef((0, 0)));
}

#[test]
fn bb_args_ret() {
    // 0: DUP1 [80];
    // 1: DUP1 [80];
    // 2: JUMP [56];
    let bytecode_str = "0x808056";
    let bytecode = read_hex(bytecode_str).unwrap();
    let (mut bb, pc) = BasicBlock::parse(&bytecode, 0, 0);
    println!("BB: {:?}", bb.instructions);
    assert_eq!(bb.instructions.len(), 3);
    assert_eq!(pc, 3);

    // start optimizer
    bb.optimize();
    println!("BB': {:?}", bb.instructions);

    assert_eq!(bb.instructions[0].ignoreable, true);
    assert_eq!(bb.instructions[1].ignoreable, true);
    assert_eq!(bb.instructions[2].ignoreable, false);

    // check results
    let jump_inst = bb.instructions[2].clone();
    assert!(jump_inst.opcode == Ok(Instruction::JUMP));
    assert_eq!(jump_inst.operands.unwrap()[0], Operand::StackRef((0, 0)));
    let dup_inst = bb.instructions[0].clone();
    assert_eq!(dup_inst.operands.unwrap()[0], Operand::StackRef((0, 0)));
}

#[test]
fn bb_args_add() {
    // 0: ADD [01];
    // 1: PUSH1 0x42 [60 42];
    // 3: JUMP [56]; illegal target
    let bytecode_str = "0x01604256";
    let bytecode = read_hex(bytecode_str).unwrap();
    let (mut bb, pc) = BasicBlock::parse(&bytecode, 0, 0);
    println!("BB: {:?}", bb.instructions);
    assert_eq!(bb.instructions.len(), 3);
    assert_eq!(pc, 4);

    // start optimizer
    bb.optimize();
    println!("BB': {:?}", bb.instructions);

    // check results
    let jump_inst = bb.instructions[2].clone();
    assert!(jump_inst.opcode == Ok(Instruction::JUMP));

    // add checks
    let add_inst = bb.instructions[0].clone();
    println!("checking {:?}", add_inst);
    assert_eq!(add_inst.ignoreable, false);
    assert!(add_inst.operands.is_some());
    let add_operands = add_inst.operands.unwrap();
    assert!(add_operands.len() == 2);
    assert_eq!(add_operands[0], Operand::StackRef((0, 0)));
    assert_eq!(add_operands[1], Operand::StackRef((0, 1)));
}

#[test]
fn bb_pop_unknown() {
    // 0: POP [50];
    // 1: STOP [00];
    let bytecode_str = "0x5000";
    let bytecode = read_hex(bytecode_str).unwrap();
    let (mut bb, pc) = BasicBlock::parse(&bytecode, 0, 0);
    println!("BB: {:?}", bb.instructions);
    assert_eq!(bb.instructions.len(), 2);
    assert_eq!(pc, 2);

    bb.optimize();
    println!("BB': {:?}", bb.instructions);

    // check results
    let last_inst = bb.instructions[1].clone();
    println!("checking {:?}", last_inst);
    assert_eq!(last_inst.opcode, Ok(Instruction::STOP));
    assert!(last_inst.operands.is_none());
    assert_eq!(last_inst.ignoreable, false);
    // pop checks
    let pop_inst = bb.instructions[0].clone();
    println!("checking {:?}", pop_inst);
    assert!(pop_inst.operands.is_none());
    assert_eq!(bb.pops_at_end, 1);
}

#[test]
fn bb_args_pop_add() {
    // 0: POP [50];
    // 1: ADD [01];
    // 2: STOP [00];
    let bytecode_str = "0x500100";
    let bytecode = read_hex(bytecode_str).unwrap();
    let (mut bb, pc) = BasicBlock::parse(&bytecode, 0, 0);
    println!("BB: {:?}", bb.instructions);
    assert_eq!(bb.instructions.len(), 3);
    assert_eq!(pc, 3);

    bb.optimize();
    println!("BB': {:?}", bb.instructions);

    // check results
    assert_eq!(bb.pops_at_end, 2);
    let last_inst = bb.instructions[2].clone();
    println!("checking {:?}", last_inst);
    assert_eq!(last_inst.opcode, Ok(Instruction::STOP));
    assert!(last_inst.operands.is_none());
    assert_eq!(last_inst.ignoreable, false);
    // pop checks
    let pop_inst = bb.instructions[0].clone();
    println!("checking {:?}", pop_inst);
    assert_eq!(pop_inst.ignoreable, true);
    // add checks
    let add_inst = bb.instructions[1].clone();
    println!("checking {:?}", add_inst);
    assert_eq!(add_inst.ignoreable, false);
    assert!(add_inst.operands.is_some());
    let add_operands = add_inst.operands.unwrap();
    assert!(add_operands.len() == 2);
    assert_eq!(add_operands[0], Operand::StackRef((0, 1)));
    assert_eq!(add_operands[1], Operand::StackRef((0, 2)));
}

#[test]
fn bb_args_pop_add_with_const() {
    // 0: POP [50];
    // 1: PUSH1 0x42 [60 42];
    // 3: ADD [01];
    // 4: STOP [00];
    let bytecode_str = "0x5060420100";
    let bytecode = read_hex(bytecode_str).unwrap();
    let (mut bb, pc) = BasicBlock::parse(&bytecode, 0, 0);
    println!("BB: {:?}", bb.instructions);
    assert_eq!(bb.instructions.len(), 4);
    assert_eq!(pc, 5);

    bb.optimize();
    println!("BB': {:?}", bb.instructions);

    // check results
    assert_eq!(bb.pops_at_end, 1);
    let last_inst = bb.instructions[3].clone();
    println!("checking {:?}", last_inst);
    assert_eq!(last_inst.opcode, Ok(Instruction::STOP));
    assert!(last_inst.operands.is_none());
    assert_eq!(last_inst.ignoreable, false);
    // pop checks
    let pop_inst = bb.instructions[0].clone();
    println!("checking {:?}", pop_inst);
    assert_eq!(pop_inst.ignoreable, true);

    // add checks
    let add_inst = bb.instructions[2].clone();
    println!("checking {:?}", add_inst);
    assert_eq!(add_inst.ignoreable, false);
    assert!(add_inst.operands.is_some());
    let add_operands = add_inst.operands.unwrap();
    assert!(add_operands.len() == 2);
    assert_eq!(add_operands[0], Operand::Constant((1, Word::from(0x42))));
    assert_eq!(add_operands[1], Operand::StackRef((0, 1)));
}
