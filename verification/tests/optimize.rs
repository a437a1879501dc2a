use evm2cpp::block::BasicBlock;
use evm2cpp::hex::read_hex;
use evm2cpp::instructions::Instruction;
use evm2cpp::operand::Operand;
use evm2cpp::program::Program;
use evm2cpp::word::Word;
use std::collections::BTreeMap;

fn optimized(hex: &str) -> BasicBlock {
    let code = read_hex(hex).unwrap();
    let (mut bb, _) = BasicBlock::parse(&code, 0, 0);
    bb.optimize();
    bb
}

fn stack_delta(bb: &BasicBlock) -> isize {
    bb.instructions
        .iter()
        .map(|i| match i.opcode {
            Ok(op) => op.info().ret as isize - op.info().args as isize,
            Err(_) => 0,
        })
        .sum()
}

#[test]
fn push_then_jump() {
    let bb = optimized("0x60ff56");
    assert!(bb.optimized);
    assert!(bb.instructions[0].ignoreable);
    assert!(bb.instructions[0].is_constant);
    assert_eq!(bb.instructions[0].value, Some(vec![Word::from_u64(0xff)]));
    assert_eq!(
        bb.instructions[1].operands,
        Some(vec![Operand::Constant((0, Word::from_u64(0xff)))])
    );
    assert!(!bb.instructions[1].ignoreable);
    assert!(bb.returns.is_empty());
    assert_eq!(bb.pops_at_end, 0);
    assert!(bb.stack_sets.is_empty());
}

#[test]
fn dup_of_a_constant_is_a_constant() {
    let bb = optimized("0x60ff8056");
    let dup = &bb.instructions[1];
    assert!(dup.ignoreable);
    assert!(dup.is_constant);
    assert_eq!(dup.value, Some(vec![Word::from_u64(0xff)]));
    assert_eq!(dup.operands, Some(vec![Operand::Constant((0, Word::from_u64(0xff)))]));
    assert_eq!(
        bb.instructions[2].operands,
        Some(vec![Operand::Constant((0, Word::from_u64(0xff)))])
    );
    assert_eq!(bb.returns, vec![Operand::Constant((0, Word::from_u64(0xff)))]);
    assert_eq!(bb.pops_at_end, 0);
}

#[test]
fn add_of_constants_is_folded() {
    let bb = optimized("0x600160020156");
    let add = &bb.instructions[2];
    assert!(add.ignoreable);
    assert!(add.is_constant);
    assert_eq!(add.value, Some(vec![Word::from_u64(3)]));
    assert_eq!(
        add.operands,
        Some(vec![
            Operand::Constant((1, Word::from_u64(2))),
            Operand::Constant((0, Word::from_u64(1)))
        ])
    );
    assert_eq!(
        bb.instructions[3].operands,
        Some(vec![Operand::Constant((2, Word::from_u64(3)))])
    );
    assert!(bb.returns.is_empty());
    assert_eq!(bb.pops_at_end, 0);
}

#[test]
fn add_with_an_operand_from_before_the_block() {
    let bb = optimized("0x60020156");
    let add = &bb.instructions[1];
    assert!(!add.ignoreable);
    assert!(!add.is_constant);
    assert_eq!(
        add.operands,
        Some(vec![Operand::Constant((0, Word::from_u64(2))), Operand::StackRef((0, 0))])
    );
    assert_eq!(bb.instructions[2].operands, Some(vec![Operand::InstructionRef((1, 0))]));
    assert_eq!(bb.pops_at_end, 1);
    assert!(bb.returns.is_empty());
}

#[test]
fn dup_of_an_entry_slot() {
    let bb = optimized("0x8056");
    assert!(bb.instructions[0].ignoreable);
    assert!(!bb.instructions[0].is_constant);
    assert_eq!(bb.instructions[0].operands, Some(vec![Operand::StackRef((0, 0))]));
    assert_eq!(bb.instructions[1].operands, Some(vec![Operand::StackRef((0, 0))]));
    // the JUMP took the copy: the stack is as it was
    assert_eq!(bb.returns.len(), 0);
    assert_eq!(bb.pops_at_end, 0);
    assert!(bb.stack_sets.is_empty());
}

#[test]
fn dup_leaves_a_value() {
    let bb = optimized("0x8100");
    assert_eq!(bb.instructions[0].operands, Some(vec![Operand::StackRef((0, 1))]));
    assert_eq!(bb.returns, vec![Operand::StackRef((0, 1))]);
    assert_eq!(bb.pops_at_end, 0);
    assert!(bb.stack_sets.is_empty());
}

#[test]
fn pop_then_stop() {
    let bb = optimized("0x5000");
    assert_eq!(bb.pops_at_end, 1);
    assert!(bb.instructions[0].ignoreable);
    assert!(bb.instructions[0].operands.is_none());
    assert!(bb.instructions[1].operands.is_none());
    assert!(bb.returns.is_empty());
    assert!(bb.stack_sets.is_empty());
}

#[test]
fn pop_then_add() {
    let bb = optimized("0x500100");
    assert_eq!(bb.pops_at_end, 2);
    assert_eq!(
        bb.instructions[1].operands,
        Some(vec![Operand::StackRef((0, 1)), Operand::StackRef((0, 2))])
    );
    // the sum replaces the third entry slot, which is the top of what is left
    let mut sets = BTreeMap::new();
    sets.insert(2, Operand::InstructionRef((1, 0)));
    assert_eq!(bb.stack_sets, sets);
}

#[test]
fn pop_push_add() {
    let bb = optimized("0x5060420100");
    assert_eq!(bb.pops_at_end, 1);
    assert_eq!(
        bb.instructions[2].operands,
        Some(vec![Operand::Constant((1, Word::from_u64(0x42))), Operand::StackRef((0, 1))])
    );
}

#[test]
fn swap_of_entry_slots_is_recorded_as_writes() {
    // SWAP1; STOP
    let bb = optimized("0x9000");
    let swap = &bb.instructions[0];
    assert!(swap.ignoreable);
    assert_eq!(
        swap.operands,
        Some(vec![Operand::StackRef((0, 0)), Operand::StackRef((0, 1))])
    );
    let mut sets = BTreeMap::new();
    sets.insert(0, Operand::StackRef((0, 1)));
    sets.insert(1, Operand::StackRef((0, 0)));
    assert_eq!(bb.stack_sets, sets);
    assert_eq!(bb.pops_at_end, 0);
    assert!(bb.returns.is_empty());
}

#[test]
fn swap_of_pushed_values() {
    // PUSH1 1; PUSH1 2; SWAP1; STOP
    let bb = optimized("0x600160029000");
    let swap = &bb.instructions[2];
    assert!(swap.ignoreable);
    assert_eq!(
        swap.operands,
        Some(vec![
            Operand::Constant((1, Word::from_u64(2))),
            Operand::Constant((0, Word::from_u64(1)))
        ])
    );
    assert_eq!(
        bb.returns,
        vec![
            Operand::Constant((0, Word::from_u64(1))),
            Operand::Constant((1, Word::from_u64(2)))
        ]
    );
    assert!(bb.stack_sets.is_empty());
}

#[test]
fn swap_with_a_slot_below_the_abstract_stack() {
    // 32 POPs empty the abstract stack; PUSH1 7; SWAP1; STOP
    let mut hex = String::from("0x");
    for _ in 0..32 {
        hex.push_str("50");
    }
    hex.push_str("60079000");
    let bb = optimized(&hex);
    let swap = &bb.instructions[33];
    assert!(!swap.ignoreable);
    assert_eq!(
        swap.operands,
        Some(vec![Operand::Constant((32, Word::from_u64(7))), Operand::StackRef((0, 32))])
    );
    // 32 slots are gone and one value is on the abstract stack
    assert_eq!(bb.pops_at_end, 31);
    assert!(bb.returns.is_empty());
    let mut sets = BTreeMap::new();
    sets.insert(31, Operand::StackRef((0, 32)));
    assert_eq!(bb.stack_sets, sets);
}

#[test]
fn swap_on_an_empty_abstract_stack() {
    // 32 POPs; SWAP2; STOP
    let mut hex = String::from("0x");
    for _ in 0..32 {
        hex.push_str("50");
    }
    hex.push_str("9100");
    let bb = optimized(&hex);
    let swap = &bb.instructions[32];
    assert!(!swap.ignoreable);
    assert_eq!(
        swap.operands,
        Some(vec![Operand::StackRef((0, 32)), Operand::StackRef((0, 34))])
    );
    assert_eq!(bb.pops_at_end, 32);
    assert!(bb.stack_sets.is_empty());
}

#[test]
fn operands_below_the_abstract_stack() {
    // 33 POPs; ADD; DUP2; STOP
    let mut hex = String::from("0x");
    for _ in 0..33 {
        hex.push_str("50");
    }
    hex.push_str("018100");
    let bb = optimized(&hex);
    let add = &bb.instructions[33];
    assert_eq!(
        add.operands,
        Some(vec![Operand::StackRef((0, 33)), Operand::StackRef((0, 34))])
    );
    let dup = &bb.instructions[34];
    assert_eq!(dup.operands, Some(vec![Operand::StackRef((0, 35))]));
    assert!(dup.ignoreable);
    // 35 slots are taken, two values are on the abstract stack
    assert_eq!(bb.pops_at_end, 33);
    assert!(bb.returns.is_empty());
    let mut sets = BTreeMap::new();
    sets.insert(30, Operand::StackRef((0, 35)));
    sets.insert(31, Operand::InstructionRef((33, 0)));
    assert_eq!(bb.stack_sets, sets);
    assert_eq!(bb.returns.len() as isize - bb.pops_at_end as isize, stack_delta(&bb));
}

#[test]
fn jumpdest_needs_no_code() {
    let bb = optimized("0x5b00");
    assert!(bb.instructions[0].ignoreable);
    assert!(!bb.instructions[1].ignoreable);
    assert!(bb.instructions[0].operands.is_none());
}

#[test]
fn an_identity_passes_its_operand_on() {
    // PUSH1 0; ADD; JUMP: the sum is the entry slot itself
    let bb = optimized("0x60000156");
    let add = &bb.instructions[1];
    assert!(add.ignoreable);
    assert!(add.is_constant);
    assert_eq!(add.value, Some(vec![]));
    assert_eq!(
        add.operands,
        Some(vec![Operand::Constant((0, Word::from_u64(0))), Operand::StackRef((0, 0))])
    );
    assert_eq!(bb.instructions[2].operands, Some(vec![Operand::StackRef((0, 0))]));
    assert_eq!(bb.pops_at_end, 1);
}

#[test]
fn a_block_with_a_byte_that_is_no_opcode_is_left_alone() {
    let code = read_hex("0x600160020150500c").unwrap();
    let (mut bb, _) = BasicBlock::parse(&code, 0, 0);
    assert!(bb.ends_on_invalid);
    let before = format!("{:?}", bb.instructions);
    bb.optimize();
    assert!(bb.optimized);
    assert_eq!(format!("{:?}", bb.instructions), before);
    assert_eq!(bb.pops_at_end, 0);
    assert!(bb.returns.is_empty());
    assert!(bb.stack_sets.is_empty());
    assert!(bb.ends_on_invalid);
}

#[test]
fn optimizing_twice_is_optimizing_once() {
    for hex in ["0x60ff8056", "0x500100", "0x9000", "0x600160020156", "0x60010c", "0x8056"] {
        let mut once = optimized(hex);
        let snapshot = format!("{:?}", once);
        once.optimize();
        assert_eq!(format!("{:?}", once), snapshot);
    }
    let code = read_hex("0x600456005b600456").unwrap();
    let mut program = Program::new(&code);
    program.optimize();
    let snapshot = format!("{:?}", program.basic_blocks);
    program.optimize();
    assert_eq!(format!("{:?}", program.basic_blocks), snapshot);
    let copy = program.clone();
    assert_eq!(format!("{:?}", copy.basic_blocks), snapshot);
    assert_eq!(copy.bytecode, program.bytecode);
    assert_eq!(copy.meta, program.meta);
}

#[test]
fn the_summary_accounts_for_the_stack_height() {
    let samples = [
        "0x60ff56",
        "0x60ff8056",
        "0x600160020156",
        "0x60020156",
        "0x8056",
        "0x808056",
        "0x01604256",
        "0x5000",
        "0x500100",
        "0x5060420100",
        "0x9000",
        "0x600160029000",
        "0x6001600260036004600500",
        "0x50505050505050505050505050505050505050505050505050505050505050505050500100",
        "0x3330f100",
        "0x5b8082018190039056",
    ];
    for hex in samples {
        let bb = optimized(hex);
        assert_eq!(
            bb.returns.len() as isize - bb.pops_at_end as isize,
            stack_delta(&bb),
            "{}",
            hex
        );
    }
}

#[test]
fn optimizing_a_program_optimizes_each_block() {
    let code = read_hex("0x600456005b600456").unwrap();
    let mut program = Program::new(&code);
    program.optimize();
    for block in program.basic_blocks.iter() {
        assert!(block.optimized);
    }
    let jump = &program.basic_blocks[2].instructions[2];
    assert_eq!(jump.opcode, Ok(Instruction::JUMP));
    assert_eq!(jump.operands, Some(vec![Operand::Constant((1, Word::from_u64(4)))]));
    assert!(program.basic_blocks[2].instructions[0].ignoreable);
    assert_eq!(program.bytecode, code);
}

#[test]
fn folded_constants_are_what_the_evm_computes() {
    // PUSH1 b; PUSH1 a; <op>; STOP, for small a and b
    let cases: [(u8, fn(u64, u64) -> u64); 9] = [
        (0x01, |a, b| a + b),
        (0x02, |a, b| a * b),
        (0x04, |a, b| if b == 0 { 0 } else { a / b }),
        (0x06, |a, b| if b == 0 { 0 } else { a % b }),
        (0x10, |a, b| (a < b) as u64),
        (0x11, |a, b| (a > b) as u64),
        (0x14, |a, b| (a == b) as u64),
        (0x16, |a, b| a & b),
        (0x18, |a, b| a ^ b),
    ];
    for (opcode, reference) in cases {
        for (a, b) in [(7u8, 3u8), (3, 7), (0, 5), (5, 0), (9, 9), (255, 2)] {
            let code = vec![0x60, b, 0x60, a, opcode, 0x00];
            let (mut bb, _) = BasicBlock::parse(&code, 0, 0);
            bb.optimize();
            let inst = &bb.instructions[2];
            assert!(inst.is_constant);
            assert!(inst.ignoreable);
            assert_eq!(
                inst.value,
                Some(vec![Word::from_u64(reference(a as u64, b as u64))]),
                "{:#x} {} {}",
                opcode,
                a,
                b
            );
            assert_eq!(
                bb.returns,
                vec![Operand::Constant((2, Word::from_u64(reference(a as u64, b as u64))))]
            );
        }
    }
}

#[test]
fn no_operand_is_left_open() {
    let samples = [
        "0x60ff8056",
        "0x500100",
        "0x9000",
        "0x600160020156",
        "0x3330f100",
        "0x5b8082018190039056",
        "0x50505050505050505050505050505050505050505050505050505050505050505050500100",
    ];
    for hex in samples {
        let bb = optimized(hex);
        for (idx, inst) in bb.instructions.iter().enumerate() {
            for operand in inst.operands.iter().flatten() {
                match *operand {
                    Operand::Constant(_) => {}
                    Operand::StackRef((origin, _)) => assert_eq!(origin, 0),
                    Operand::InstructionRef((origin, _)) => assert!(origin < idx),
                    Operand::StackPop(_) => panic!("{}: a pop is left in {:?}", hex, inst),
                }
            }
        }
    }
}
