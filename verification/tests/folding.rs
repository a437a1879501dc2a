use evm2cpp::fold::evaluate_opcode;
use evm2cpp::instructions::Instruction;
use evm2cpp::operand::Operand;
use evm2cpp::word::Word;

fn w(v: u64) -> Word {
    Word::from_u64(v)
}

fn max_word() -> Word {
    Word { limb0: u64::MAX, limb1: u64::MAX, limb2: u64::MAX, limb3: u64::MAX }
}

fn top_bit() -> Word {
    Word { limb0: 0, limb1: 0, limb2: 0, limb3: 1 << 63 }
}

fn fold2(op: Instruction, a: Word, b: Word) -> (Vec<Operand>, bool) {
    evaluate_opcode(op, 9, &vec![Operand::Constant((0, a)), Operand::Constant((1, b))])
}

fn folded(v: Word) -> (Vec<Operand>, bool) {
    (vec![Operand::Constant((9, v))], true)
}

#[test]
fn add_folds_and_wraps() {
    assert_eq!(fold2(Instruction::ADD, w(5), w(7)), folded(w(12)));
    assert_eq!(fold2(Instruction::ADD, max_word(), w(1)), folded(w(0)));
    let carry = Word { limb0: u64::MAX, limb1: 0, limb2: 0, limb3: 0 };
    let expected = Word { limb0: 0, limb1: 1, limb2: 0, limb3: 0 };
    assert_eq!(fold2(Instruction::ADD, carry, w(1)), folded(expected));
}

#[test]
fn sub_folds_and_wraps() {
    assert_eq!(fold2(Instruction::SUB, w(7), w(5)), folded(w(2)));
    assert_eq!(fold2(Instruction::SUB, w(0), w(1)), folded(max_word()));
}

#[test]
fn mul_folds_and_wraps() {
    assert_eq!(fold2(Instruction::MUL, w(6), w(7)), folded(w(42)));
    assert_eq!(fold2(Instruction::MUL, top_bit(), w(2)), folded(w(0)));
    let big = Word { limb0: 1 << 63, limb1: 0, limb2: 0, limb3: 0 };
    let expected = Word { limb0: 0, limb1: 2, limb2: 0, limb3: 0 };
    assert_eq!(fold2(Instruction::MUL, big, w(4)), folded(expected));
}

#[test]
fn div_and_mod_fold_with_zero_divisor() {
    assert_eq!(fold2(Instruction::DIV, w(7), w(2)), folded(w(3)));
    assert_eq!(fold2(Instruction::DIV, w(7), w(0)), folded(w(0)));
    assert_eq!(fold2(Instruction::MOD, w(7), w(2)), folded(w(1)));
    assert_eq!(fold2(Instruction::MOD, w(7), w(0)), folded(w(0)));
    assert_eq!(fold2(Instruction::DIV, max_word(), max_word()), folded(w(1)));
    assert_eq!(fold2(Instruction::MOD, max_word(), top_bit()), folded(
        Word { limb0: u64::MAX, limb1: u64::MAX, limb2: u64::MAX, limb3: u64::MAX >> 1 }
    ));
}

#[test]
fn exp_folds_and_wraps() {
    assert_eq!(fold2(Instruction::EXP, w(3), w(5)), folded(w(243)));
    assert_eq!(fold2(Instruction::EXP, w(2), w(255)), folded(top_bit()));
    assert_eq!(fold2(Instruction::EXP, w(2), w(256)), folded(w(0)));
    assert_eq!(fold2(Instruction::EXP, w(0), w(0)), folded(w(1)));
    assert_eq!(fold2(Instruction::EXP, w(7), w(1)), folded(w(7)));
}

#[test]
fn comparisons_fold_to_zero_or_one() {
    assert_eq!(fold2(Instruction::LT, w(1), w(2)), folded(w(1)));
    assert_eq!(fold2(Instruction::LT, w(2), w(1)), folded(w(0)));
    assert_eq!(fold2(Instruction::LT, w(2), w(2)), folded(w(0)));
    assert_eq!(fold2(Instruction::GT, w(2), w(1)), folded(w(1)));
    assert_eq!(fold2(Instruction::GT, w(1), w(2)), folded(w(0)));
    assert_eq!(fold2(Instruction::EQ, w(4), w(4)), folded(w(1)));
    assert_eq!(fold2(Instruction::EQ, w(4), w(5)), folded(w(0)));
    // the most significant limb decides
    assert_eq!(fold2(Instruction::LT, max_word().bitxor(top_bit()), top_bit()), folded(w(1)));
    assert_eq!(fold2(Instruction::GT, top_bit(), w(u64::MAX)), folded(w(1)));
}

#[test]
fn bitwise_operations_fold() {
    assert_eq!(fold2(Instruction::AND, w(0xf0f0), w(0xff00)), folded(w(0xf000)));
    assert_eq!(fold2(Instruction::OR, w(0xf0f0), w(0xff00)), folded(w(0xfff0)));
    assert_eq!(fold2(Instruction::XOR, w(0xf0f0), w(0xff00)), folded(w(0x0ff0)));
    let not_zero = evaluate_opcode(Instruction::NOT, 9, &vec![Operand::Constant((0, w(0)))]);
    assert_eq!(not_zero, folded(max_word()));
}

#[test]
fn iszero_folds() {
    let of_zero = evaluate_opcode(Instruction::ISZERO, 9, &vec![Operand::Constant((0, w(0)))]);
    assert_eq!(of_zero, folded(w(1)));
    let of_five = evaluate_opcode(Instruction::ISZERO, 9, &vec![Operand::Constant((0, w(5)))]);
    assert_eq!(of_five, folded(w(0)));
    let of_top = evaluate_opcode(Instruction::ISZERO, 9, &vec![Operand::Constant((0, top_bit()))]);
    assert_eq!(of_top, folded(w(0)));
}

#[test]
fn byte_folds() {
    assert_eq!(fold2(Instruction::BYTE, w(31), w(0x1234)), folded(w(0x34)));
    assert_eq!(fold2(Instruction::BYTE, w(30), w(0x1234)), folded(w(0x12)));
    assert_eq!(fold2(Instruction::BYTE, w(29), w(0x1234)), folded(w(0)));
    let high = Word { limb0: 0, limb1: 0, limb2: 0, limb3: 0xab00_0000_0000_0000 };
    assert_eq!(fold2(Instruction::BYTE, w(0), high), folded(w(0xab)));
    assert_eq!(fold2(Instruction::BYTE, w(32), max_word()), folded(w(0)));
    assert_eq!(fold2(Instruction::BYTE, top_bit(), max_word()), folded(w(0)));
}

#[test]
fn shifts_fold() {
    assert_eq!(fold2(Instruction::SHL, w(4), w(1)), folded(w(16)));
    assert_eq!(fold2(Instruction::SHL, w(255), w(1)), folded(top_bit()));
    assert_eq!(fold2(Instruction::SHL, w(256), w(1)), folded(w(0)));
    assert_eq!(fold2(Instruction::SHL, w(1), top_bit()), folded(w(0)));
    assert_eq!(fold2(Instruction::SHR, w(4), w(0x100)), folded(w(0x10)));
    assert_eq!(fold2(Instruction::SHR, w(255), top_bit()), folded(w(1)));
    assert_eq!(fold2(Instruction::SHR, w(256), max_word()), folded(w(0)));
    // a shift count that no machine integer holds
    let huge = Word { limb0: 0, limb1: 1, limb2: 0, limb3: 0 };
    assert_eq!(fold2(Instruction::SHL, huge, max_word()), folded(w(0)));
    assert_eq!(fold2(Instruction::SHR, huge, max_word()), folded(w(0)));
    assert_eq!(fold2(Instruction::SHR, w(u64::MAX), max_word()), folded(w(0)));
}

#[test]
fn modular_instructions_fold_only_with_zero_modulus() {
    let c = |v: u64| Operand::Constant((0, w(v)));
    assert_eq!(
        evaluate_opcode(Instruction::ADDMOD, 9, &vec![c(1), c(2), c(0)]),
        folded(w(0))
    );
    assert_eq!(
        evaluate_opcode(Instruction::MULMOD, 9, &vec![c(1), c(2), c(0)]),
        folded(w(0))
    );
    assert_eq!(
        evaluate_opcode(Instruction::ADDMOD, 9, &vec![c(1), c(2), c(3)]),
        (vec![Operand::InstructionRef((9, 0))], false)
    );
    assert_eq!(
        evaluate_opcode(Instruction::MULMOD, 9, &vec![c(1), c(2), c(3)]),
        (vec![Operand::InstructionRef((9, 0))], false)
    );
    assert_eq!(
        evaluate_opcode(Instruction::ADDMOD, 9, &vec![c(1), Operand::StackRef((0, 1)), c(0)]),
        (vec![Operand::InstructionRef((9, 0))], false)
    );
}

#[test]
fn signed_instructions_are_not_folded() {
    let unfolded = (vec![Operand::InstructionRef((9, 0))], false);
    assert_eq!(fold2(Instruction::SDIV, w(6), w(3)), unfolded);
    assert_eq!(fold2(Instruction::SMOD, w(6), w(3)), unfolded);
    assert_eq!(fold2(Instruction::SLT, w(6), w(3)), unfolded);
    assert_eq!(fold2(Instruction::SGT, w(6), w(3)), unfolded);
    assert_eq!(fold2(Instruction::SIGNEXTEND, w(0), w(3)), unfolded);
    assert_eq!(fold2(Instruction::SAR, w(1), w(3)), unfolded);
}

#[test]
fn identities_simplify_with_one_constant() {
    let x = Operand::StackRef((0, 3));
    let y = Operand::InstructionRef((2, 0));
    let c = |v: u64| Operand::Constant((1, w(v)));
    let same = |o: Operand| (vec![o], true);
    let unfolded = (vec![Operand::InstructionRef((9, 0))], false);

    assert_eq!(evaluate_opcode(Instruction::ADD, 9, &vec![x, c(0)]), same(x));
    assert_eq!(evaluate_opcode(Instruction::ADD, 9, &vec![c(0), y]), same(y));
    assert_eq!(evaluate_opcode(Instruction::ADD, 9, &vec![x, c(1)]), unfolded);
    assert_eq!(evaluate_opcode(Instruction::ADD, 9, &vec![x, y]), unfolded);

    assert_eq!(evaluate_opcode(Instruction::SUB, 9, &vec![x, c(0)]), same(x));
    assert_eq!(evaluate_opcode(Instruction::SUB, 9, &vec![c(0), x]), unfolded);

    assert_eq!(evaluate_opcode(Instruction::MUL, 9, &vec![x, c(1)]), same(x));
    assert_eq!(evaluate_opcode(Instruction::MUL, 9, &vec![c(1), y]), same(y));
    assert_eq!(evaluate_opcode(Instruction::MUL, 9, &vec![x, c(0)]), folded(w(0)));
    assert_eq!(evaluate_opcode(Instruction::MUL, 9, &vec![c(0), x]), folded(w(0)));
    assert_eq!(evaluate_opcode(Instruction::MUL, 9, &vec![c(2), x]), unfolded);

    assert_eq!(evaluate_opcode(Instruction::DIV, 9, &vec![x, c(0)]), folded(w(0)));
    assert_eq!(evaluate_opcode(Instruction::DIV, 9, &vec![x, c(1)]), same(x));
    assert_eq!(evaluate_opcode(Instruction::DIV, 9, &vec![c(0), x]), folded(w(0)));
    assert_eq!(evaluate_opcode(Instruction::DIV, 9, &vec![c(1), x]), unfolded);

    assert_eq!(evaluate_opcode(Instruction::EXP, 9, &vec![x, c(0)]), folded(w(1)));
    assert_eq!(evaluate_opcode(Instruction::EXP, 9, &vec![x, c(1)]), same(x));
    assert_eq!(evaluate_opcode(Instruction::EXP, 9, &vec![c(0), x]), folded(w(0)));
    assert_eq!(evaluate_opcode(Instruction::EXP, 9, &vec![c(1), x]), unfolded);

    assert_eq!(evaluate_opcode(Instruction::SHL, 9, &vec![c(0), x]), same(x));
    assert_eq!(evaluate_opcode(Instruction::SHR, 9, &vec![c(0), y]), same(y));
    assert_eq!(evaluate_opcode(Instruction::SHL, 9, &vec![x, c(0)]), unfolded);

    assert_eq!(evaluate_opcode(Instruction::MOD, 9, &vec![x, c(1)]), unfolded);
    assert_eq!(evaluate_opcode(Instruction::LT, 9, &vec![x, c(0)]), unfolded);
}

#[test]
fn unfolded_instructions_refer_to_their_results() {
    let x = Operand::StackRef((0, 0));
    assert_eq!(
        evaluate_opcode(Instruction::MSTORE, 4, &vec![x, x]),
        (vec![], false)
    );
    assert_eq!(
        evaluate_opcode(Instruction::SLOAD, 4, &vec![x]),
        (vec![Operand::InstructionRef((4, 0))], false)
    );
    assert_eq!(
        evaluate_opcode(Instruction::CALL, 4, &vec![x, x, x, x, x, x, x]),
        (vec![Operand::InstructionRef((4, 0))], false)
    );
    assert_eq!(evaluate_opcode(Instruction::STOP, 4, &vec![]), (vec![], false));
    assert_eq!(
        evaluate_opcode(Instruction::ADDRESS, 4, &vec![]),
        (vec![Operand::InstructionRef((4, 0))], false)
    );
    let c = Operand::Constant((0, w(5)));
    assert_eq!(
        evaluate_opcode(Instruction::SLOAD, 4, &vec![c]),
        (vec![Operand::InstructionRef((4, 0))], false)
    );
}

#[test]
fn words_compare_and_convert() {
    assert!(w(1).lt(&w(2)));
    assert!(!w(2).lt(&w(2)));
    assert!(w(u64::MAX).lt(&top_bit()));
    assert_eq!(w(77).low_u64(), 77);
    assert_eq!(max_word().low_u64(), u64::MAX);
    assert_eq!(w(77).to_usize(), Some(77));
    assert_eq!(top_bit().to_usize(), None);
    assert_eq!(Word::from_usize(12), w(12));
    assert_eq!(w(0b1100).bitand(w(0b1010)), w(0b1000));
    assert_eq!(w(0b1100).bitor(w(0b1010)), w(0b1110));
    assert_eq!(w(0b1100).bitxor(w(0b1010)), w(0b0110));
    assert_eq!(max_word().not(), w(0));
}
