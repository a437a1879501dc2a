//! Constant folding and algebraic simplification of single instructions.

use crate::arith;
use crate::instructions::Instruction;
use crate::operand::Operand;
use crate::word::modulus;
use crate::word::pow2_64;
use crate::word::Word;
use vstd::arithmetic::div_mod::lemma_basic_div;
use vstd::arithmetic::div_mod::lemma_fundamental_div_mod_converse;
use vstd::arithmetic::div_mod::lemma_mod_multiples_basic;
use vstd::arithmetic::power2::lemma2_to64;
use vstd::arithmetic::power2::lemma_pow2_adds;
use vstd::arithmetic::power2::lemma_pow2_pos;
use vstd::arithmetic::power2::pow2;
use vstd::arithmetic::power::pow;
use vstd::prelude::*;

verus! {

/// The word that stands for a truth value: 1 for true, 0 for false.
pub open spec fn truth(b: bool) -> Word {
    if b {
        Word::from_nat(1)
    } else {
        Word::from_nat(0)
    }
}

/// Whether the opcode is folded when its one operand is a constant.
pub open spec fn folds_unary(op: Instruction) -> bool {
    op == Instruction::ISZERO || op == Instruction::NOT
}

/// Whether the opcode is folded when both of its operands are constants.
pub open spec fn folds_binary(op: Instruction) -> bool {
    op == Instruction::ADD || op == Instruction::MUL || op == Instruction::SUB || op
        == Instruction::DIV || op == Instruction::MOD || op == Instruction::EXP || op
        == Instruction::LT || op == Instruction::GT || op == Instruction::EQ || op
        == Instruction::AND || op == Instruction::OR || op == Instruction::XOR || op
        == Instruction::BYTE || op == Instruction::SHL || op == Instruction::SHR
}

/// Whether the opcode is one of the two modular instructions with three operands.
pub open spec fn is_modular(op: Instruction) -> bool {
    op == Instruction::ADDMOD || op == Instruction::MULMOD
}

/// What the EVM computes for an unsigned arithmetic, comparison or bitwise
/// opcode from the values of its operands, the first being the top of the stack.
///
/// This is the meaning of the opcodes that folding is held against. It is
/// defined for the opcodes of `folds_unary`, `folds_binary` and `is_modular`,
/// applied to one, two and three operands.
pub open spec fn evm_result(op: Instruction, args: Seq<Word>) -> Word {
    let a = args[0];
    let b = args[1];
    let c = args[2];
    match op {
        Instruction::ISZERO => truth(a@ == 0),
        Instruction::NOT => a.spec_not(),
        Instruction::ADD => Word::from_nat(a@ + b@),
        Instruction::MUL => Word::from_nat(a@ * b@),
        Instruction::SUB => Word::from_nat(((a@ - b@) % (modulus() as int)) as nat),
        Instruction::DIV => if b@ == 0 {
            Word::from_nat(0)
        } else {
            Word::from_nat(a@ / b@)
        },
        Instruction::MOD => if b@ == 0 {
            Word::from_nat(0)
        } else {
            Word::from_nat(a@ % b@)
        },
        Instruction::EXP => Word::from_nat((pow(a@ as int, b@) % (modulus() as int)) as nat),
        Instruction::LT => truth(a@ < b@),
        Instruction::GT => truth(a@ > b@),
        Instruction::EQ => truth(a@ == b@),
        Instruction::AND => a.spec_bitand(b),
        Instruction::OR => a.spec_bitor(b),
        Instruction::XOR => a.spec_bitxor(b),
        Instruction::BYTE => if a@ >= 32 {
            Word::from_nat(0)
        } else {
            Word::from_nat((b@ / pow2((8 * (31 - a@)) as nat)) % 256)
        },
        Instruction::SHL => Word::from_nat(b@ * pow2(a@)),
        Instruction::SHR => Word::from_nat(b@ / pow2(a@)),
        Instruction::ADDMOD => if c@ == 0 {
            Word::from_nat(0)
        } else {
            Word::from_nat((a@ + b@) % c@)
        },
        Instruction::MULMOD => if c@ == 0 {
            Word::from_nat(0)
        } else {
            Word::from_nat((a@ * b@) % c@)
        },
        _ => Word::from_nat(0),
    }
}

/// Whether the operand is the constant `n`.
pub open spec fn is_constant_of(operand: Operand, n: nat) -> bool {
    operand is Constant && operand.constant_value()@ == n
}

/// The simplification of a two-operand instruction of which exactly one operand,
/// at most, is a constant: the operand or constant that the instruction is known
/// to give, if an identity applies. The rules are tried in the order written.
pub open spec fn identity_fold(op: Instruction, idx: usize, x: Operand, y: Operand) -> Option<
    Operand,
> {
    let zero = Operand::Constant((idx, Word::from_nat(0)));
    let one = Operand::Constant((idx, Word::from_nat(1)));
    match op {
        Instruction::ADD => if is_constant_of(y, 0) {
            Some(x)
        } else if is_constant_of(x, 0) {
            Some(y)
        } else {
            None
        },
        Instruction::SUB => if is_constant_of(y, 0) {
            Some(x)
        } else {
            None
        },
        Instruction::MUL => if is_constant_of(y, 1) {
            Some(x)
        } else if is_constant_of(x, 1) {
            Some(y)
        } else if is_constant_of(y, 0) || is_constant_of(x, 0) {
            Some(zero)
        } else {
            None
        },
        Instruction::DIV => if is_constant_of(y, 0) {
            Some(zero)
        } else if is_constant_of(y, 1) {
            Some(x)
        } else if is_constant_of(x, 0) {
            Some(zero)
        } else {
            None
        },
        Instruction::EXP => if is_constant_of(y, 0) {
            Some(one)
        } else if is_constant_of(y, 1) {
            Some(x)
        } else if is_constant_of(x, 0) {
            Some(zero)
        } else {
            None
        },
        Instruction::SHL => if is_constant_of(x, 0) {
            Some(y)
        } else {
            None
        },
        Instruction::SHR => if is_constant_of(x, 0) {
            Some(y)
        } else {
            None
        },
        _ => None,
    }
}

/// The values of a sequence of `Constant` operands.
pub open spec fn constant_values(args: Seq<Operand>) -> Seq<Word> {
    Seq::new(args.len(), |i: int| args[i].constant_value())
}

/// Whether every operand of the sequence is a `Constant`.
pub open spec fn all_constant(args: Seq<Operand>) -> bool {
    forall|i: int| 0 <= i < args.len() ==> (#[trigger] args[i]) is Constant
}

/// The operand that instruction `idx` with opcode `op` is known to give for the
/// operands `args`, if folding applies:
/// - a one-operand or two-operand opcode that is folded, on constants, gives the
///   constant that the EVM computes;
/// - a two-operand opcode with an operand that is no constant may give an
///   operand or a constant by an identity;
/// - `ADDMOD` and `MULMOD` on three constants give 0 where the modulus is 0, and
///   are not folded otherwise.
pub open spec fn fold(op: Instruction, idx: usize, args: Seq<Operand>) -> Option<Operand> {
    if args.len() == 1 {
        if all_constant(args) && folds_unary(op) {
            Some(Operand::Constant((idx, evm_result(op, constant_values(args)))))
        } else {
            None
        }
    } else if args.len() == 2 {
        if all_constant(args) {
            if folds_binary(op) {
                Some(Operand::Constant((idx, evm_result(op, constant_values(args)))))
            } else {
                None
            }
        } else {
            identity_fold(op, idx, args[0], args[1])
        }
    } else if args.len() == 3 {
        if all_constant(args) && is_modular(op) && args[2].constant_value()@ == 0 {
            Some(Operand::Constant((idx, Word::from_nat(0))))
        } else {
            None
        }
    } else {
        None
    }
}

/// What evaluating instruction `idx` with opcode `op` on the operands `args`
/// gives: the operands it leaves on the stack, and whether they are known. Where
/// folding applies that is the folded operand; otherwise one reference to each
/// result of the instruction.
pub open spec fn spec_evaluate_opcode(op: Instruction, idx: usize, args: Seq<Operand>) -> (
    Seq<Operand>,
    bool,
) {
    match fold(op, idx, args) {
        Some(result) => (seq![result], true),
        None => (
            Seq::new(op.spec_info().ret as nat, |k: int| Operand::InstructionRef((idx, k as usize))),
            false,
        ),
    }
}

/// Whether the assignment gives every constant operand the value it carries.
pub open spec fn respects_constants(env: spec_fn(Operand) -> Word) -> bool {
    forall|o: Operand| o is Constant ==> #[trigger] env(o) == o.constant_value()
}

/// The values that the assignment gives to a sequence of operands.
pub open spec fn operand_values(env: spec_fn(Operand) -> Word, args: Seq<Operand>) -> Seq<Word> {
    Seq::new(args.len(), |i: int| env(args[i]))
}

/// `2^256` is the power of two with exponent 256.
pub proof fn lemma_modulus_is_pow2()
    ensures
        pow2(256) == modulus(),
        pow2(64) == pow2_64(),
{
    lemma2_to64();
    lemma_pow2_adds(64, 64);
    lemma_pow2_adds(128, 128);
    let p64 = pow2(64);
    let p128 = pow2(128);
    assert(p64 * p64 == 0x1_0000_0000_0000_0000_0000_0000_0000_0000nat) by (nonlinear_arith)
        requires
            p64 == 0x1_0000_0000_0000_0000nat,
    ;
    assert(p128 * p128 == modulus()) by (nonlinear_arith)
        requires
            p128 == 0x1_0000_0000_0000_0000_0000_0000_0000_0000nat,
    ;
}

/// Folds a one-operand opcode on a constant.
fn fold_unary(op: Instruction, a: Word) -> (r: Option<Word>)
    ensures
        r == (if folds_unary(op) {
            Some(evm_result(op, seq![a]))
        } else {
            None
        }),
{
    match op {
        Instruction::ISZERO => Some(
            if a.is_zero() {
                Word::one()
            } else {
                Word::zero()
            },
        ),
        Instruction::NOT => Some(a.not()),
        _ => None,
    }
}

/// The byte of `value` at position `index`, position 0 being the most
/// significant; 0 for a position of 32 or more.
fn byte_of(index: Word, value: Word) -> (r: Word)
    ensures
        r == evm_result(Instruction::BYTE, seq![index, value]),
{
    if index.lt(&Word::from_u64(32)) {
        let i = index.low_u64();
        assert(i == index@) by {
            vstd::arithmetic::div_mod::lemma_small_mod(index@, pow2_64());
        }
        let shift: usize = 8 * (31 - i as usize);
        let shifted = arith::shr(value, shift);
        let mask = Word::from_u64(0xff);
        let r = shifted.bitand(mask);
        proof {
            let l0 = shifted.limb0;
            assert(l0 & 0xff == l0 % 256) by (bit_vector);
            assert(shifted.limb1 & 0 == 0) by (bit_vector);
            assert(shifted.limb2 & 0 == 0) by (bit_vector);
            assert(shifted.limb3 & 0 == 0) by (bit_vector);
            assert(r@ == l0 % 256);
            let high = shifted.limb1 as int * 0x100_0000_0000_0000 + shifted.limb2 as int
                * 0x100_0000_0000_0000_0000_0000_0000_0000 + shifted.limb3 as int
                * 0x100_0000_0000_0000_0000_0000_0000_0000_0000_0000_0000_0000;
            let q = high + l0 as int / 256;
            assert(shifted@ == q * 256 + (l0 % 256) as int);
            lemma_fundamental_div_mod_converse(shifted@ as int, 256, q, (l0 % 256) as int);
            r.lemma_is_from_nat(shifted@ % 256);
        }
        r
    } else {
        Word::zero()
    }
}

/// Shifts `value` by `shift` bits: up if `left`, down otherwise. What leaves the
/// word is dropped, so a shift of 256 bits or more gives 0.
fn shift_word(left: bool, shift: Word, value: Word) -> (r: Word)
    ensures
        left ==> r == evm_result(Instruction::SHL, seq![shift, value]),
        !left ==> r == evm_result(Instruction::SHR, seq![shift, value]),
{
    match shift.to_usize() {
        Some(s) => {
            if left {
                let r = arith::shl(value, s);
                proof {
                    r.lemma_is_from_nat(value@ * pow2(shift@));
                }
                r
            } else {
                let r = arith::shr(value, s);
                proof {
                    r.lemma_is_from_nat(value@ / pow2(shift@));
                }
                r
            }
        },
        None => {
            let r = Word::zero();
            proof {
                lemma_modulus_is_pow2();
                let rest = (shift@ - 256) as nat;
                lemma_pow2_adds(256, rest);
                lemma_pow2_pos(rest);
                value.lemma_view_bound();
                if left {
                    let k = value@ * pow2(rest);
                    assert(value@ * pow2(shift@) == k * modulus()) by (nonlinear_arith)
                        requires
                            pow2(shift@) == modulus() * pow2(rest),
                            k == value@ * pow2(rest),
                    ;
                    lemma_mod_multiples_basic(k as int, modulus() as int);
                    r.lemma_is_from_nat(value@ * pow2(shift@));
                } else {
                    assert(pow2(shift@) >= modulus()) by (nonlinear_arith)
                        requires
                            pow2(shift@) == modulus() * pow2(rest),
                            pow2(rest) > 0,
                    ;
                    lemma_basic_div(value@ as int, pow2(shift@) as int);
                    r.lemma_is_from_nat(value@ / pow2(shift@));
                }
            }
            r
        },
    }
}

/// Folds a two-operand opcode on two constants.
fn fold_binary(op: Instruction, a: Word, b: Word) -> (r: Option<Word>)
    ensures
        r == (if folds_binary(op) {
            Some(evm_result(op, seq![a, b]))
        } else {
            None
        }),
{
    match op {
        Instruction::ADD => {
            let r = arith::wrapping_add(a, b);
            proof {
                r.lemma_is_from_nat(a@ + b@);
            }
            Some(r)
        },
        Instruction::MUL => {
            let r = arith::wrapping_mul(a, b);
            proof {
                r.lemma_is_from_nat(a@ * b@);
            }
            Some(r)
        },
        Instruction::SUB => {
            let r = arith::wrapping_sub(a, b);
            proof {
                r.lemma_is_from_nat(((a@ - b@) % (modulus() as int)) as nat);
            }
            Some(r)
        },
        Instruction::DIV => {
            if b.is_zero() {
                Some(Word::zero())
            } else {
                let r = arith::div(a, b);
                proof {
                    r.lemma_is_from_nat(a@ / b@);
                }
                Some(r)
            }
        },
        Instruction::MOD => {
            if b.is_zero() {
                Some(Word::zero())
            } else {
                let r = arith::rem(a, b);
                proof {
                    r.lemma_is_from_nat(a@ % b@);
                }
                Some(r)
            }
        },
        Instruction::EXP => {
            let r = arith::wrapping_pow(a, b);
            proof {
                r.lemma_is_from_nat((pow(a@ as int, b@) % (modulus() as int)) as nat);
            }
            Some(r)
        },
        Instruction::LT => Some(
            if a.lt(&b) {
                Word::one()
            } else {
                Word::zero()
            },
        ),
        Instruction::GT => Some(
            if b.lt(&a) {
                Word::one()
            } else {
                Word::zero()
            },
        ),
        Instruction::EQ => {
            proof {
                if a@ == b@ {
                    Word::lemma_view_injective(a, b);
                }
            }
            Some(
                if a == b {
                    Word::one()
                } else {
                    Word::zero()
                },
            )
        },
        Instruction::AND => Some(a.bitand(b)),
        Instruction::OR => Some(a.bitor(b)),
        Instruction::XOR => Some(a.bitxor(b)),
        Instruction::BYTE => Some(byte_of(a, b)),
        Instruction::SHR => Some(shift_word(false, a, b)),
        Instruction::SHL => Some(shift_word(true, a, b)),
        _ => None,
    }
}

/// Whether the operand is a constant that denotes `n`.
fn is_constant(operand: Operand, n: u64) -> (r: bool)
    ensures
        r == is_constant_of(operand, n as nat),
{
    match operand {
        Operand::Constant((_, v)) => {
            proof {
                if v@ == n {
                    Word::lemma_view_injective(v, Word::from_nat(n as nat));
                    Word::lemma_view_from_nat(n as nat);
                }
            }
            v == Word::from_u64(n)
        },
        _ => false,
    }
}

/// Simplifies a two-operand instruction by the identities of its opcode.
fn fold_identity(op: Instruction, idx: usize, x: Operand, y: Operand) -> (r: Option<Operand>)
    ensures
        r == identity_fold(op, idx, x, y),
{
    match op {
        Instruction::ADD => {
            if is_constant(y, 0) {
                Some(x)
            } else if is_constant(x, 0) {
                Some(y)
            } else {
                None
            }
        },
        Instruction::SUB => {
            if is_constant(y, 0) {
                Some(x)
            } else {
                None
            }
        },
        Instruction::MUL => {
            if is_constant(y, 1) {
                Some(x)
            } else if is_constant(x, 1) {
                Some(y)
            } else if is_constant(y, 0) {
                Some(Operand::Constant((idx, Word::zero())))
            } else if is_constant(x, 0) {
                Some(Operand::Constant((idx, Word::zero())))
            } else {
                None
            }
        },
        Instruction::DIV => {
            if is_constant(y, 0) {
                Some(Operand::Constant((idx, Word::zero())))
            } else if is_constant(y, 1) {
                Some(x)
            } else if is_constant(x, 0) {
                Some(Operand::Constant((idx, Word::zero())))
            } else {
                None
            }
        },
        Instruction::EXP => {
            if is_constant(y, 0) {
                Some(Operand::Constant((idx, Word::one())))
            } else if is_constant(y, 1) {
                Some(x)
            } else if is_constant(x, 0) {
                Some(Operand::Constant((idx, Word::zero())))
            } else {
                None
            }
        },
        Instruction::SHL => {
            if is_constant(x, 0) {
                Some(y)
            } else {
                None
            }
        },
        Instruction::SHR => {
            if is_constant(x, 0) {
                Some(y)
            } else {
                None
            }
        },
        _ => None,
    }
}

/// The operand that the instruction is known to give, if folding applies.
fn fold_operands(op: Instruction, idx: usize, args: &Vec<Operand>) -> (r: Option<Operand>)
    ensures
        r == fold(op, idx, args@),
{
    if args.len() == 1 {
        match args[0] {
            Operand::Constant((_, a)) => {
                assert(constant_values(args@) =~= seq![a]);
                match fold_unary(op, a) {
                    Some(v) => Some(Operand::Constant((idx, v))),
                    None => None,
                }
            },
            _ => None,
        }
    } else if args.len() == 2 {
        match (args[0], args[1]) {
            (Operand::Constant((_, a)), Operand::Constant((_, b))) => {
                assert(constant_values(args@) =~= seq![a, b]);
                match fold_binary(op, a, b) {
                    Some(v) => Some(Operand::Constant((idx, v))),
                    None => None,
                }
            },
            _ => {
                assert(!all_constant(args@)) by {
                    if !(args@[0] is Constant) {
                    } else {
                        assert(!(args@[1] is Constant));
                    }
                }
                fold_identity(op, idx, args[0], args[1])
            },
        }
    } else if args.len() == 3 {
        match (args[0], args[1], args[2]) {
            (Operand::Constant(_), Operand::Constant(_), Operand::Constant((_, c))) => {
                match op {
                    Instruction::ADDMOD => {
                        if c.is_zero() {
                            Some(Operand::Constant((idx, Word::zero())))
                        } else {
                            None
                        }
                    },
                    Instruction::MULMOD => {
                        if c.is_zero() {
                            Some(Operand::Constant((idx, Word::zero())))
                        } else {
                            None
                        }
                    },
                    _ => None,
                }
            },
            _ => {
                assert(!all_constant(args@)) by {
                    if !(args@[0] is Constant) {
                    } else if !(args@[1] is Constant) {
                    } else {
                        assert(!(args@[2] is Constant));
                    }
                }
                None
            },
        }
    } else {
        None
    }
}

/// Folding agrees with the EVM: whatever values the operands that are no
/// constants hold at run time, the operand that folding gives holds what the
/// opcode computes from the values of its operands.
///
/// One rule is left out, because it does not hold there: `EXP` with the constant
/// base 0 is folded to 0 whatever the exponent, while the EVM gives 1 where the
/// exponent holds 0.
#[verifier::rlimit(50)]
pub proof fn lemma_fold_sound(
    op: Instruction,
    idx: usize,
    args: Seq<Operand>,
    env: spec_fn(Operand) -> Word,
)
    requires
        respects_constants(env),
        fold(op, idx, args) is Some,
        !(op == Instruction::EXP && is_constant_of(args[0], 0) && !(args[1] is Constant) && env(
            args[1],
        )@ == 0),
    ensures
        env(fold(op, idx, args)->Some_0) == evm_result(op, operand_values(env, args)),
{
    let values = operand_values(env, args);
    if all_constant(args) {
        assert(values =~= constant_values(args));
        if args.len() == 3 {
            assert(values[2] == args[2].constant_value());
        }
    } else {
        let x = args[0];
        let y = args[1];
        let a = env(x);
        let b = env(y);
        assert(values[0] == a && values[1] == b);
        a.lemma_from_nat_view();
        b.lemma_from_nat_view();
        a.lemma_view_bound();
        b.lemma_view_bound();
        let m = modulus() as int;
        if op == Instruction::ADD || op == Instruction::SUB {
            vstd::arithmetic::div_mod::lemma_small_mod(a@, modulus());
        } else if op == Instruction::MUL {
            assert(a@ * 1 == a@ && 1 * b@ == b@ && a@ * 0 == 0 && 0 * b@ == 0) by (nonlinear_arith);
        } else if op == Instruction::DIV {
            if is_constant_of(y, 0) {
            } else if is_constant_of(y, 1) {
                assert(a@ / 1 == a@) by (nonlinear_arith);
            } else if b@ != 0 {
                lemma_basic_div(0, b@ as int);
            }
        } else if op == Instruction::EXP {
            if is_constant_of(y, 0) {
                vstd::arithmetic::power::lemma_pow0(a@ as int);
                vstd::arithmetic::div_mod::lemma_small_mod(1, modulus());
            } else if is_constant_of(y, 1) {
                vstd::arithmetic::power::lemma_pow1(a@ as int);
                vstd::arithmetic::div_mod::lemma_small_mod(a@, modulus());
            } else {
                vstd::arithmetic::power::lemma0_pow(b@);
                vstd::arithmetic::div_mod::lemma_small_mod(0, modulus());
            }
        } else if op == Instruction::SHL {
            lemma2_to64();
            assert(b@ * 1 == b@) by (nonlinear_arith);
        } else if op == Instruction::SHR {
            lemma2_to64();
            assert(b@ / 1 == b@) by (nonlinear_arith);
        }
    }
}

/// Whatever folding gives stands for the single result of the instruction: an
/// opcode to which folding applies leaves exactly one item on the stack.
pub proof fn lemma_fold_single_result(op: Instruction, idx: usize, args: Seq<Operand>)
    requires
        fold(op, idx, args) is Some,
    ensures
        op.spec_info().ret == 1,
{
}

/// Evaluates instruction `idx`, with opcode `evm_inst`, on operands that are
/// already resolved. Returns the operands that the instruction leaves on the
/// stack and whether they are known at analysis time: the folded operand where
/// folding applies, and otherwise a reference to each result of the instruction.
pub fn evaluate_opcode(evm_inst: Instruction, idx: usize, args: &Vec<Operand>) -> (r: (
    Vec<Operand>,
    bool,
))
    requires
        args@.len() == evm_inst.spec_info().args,
    ensures
        (r.0@, r.1) == spec_evaluate_opcode(evm_inst, idx, args@),
        r.0@.len() == evm_inst.spec_info().ret,
{
    let mut ret: Vec<Operand> = Vec::new();
    let evm_iinfo = evm_inst.info();
    let mut is_constant = false;
    match fold_operands(evm_inst, idx, args) {
        Some(res) => {
            proof {
                lemma_fold_single_result(evm_inst, idx, args@);
            }
            ret.push(res);
            is_constant = true;
        },
        None => {
            let mut ret_idx: usize = 0;
            while ret_idx < evm_iinfo.ret
                invariant
                    ret_idx <= evm_iinfo.ret,
                    ret@ == Seq::new(
                        ret_idx as nat,
                        |k: int| Operand::InstructionRef((idx, k as usize)),
                    ),
                decreases evm_iinfo.ret - ret_idx,
            {
                ret.push(Operand::InstructionRef((idx, ret_idx)));
                ret_idx += 1;
            }
        },
    }
    (ret, is_constant)
}

} // verus!
