//! Word arithmetic that `ethereum_types::U256` carries out.
//!
//! Each function here hands its operands to one operation of `U256` and states
//! what that operation returns; none of these statements is proved.

use crate::word::be_nat;
use crate::word::modulus;
use crate::word::Word;
use ethereum_types::U256;
use vstd::arithmetic::power2::pow2;
use vstd::arithmetic::power::pow;
use vstd::prelude::*;

verus! {

/// `U256::overflowing_add`, without its overflow flag: the sum modulo `2^256`.
#[verifier::external_body]
pub(crate) fn wrapping_add(a: Word, b: Word) -> (r: Word)
    ensures
        r@ == (a@ + b@) % modulus(),
{
    let x = U256([a.limb0, a.limb1, a.limb2, a.limb3]);
    let y = U256([b.limb0, b.limb1, b.limb2, b.limb3]);
    let (z, _) = x.overflowing_add(y);
    Word { limb0: z.0[0], limb1: z.0[1], limb2: z.0[2], limb3: z.0[3] }
}

/// `U256::overflowing_sub`, without its overflow flag: the difference modulo `2^256`.
#[verifier::external_body]
pub(crate) fn wrapping_sub(a: Word, b: Word) -> (r: Word)
    ensures
        r@ == (a@ - b@) % (modulus() as int),
{
    let x = U256([a.limb0, a.limb1, a.limb2, a.limb3]);
    let y = U256([b.limb0, b.limb1, b.limb2, b.limb3]);
    let (z, _) = x.overflowing_sub(y);
    Word { limb0: z.0[0], limb1: z.0[1], limb2: z.0[2], limb3: z.0[3] }
}

/// `U256::overflowing_mul`, without its overflow flag: the product modulo `2^256`.
#[verifier::external_body]
pub(crate) fn wrapping_mul(a: Word, b: Word) -> (r: Word)
    ensures
        r@ == (a@ * b@) % modulus(),
{
    let x = U256([a.limb0, a.limb1, a.limb2, a.limb3]);
    let y = U256([b.limb0, b.limb1, b.limb2, b.limb3]);
    let (z, _) = x.overflowing_mul(y);
    Word { limb0: z.0[0], limb1: z.0[1], limb2: z.0[2], limb3: z.0[3] }
}

/// `U256`'s `/`: the quotient, rounded down. `U256` panics on a zero divisor.
#[verifier::external_body]
pub(crate) fn div(a: Word, b: Word) -> (r: Word)
    requires
        b@ != 0,
    ensures
        r@ == a@ / b@,
{
    let x = U256([a.limb0, a.limb1, a.limb2, a.limb3]);
    let y = U256([b.limb0, b.limb1, b.limb2, b.limb3]);
    let z = x / y;
    Word { limb0: z.0[0], limb1: z.0[1], limb2: z.0[2], limb3: z.0[3] }
}

/// `U256`'s `%`: the remainder. `U256` panics on a zero divisor.
#[verifier::external_body]
pub(crate) fn rem(a: Word, b: Word) -> (r: Word)
    requires
        b@ != 0,
    ensures
        r@ == a@ % b@,
{
    let x = U256([a.limb0, a.limb1, a.limb2, a.limb3]);
    let y = U256([b.limb0, b.limb1, b.limb2, b.limb3]);
    let z = x % y;
    Word { limb0: z.0[0], limb1: z.0[1], limb2: z.0[2], limb3: z.0[3] }
}

/// `U256::overflowing_pow`, without its overflow flag: the power modulo `2^256`,
/// with `0` to the power `0` being `1`.
#[verifier::external_body]
pub(crate) fn wrapping_pow(base: Word, exponent: Word) -> (r: Word)
    ensures
        r@ == pow(base@ as int, exponent@) % (modulus() as int),
{
    let x = U256([base.limb0, base.limb1, base.limb2, base.limb3]);
    let y = U256([exponent.limb0, exponent.limb1, exponent.limb2, exponent.limb3]);
    let (z, _) = x.overflowing_pow(y);
    Word { limb0: z.0[0], limb1: z.0[1], limb2: z.0[2], limb3: z.0[3] }
}

/// `U256`'s `<<` by a `usize`: the bits moved up, those that leave the word
/// dropped. A shift of 256 or more gives 0.
#[verifier::external_body]
pub(crate) fn shl(value: Word, shift: usize) -> (r: Word)
    ensures
        r@ == (value@ * pow2(shift as nat)) % modulus(),
{
    let x = U256([value.limb0, value.limb1, value.limb2, value.limb3]);
    let z = x << shift;
    Word { limb0: z.0[0], limb1: z.0[1], limb2: z.0[2], limb3: z.0[3] }
}

/// `U256`'s `>>` by a `usize`: the bits moved down, zeros moved in. A shift of
/// 256 or more gives 0.
#[verifier::external_body]
pub(crate) fn shr(value: Word, shift: usize) -> (r: Word)
    ensures
        r@ == value@ / pow2(shift as nat),
{
    let x = U256([value.limb0, value.limb1, value.limb2, value.limb3]);
    let z = x >> shift;
    Word { limb0: z.0[0], limb1: z.0[1], limb2: z.0[2], limb3: z.0[3] }
}

/// `U256::from_big_endian`: the number that at most 32 bytes denote, most
/// significant byte first. `U256` panics on a longer slice.
#[verifier::external_body]
pub(crate) fn from_big_endian(bytes: &[u8]) -> (r: Word)
    requires
        bytes@.len() <= 32,
    ensures
        r@ == be_nat(bytes@),
{
    let z = U256::from_big_endian(bytes);
    Word { limb0: z.0[0], limb1: z.0[1], limb2: z.0[2], limb3: z.0[3] }
}

} // verus!
