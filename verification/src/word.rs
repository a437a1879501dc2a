//! 256-bit machine words of the EVM.

use vstd::arithmetic::div_mod::lemma_fundamental_div_mod;
use vstd::arithmetic::div_mod::lemma_fundamental_div_mod_converse;
use vstd::prelude::*;

verus! {

/// `2^64`, the weight of the second limb.
pub open spec fn pow2_64() -> nat {
    0x1_0000_0000_0000_0000nat
}

/// `2^128`, the weight of the third limb.
pub open spec fn pow2_128() -> nat {
    0x1_0000_0000_0000_0000_0000_0000_0000_0000nat
}

/// `2^192`, the weight of the fourth limb.
pub open spec fn pow2_192() -> nat {
    0x1_0000_0000_0000_0000_0000_0000_0000_0000_0000_0000_0000_0000nat
}

/// `2^256`, the number of distinct words.
pub open spec fn modulus() -> nat {
    0x1_0000_0000_0000_0000_0000_0000_0000_0000_0000_0000_0000_0000_0000_0000_0000_0000nat
}

/// The number that a byte string denotes when read most significant byte first.
pub open spec fn be_nat(bytes: Seq<u8>) -> nat
    decreases bytes.len(),
{
    if bytes.len() == 0 {
        0
    } else {
        be_nat(bytes.drop_last()) * 256 + bytes.last() as nat
    }
}

/// An unsigned 256-bit integer, held as four 64-bit limbs, least significant first.
///
/// Every combination of limbs is a valid word, and two words are equal exactly
/// when they denote the same number.
#[derive(Clone, Copy, Debug, PartialEq, Eq, Structural)]
pub struct Word {
    pub limb0: u64,
    pub limb1: u64,
    pub limb2: u64,
    pub limb3: u64,
}

impl View for Word {
    type V = nat;

    /// The number that the word denotes.
    open spec fn view(&self) -> nat {
        self.limb0 as nat + self.limb1 as nat * pow2_64() + self.limb2 as nat * pow2_128()
            + self.limb3 as nat * pow2_192()
    }
}

impl From<u64> for Word {
    /// The word that denotes `value`.
    fn from(value: u64) -> (r: Word) {
        Word { limb0: value, limb1: 0, limb2: 0, limb3: 0 }
    }
}

impl vstd::std_specs::convert::FromSpecImpl<u64> for Word {
    open spec fn obeys_from_spec() -> bool {
        true
    }

    open spec fn from_spec(value: u64) -> Word {
        Word { limb0: value, limb1: 0, limb2: 0, limb3: 0 }
    }
}

impl Word {
    /// The word that denotes `n` modulo `2^256`.
    pub open spec fn from_nat(n: nat) -> Word {
        Word {
            limb0: (n % pow2_64()) as u64,
            limb1: ((n / pow2_64()) % pow2_64()) as u64,
            limb2: ((n / pow2_128()) % pow2_64()) as u64,
            limb3: ((n / pow2_192()) % pow2_64()) as u64,
        }
    }

    /// Every word denotes a number below `2^256`.
    pub proof fn lemma_view_bound(self)
        ensures
            self@ < modulus(),
    {
    }

    /// A word is recovered from the number it denotes.
    pub proof fn lemma_from_nat_view(self)
        ensures
            Word::from_nat(self@) == self,
    {
        let n = self@ as int;
        let l0 = self.limb0 as int;
        let l1 = self.limb1 as int;
        let l2 = self.limb2 as int;
        let l3 = self.limb3 as int;
        let b1 = pow2_64() as int;
        let b2 = pow2_128() as int;
        let b3 = pow2_192() as int;
        lemma_fundamental_div_mod_converse(n, b1, l1 + l2 * b1 + l3 * b2, l0);
        lemma_fundamental_div_mod_converse(n / b1, b1, l2 + l3 * b1, l1);
        lemma_fundamental_div_mod_converse(n, b2, l2 + l3 * b1, l0 + l1 * b1);
        lemma_fundamental_div_mod_converse(n / b2, b1, l3, l2);
        lemma_fundamental_div_mod_converse(n, b3, l3, l0 + l1 * b1 + l2 * b2);
        lemma_fundamental_div_mod_converse(n / b3, b1, 0, l3);
    }

    /// The word of a number denotes that number modulo `2^256`.
    pub proof fn lemma_view_from_nat(n: nat)
        ensures
            Word::from_nat(n)@ == n % modulus(),
    {
        let n = n as int;
        let b1 = pow2_64() as int;
        let b2 = pow2_128() as int;
        let b3 = pow2_192() as int;
        let q1 = n / b1;
        let q2 = q1 / b1;
        let q3 = q2 / b1;
        let q4 = q3 / b1;
        lemma_fundamental_div_mod(n, b1);
        lemma_fundamental_div_mod(q1, b1);
        lemma_fundamental_div_mod(q2, b1);
        lemma_fundamental_div_mod(q3, b1);
        lemma_fundamental_div_mod_converse(n, b2, q2, n % b1 + (q1 % b1) * b1);
        lemma_fundamental_div_mod_converse(n, b3, q3, n % b1 + (q1 % b1) * b1 + (q2 % b1) * b2);
        lemma_fundamental_div_mod_converse(
            n,
            modulus() as int,
            q4,
            n % b1 + (q1 % b1) * b1 + (q2 % b1) * b2 + (q3 % b1) * b3,
        );
    }

    /// A word that denotes `n`, or `n` modulo `2^256`, is the word of `n`.
    pub proof fn lemma_is_from_nat(self, n: nat)
        requires
            self@ == n || self@ == n % modulus(),
        ensures
            self == Word::from_nat(n),
    {
        Word::lemma_view_from_nat(n);
        self.lemma_view_bound();
        if self@ == n {
            vstd::arithmetic::div_mod::lemma_small_mod(n, modulus());
        }
        Word::lemma_view_injective(self, Word::from_nat(n));
    }

    /// Two words that denote the same number are the same word.
    pub proof fn lemma_view_injective(a: Word, b: Word)
        requires
            a@ == b@,
        ensures
            a == b,
    {
        a.lemma_from_nat_view();
        b.lemma_from_nat_view();
    }

    /// The word 0.
    pub fn zero() -> (r: Word)
        ensures
            r@ == 0,
            r == Word::from_nat(0),
    {
        Word { limb0: 0, limb1: 0, limb2: 0, limb3: 0 }
    }

    /// The word 1.
    pub fn one() -> (r: Word)
        ensures
            r@ == 1,
            r == Word::from_nat(1),
    {
        Word { limb0: 1, limb1: 0, limb2: 0, limb3: 0 }
    }

    /// The word that denotes `value`.
    pub fn from_u64(value: u64) -> (r: Word)
        ensures
            r@ == value,
            r == Word::from_nat(value as nat),
    {
        Word { limb0: value, limb1: 0, limb2: 0, limb3: 0 }
    }

    /// Whether the word denotes 0.
    pub fn is_zero(&self) -> (r: bool)
        ensures
            r == (self@ == 0),
    {
        self.limb0 == 0 && self.limb1 == 0 && self.limb2 == 0 && self.limb3 == 0
    }

    /// The word that denotes `value`.
    pub fn from_usize(value: usize) -> (r: Word)
        ensures
            r@ == value,
            r == Word::from_nat(value as nat),
    {
        Word { limb0: value as u64, limb1: 0, limb2: 0, limb3: 0 }
    }

    /// The least significant 64 bits of the word.
    pub fn low_u64(&self) -> (r: u64)
        ensures
            r == self@ % pow2_64(),
    {
        proof {
            lemma_fundamental_div_mod_converse(
                self@ as int,
                pow2_64() as int,
                self.limb1 as int + self.limb2 as int * pow2_64() as int + self.limb3 as int
                    * pow2_128() as int,
                self.limb0 as int,
            );
        }
        self.limb0
    }

    /// The word as a `usize`, if it denotes a number that fits one.
    pub fn to_usize(&self) -> (r: Option<usize>)
        ensures
            r == (if self@ <= usize::MAX {
                Some(self@ as usize)
            } else {
                None
            }),
    {
        if self.limb1 == 0 && self.limb2 == 0 && self.limb3 == 0 && self.limb0 <= usize::MAX as u64 {
            Some(self.limb0 as usize)
        } else {
            None
        }
    }

    /// Whether `self` denotes a smaller number than `other`.
    pub fn lt(&self, other: &Word) -> (r: bool)
        ensures
            r == (self@ < other@),
    {
        if self.limb3 != other.limb3 {
            self.limb3 < other.limb3
        } else if self.limb2 != other.limb2 {
            self.limb2 < other.limb2
        } else if self.limb1 != other.limb1 {
            self.limb1 < other.limb1
        } else {
            self.limb0 < other.limb0
        }
    }

    /// The bitwise and of two words.
    pub open spec fn spec_bitand(self, other: Word) -> Word {
        Word {
            limb0: self.limb0 & other.limb0,
            limb1: self.limb1 & other.limb1,
            limb2: self.limb2 & other.limb2,
            limb3: self.limb3 & other.limb3,
        }
    }

    /// The bitwise or of two words.
    pub open spec fn spec_bitor(self, other: Word) -> Word {
        Word {
            limb0: self.limb0 | other.limb0,
            limb1: self.limb1 | other.limb1,
            limb2: self.limb2 | other.limb2,
            limb3: self.limb3 | other.limb3,
        }
    }

    /// The bitwise exclusive or of two words.
    pub open spec fn spec_bitxor(self, other: Word) -> Word {
        Word {
            limb0: self.limb0 ^ other.limb0,
            limb1: self.limb1 ^ other.limb1,
            limb2: self.limb2 ^ other.limb2,
            limb3: self.limb3 ^ other.limb3,
        }
    }

    /// The bitwise complement of a word.
    pub open spec fn spec_not(self) -> Word {
        Word { limb0: !self.limb0, limb1: !self.limb1, limb2: !self.limb2, limb3: !self.limb3 }
    }

    /// The bitwise and of two words.
    pub fn bitand(self, other: Word) -> (r: Word)
        ensures
            r == self.spec_bitand(other),
    {
        Word {
            limb0: self.limb0 & other.limb0,
            limb1: self.limb1 & other.limb1,
            limb2: self.limb2 & other.limb2,
            limb3: self.limb3 & other.limb3,
        }
    }

    /// The bitwise or of two words.
    pub fn bitor(self, other: Word) -> (r: Word)
        ensures
            r == self.spec_bitor(other),
    {
        Word {
            limb0: self.limb0 | other.limb0,
            limb1: self.limb1 | other.limb1,
            limb2: self.limb2 | other.limb2,
            limb3: self.limb3 | other.limb3,
        }
    }

    /// The bitwise exclusive or of two words.
    pub fn bitxor(self, other: Word) -> (r: Word)
        ensures
            r == self.spec_bitxor(other),
    {
        Word {
            limb0: self.limb0 ^ other.limb0,
            limb1: self.limb1 ^ other.limb1,
            limb2: self.limb2 ^ other.limb2,
            limb3: self.limb3 ^ other.limb3,
        }
    }

    /// The bitwise complement of a word.
    pub fn not(self) -> (r: Word)
        ensures
            r == self.spec_not(),
    {
        Word { limb0: !self.limb0, limb1: !self.limb1, limb2: !self.limb2, limb3: !self.limb3 }
    }
}

} // verus!
