//! Which bytes of a contract's code are instructions, and which of those are
//! valid jump destinations.

use crate::instructions::Instruction;
use bitvec::vec::BitVec;
use vstd::prelude::*;

verus! {

/// A sequence of bits, stored by `bitvec::vec::BitVec`.
#[verifier::external_body]
#[derive(Debug, PartialEq, Eq)]
pub struct Bits {
    bits: BitVec,
}

/// The bits that a [`Bits`] holds, in order.
pub uninterp spec fn bits_of(b: Bits) -> Seq<bool>;

/// The largest number of bits that a [`Bits`] can hold: an eighth of the
/// address space.
pub open spec fn max_bits() -> nat {
    (usize::MAX / 8) as nat
}

impl View for Bits {
    type V = Seq<bool>;

    open spec fn view(&self) -> Seq<bool> {
        bits_of(*self)
    }
}

impl Bits {
    /// `BitVec::clone`: a bit vector with the same bits.
    #[verifier::external_body]
    fn copy(&self) -> (r: Bits)
        ensures
            bits_of(r) == bits_of(*self),
    {
        Bits { bits: self.bits.clone() }
    }

    /// `BitVec::with_capacity`: an empty bit vector with room for `capacity`
    /// bits. `BitVec` panics on a capacity above its maximal length.
    #[verifier::external_body]
    fn with_capacity(capacity: usize) -> (r: Bits)
        requires
            capacity <= max_bits(),
        ensures
            bits_of(r) == Seq::<bool>::empty(),
    {
        Bits { bits: BitVec::with_capacity(capacity) }
    }

    /// `BitVec::resize`: cuts the bit vector down to `new_len` bits, or fills it
    /// up to that length with bits of the given value. `BitVec` panics on a
    /// length above its maximal length.
    #[verifier::external_body]
    fn resize(&mut self, new_len: usize, value: bool)
        requires
            new_len <= max_bits(),
        ensures
            bits_of(*final(self)).len() == new_len,
            forall|i: int|
                0 <= i < new_len ==> (#[trigger] bits_of(*final(self))[i]) == (if i < bits_of(
                    *old(self),
                ).len() {
                    bits_of(*old(self))[i]
                } else {
                    value
                }),
    {
        self.bits.resize(new_len, value)
    }

    /// `BitSlice::set`, reached through the bit vector: writes one bit. `BitSlice`
    /// panics on an index that is out of bounds.
    #[verifier::external_body]
    fn set(&mut self, index: usize, value: bool)
        requires
            index < bits_of(*old(self)).len(),
        ensures
            bits_of(*final(self)) == bits_of(*old(self)).update(index as int, value),
    {
        self.bits.set(index, value)
    }

    /// `BitVec::len`: the number of bits.
    #[verifier::external_body]
    fn len(&self) -> (r: usize)
        ensures
            r == bits_of(*self).len(),
    {
        self.bits.len()
    }

    /// `BitVec`'s indexing by a `usize`: reads one bit. It panics on an index
    /// that is out of bounds.
    #[verifier::external_body]
    fn get(&self, index: usize) -> (r: bool)
        requires
            index < bits_of(*self).len(),
        ensures
            r == bits_of(*self)[index as int],
    {
        self.bits[index]
    }
}

/// The number of immediate bytes that follow an opcode byte in the code: `n`
/// for `PUSHn`, none for any other byte.
pub open spec fn immediate_len(opcode: u8) -> nat {
    if 0x60 <= opcode <= 0x7f {
        (opcode - 0x5f) as nat
    } else {
        0
    }
}

/// Whether a scan that stands on an opcode at `from` and steps from each
/// opcode over its immediate bytes to the next one comes to stand on `target`.
pub open spec fn scan_reaches(code: Seq<u8>, from: int, target: int) -> bool
    decreases target - from,
{
    if from >= target {
        from == target
    } else if from < 0 || from >= code.len() {
        false
    } else {
        let next = from + 1 + immediate_len(code[from]);
        next <= target && scan_reaches(code, next, target)
    }
}

/// Whether the byte at `position` is an instruction: the scan of the code from
/// its first byte comes to stand on it.
pub open spec fn is_instruction_at(code: Seq<u8>, position: int) -> bool {
    0 <= position < code.len() && scan_reaches(code, 0, position)
}

/// Whether the byte at `position` is a valid jump destination: an instruction
/// that is `JUMPDEST`.
pub open spec fn is_jumpdest_at(code: Seq<u8>, position: int) -> bool {
    is_instruction_at(code, position) && code[position] == 0x5b
}

/// Whether the byte at `position` is an immediate byte of the `PUSH` instruction
/// at `push`.
pub open spec fn is_immediate_of(code: Seq<u8>, push: int, position: int) -> bool {
    is_instruction_at(code, push) && push < position <= push + immediate_len(code[push])
}

/// A scan that reaches `mid` goes on from there: it reaches a later position
/// exactly if the scan from `mid` does.
pub proof fn lemma_scan_resumes(code: Seq<u8>, from: int, mid: int, target: int)
    requires
        scan_reaches(code, from, mid),
        mid <= target,
    ensures
        scan_reaches(code, from, target) == scan_reaches(code, mid, target),
    decreases mid - from,
{
    if from < mid {
        lemma_scan_resumes(code, from + 1 + immediate_len(code[from]), mid, target);
    }
}

/// Every byte of the code is either an instruction or an immediate byte of a
/// `PUSH` instruction before it, and never both.
pub proof fn lemma_instruction_or_immediate(code: Seq<u8>, position: int)
    requires
        0 <= position < code.len(),
    ensures
        !is_instruction_at(code, position) <==> exists|push: int|
            is_immediate_of(code, push, position),
{
    if exists|push: int| is_immediate_of(code, push, position) {
        let push = choose|push: int| is_immediate_of(code, push, position);
        lemma_scan_resumes(code, 0, push, position);
    }
    if !is_instruction_at(code, position) {
        lemma_data_has_push(code, 0, position);
    }
}

/// The metadata of a contract's code is sound. A byte that is flagged as a jump
/// destination holds `JUMPDEST`, is reached by the scan of the code from its
/// first byte, and is flagged as an instruction. An immediate byte of a `PUSH`
/// is flagged neither as an instruction nor as a jump destination.
pub proof fn lemma_code_meta_sound(code: Seq<u8>, position: int)
    requires
        0 <= position < code.len(),
    ensures
        code_meta_of(code).jumpdests[position] ==> code[position] == 0x5b && scan_reaches(
            code,
            0,
            position,
        ) && code_meta_of(code).iscode[position],
        (exists|push: int| is_immediate_of(code, push, position)) ==> !code_meta_of(
            code,
        ).iscode[position] && !code_meta_of(code).jumpdests[position],
{
    lemma_instruction_or_immediate(code, position);
}

/// A position that the scan from the instruction at `from` passes over lies in
/// the immediate bytes of an instruction.
proof fn lemma_data_has_push(code: Seq<u8>, from: int, position: int)
    requires
        is_instruction_at(code, from),
        from <= position < code.len(),
        !scan_reaches(code, from, position),
    ensures
        exists|push: int| is_immediate_of(code, push, position),
    decreases position - from,
{
    let next = from + 1 + immediate_len(code[from]);
    if position < next {
        assert(is_immediate_of(code, from, position));
    } else {
        assert(scan_reaches(code, next, next));
        assert(scan_reaches(code, from, next));
        lemma_scan_resumes(code, 0, from, next);
        lemma_data_has_push(code, next, position);
    }
}

/// The mathematical content of a [`CodeMeta`]: one flag of each kind for each
/// byte of the code.
pub struct CodeMetaView {
    pub jumpdests: Seq<bool>,
    pub iscode: Seq<bool>,
}

/// The metadata of a contract's code.
pub open spec fn code_meta_of(code: Seq<u8>) -> CodeMetaView {
    CodeMetaView {
        jumpdests: Seq::new(code.len(), |i: int| is_jumpdest_at(code, i)),
        iscode: Seq::new(code.len(), |i: int| is_instruction_at(code, i)),
    }
}

/// For each byte of a contract's code, whether it is a valid jump destination
/// and whether it is an instruction rather than an immediate byte of a `PUSH`.
#[derive(Debug, PartialEq, Eq)]
pub struct CodeMeta {
    jumpdests: Bits,
    iscode: Bits,
}

impl Clone for CodeMeta {
    fn clone(&self) -> (r: CodeMeta)
        ensures
            r@ == self@,
    {
        CodeMeta { jumpdests: self.jumpdests.copy(), iscode: self.iscode.copy() }
    }
}

impl View for CodeMeta {
    type V = CodeMetaView;

    closed spec fn view(&self) -> CodeMetaView {
        CodeMetaView { jumpdests: self.jumpdests@, iscode: self.iscode@ }
    }
}

impl CodeMeta {
    /// Scans the code once and records its metadata. A byte is never a jump
    /// destination where it lies in the immediate bytes of a `PUSH`, whatever its
    /// value; the immediate bytes of a `PUSH` near the end stop where the code
    /// stops.
    pub fn new(code: &[u8]) -> (r: CodeMeta)
        requires
            code@.len() <= max_bits(),
        ensures
            r@ == code_meta_of(code@),
    {
        let n = code.len();
        let mut jumpdests = Bits::with_capacity(n);
        jumpdests.resize(n, false);
        let mut iscode = Bits::with_capacity(n);
        iscode.resize(n, true);

        let mut i: usize = 0;
        while i < n
            invariant
                n == code@.len(),
                n <= max_bits(),
                jumpdests@.len() == n,
                iscode@.len() == n,
                scan_reaches(code@, 0, i as int),
                i <= n + 32,
                forall|k: int|
                    0 <= k < n && k < i ==> (#[trigger] jumpdests@[k]) == is_jumpdest_at(code@, k),
                forall|k: int|
                    0 <= k < n && k < i ==> (#[trigger] iscode@[k]) == is_instruction_at(code@, k),
                forall|k: int| i <= k < n ==> !(#[trigger] jumpdests@[k]),
                forall|k: int| i <= k < n ==> #[trigger] iscode@[k],
            decreases n + 32 - i,
        {
            let ghost next = i + 1 + immediate_len(code@[i as int]);
            proof {
                assert(scan_reaches(code@, next, next));
                assert(scan_reaches(code@, i as int, next));
                lemma_scan_resumes(code@, 0, i as int, next);
                assert forall|k: int| i < k < next implies !is_instruction_at(code@, k) by {
                    lemma_scan_resumes(code@, 0, i as int, k);
                }
            }
            match Instruction::from_u8(code[i]) {
                Some(Instruction::JUMPDEST) => {
                    jumpdests.set(i, true);
                    i += 1;
                },
                Some(inst) => {
                    proof {
                        if code@[i as int] == 0x5b {
                            Instruction::lemma_opcode_injective(inst, Instruction::JUMPDEST);
                        }
                    }
                    if let Some(v) = inst.push_bytes() {
                        let lb = if i + 1 < n {
                            i + 1
                        } else {
                            n
                        };
                        let up = if i + 1 + v < n {
                            i + 1 + v
                        } else {
                            n
                        };
                        let ghost before = iscode@;
                        let mut j = lb;
                        while j < up
                            invariant
                                lb <= j <= up,
                                up <= n,
                                up == (if i + 1 + v < n {
                                    i + 1 + v
                                } else {
                                    n as int
                                }),
                                iscode@.len() == n,
                                lb == (if i + 1 < n {
                                    i + 1
                                } else {
                                    n as int
                                }),
                                before.len() == n,
                                i < n,
                                forall|k: int| 0 <= k <= i ==> (#[trigger] iscode@[k]) == before[k],
                                forall|k: int| lb <= k < j ==> !(#[trigger] iscode@[k]),
                                forall|k: int| j <= k < n ==> #[trigger] iscode@[k],
                            decreases up - j,
                        {
                            iscode.set(j, false);
                            j += 1;
                        }
                        i += v + 1;
                    } else {
                        i += 1;
                    }
                },
                None => {
                    i += 1;
                },
            }
        }
        let r = CodeMeta { jumpdests, iscode };
        assert(r@.jumpdests =~= code_meta_of(code@).jumpdests);
        assert(r@.iscode =~= code_meta_of(code@).iscode);
        r
    }

    /// The number of bytes of the code.
    pub fn len(&self) -> (r: usize)
        ensures
            r == self@.jumpdests.len(),
    {
        self.jumpdests.len()
    }

    /// Whether the code has no bytes.
    pub fn is_empty(&self) -> (r: bool)
        ensures
            r == (self@.jumpdests.len() == 0),
    {
        self.len() == 0
    }

    /// Whether `position` is a valid jump destination. A position outside the
    /// code is none.
    pub fn is_valid_jumpdest(&self, position: usize) -> (r: bool)
        ensures
            r == (position < self@.jumpdests.len() && self@.jumpdests[position as int]),
    {
        if position >= self.jumpdests.len() {
            return false;
        }
        self.jumpdests.get(position)
    }

    /// Whether the byte at `position` is an instruction, and no immediate byte
    /// of a `PUSH`. A position outside the code is none.
    pub fn is_instruction(&self, position: usize) -> (r: bool)
        ensures
            r == (position < self@.iscode.len() && self@.iscode[position as int]),
    {
        if position >= self.iscode.len() {
            return false;
        }
        self.iscode.get(position)
    }
}

} // verus!
