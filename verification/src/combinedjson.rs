//! The compiler's combined output: the contracts of a compilation, each with
//! its code and source maps.

use crate::sourcemap::pieces;
use crate::sourcemap::split;
use crate::sourcemap::split_ranges;
use crate::sourcemap::text_bytes;
use std::collections::BTreeMap;
use vstd::prelude::*;
use vstd::slice::slice_subrange;
use vstd::string::StringSliceAdditionalSpecFns;

verus! {

/// One compiled contract.
#[derive(Debug)]
pub struct Contract {
    /// The interface description, as JSON text.
    pub abi: String,
    /// The constructor code, in hexadecimal.
    pub bin: String,
    /// The runtime code, in hexadecimal.
    pub bin_runtime: String,
    /// The source map of the constructor code.
    pub srcmap: String,
    /// The source map of the runtime code.
    pub srcmap_runtime: String,
}

/// The output of one compilation.
#[derive(Debug)]
pub struct Combined {
    /// The contracts, by `file:name`.
    pub contracts: BTreeMap<String, Contract>,
    /// The source files, in the order in which source maps number them.
    pub source_list: Vec<String>,
    /// The version of the compiler.
    pub version: String,
}

/// The name of the contract in a key of the combined output: what stands
/// between the first `:` and the next, or the whole key where it has no `:`.
pub open spec fn name_of(key: Seq<u8>) -> Seq<u8> {
    let parts = split(key, 0x3a);
    if parts.len() > 1 {
        parts[1]
    } else {
        key
    }
}

/// The lower-case letter of an upper-case ASCII letter, and any other byte
/// itself.
pub open spec fn lower(b: u8) -> u8 {
    if 0x41 <= b <= 0x5a {
        (b + 0x20) as u8
    } else {
        b
    }
}

/// The name as it is compared: without `_`, in lower case.
pub open spec fn normalized(name: Seq<u8>) -> Seq<u8>
    decreases name.len(),
{
    if name.len() == 0 {
        Seq::empty()
    } else if name.last() == 0x5f {
        normalized(name.drop_last())
    } else {
        normalized(name.drop_last()).push(lower(name.last()))
    }
}

/// Whether `text` starts with `start`.
pub open spec fn starts_with(text: Seq<u8>, start: Seq<u8>) -> bool {
    start.len() <= text.len() && text.take(start.len() as int) == start
}

/// Whether `text` ends with `end`.
pub open spec fn ends_with(text: Seq<u8>, end: Seq<u8>) -> bool {
    end.len() <= text.len() && text.skip(text.len() - end.len()) == end
}

/// The best match found so far among the contracts of a compilation.
pub struct Candidate {
    /// The name that matches best so far.
    pub best: Seq<u8>,
    /// How far it is from the name looked for; less is better.
    pub score: int,
    /// Whether it is the very name looked for.
    pub exact: bool,
}

/// The score of a name that nothing recommends.
pub open spec fn worst_score() -> int {
    10000
}

/// The best match after the contract with the given key has been looked at.
///
/// The very name looked for ends the search. A name that is the name looked
/// for when both are normalized is a match of score 0. Otherwise the
/// normalized names are compared: one that starts or ends with the other is a
/// match, scored by how much their lengths differ, times 1 where the
/// contract's name starts with the name looked for, 2 where the name looked
/// for starts with it, 3 and 4 likewise for the ends. A match replaces the
/// best so far where its score is less.
pub open spec fn consider(so_far: Candidate, key: Seq<u8>, wanted: Seq<u8>) -> Candidate {
    let name = name_of(key);
    let a = normalized(name);
    let b = normalized(wanted);
    let diff = if a.len() >= b.len() {
        a.len() - b.len()
    } else {
        b.len() - a.len()
    };
    if so_far.exact {
        so_far
    } else if name == wanted {
        Candidate { best: name, score: so_far.score, exact: true }
    } else if a == b {
        Candidate { best: name, score: 0, exact: false }
    } else if starts_with(a, b) && so_far.score > diff {
        Candidate { best: name, score: diff, exact: false }
    } else if starts_with(b, a) && so_far.score > 2 * diff {
        Candidate { best: name, score: 2 * diff, exact: false }
    } else if ends_with(a, b) && so_far.score > 3 * diff {
        Candidate { best: name, score: 3 * diff, exact: false }
    } else if ends_with(b, a) && so_far.score > 4 * diff {
        Candidate { best: name, score: 4 * diff, exact: false }
    } else {
        so_far
    }
}

/// The best match after the first `n` contracts have been looked at. Before
/// any is, the last key stands in for the best match.
pub open spec fn best_after(keys: Seq<Seq<u8>>, wanted: Seq<u8>, n: int) -> Candidate
    decreases n,
{
    if n <= 0 {
        Candidate { best: keys.last(), score: worst_score(), exact: false }
    } else {
        consider(best_after(keys, wanted, n - 1), keys[n - 1], wanted)
    }
}

/// Which contract of a compilation is meant by a name.
#[derive(Clone, Copy, Debug, PartialEq, Eq, Structural)]
pub enum Selection {
    /// The compilation has no contracts.
    NoContracts,
    /// No contract has the name that matches best.
    NoMatch,
    /// The contract with the key of this number, in the order of the keys.
    Contract(usize),
}

/// Whether the contract with key number `i` is the first whose name is
/// `name`.
pub open spec fn is_first_named(keys: Seq<Seq<u8>>, name: Seq<u8>, i: int) -> bool {
    &&& 0 <= i < keys.len()
    &&& name_of(keys[i]) == name
    &&& forall|j: int| 0 <= j < i ==> name_of(#[trigger] keys[j]) != name
}

/// The contract that the name `wanted` selects among the contracts with the
/// given keys: the first whose name is the best match.
pub open spec fn selection_of(keys: Seq<Seq<u8>>, wanted: Seq<u8>, selection: Selection) -> bool {
    let best = best_after(keys, wanted, keys.len() as int).best;
    match selection {
        Selection::NoContracts => keys.len() == 0,
        Selection::NoMatch => keys.len() > 0 && forall|j: int|
            0 <= j < keys.len() ==> name_of(#[trigger] keys[j]) != best,
        Selection::Contract(i) => is_first_named(keys, best, i as int),
    }
}

/// Whether two byte strings are the same.
fn same_bytes(a: &[u8], b: &[u8]) -> (r: bool)
    ensures
        r == (a@ == b@),
{
    if a.len() != b.len() {
        return false;
    }
    let mut i: usize = 0;
    while i < a.len()
        invariant
            i <= a@.len(),
            a@.len() == b@.len(),
            forall|k: int| 0 <= k < i ==> a@[k] == b@[k],
        decreases a.len() - i,
    {
        if a[i] != b[i] {
            return false;
        }
        i += 1;
    }
    assert(a@ =~= b@);
    true
}

/// Where the name of the contract stands in a key: the range of its bytes.
pub fn contract_name_range(key: &str) -> (r: (usize, usize))
    ensures
        r.0 <= r.1 <= key.spec_bytes().len(),
        key.spec_bytes().subrange(r.0 as int, r.1 as int) == name_of(key.spec_bytes()),
{
    let bytes = key.as_bytes();
    let ranges = split_ranges(bytes, 0x3a);
    if ranges.len() > 1 {
        assert(pieces(bytes@, ranges@)[1] == bytes@.subrange(
            ranges@[1].0 as int,
            ranges@[1].1 as int,
        ));
        ranges[1]
    } else {
        assert(bytes@.subrange(0, bytes@.len() as int) =~= bytes@);
        (0, bytes.len())
    }
}

/// The name of the contract in a key.
fn contract_name<'a>(key: &'a [u8]) -> (r: &'a [u8])
    ensures
        r@ == name_of(key@),
{
    let ranges = split_ranges(key, 0x3a);
    if ranges.len() > 1 {
        assert(pieces(key@, ranges@)[1] == key@.subrange(ranges@[1].0 as int, ranges@[1].1 as int));
        slice_subrange(key, ranges[1].0, ranges[1].1)
    } else {
        key
    }
}

/// The name as it is compared: without `_`, in lower case.
fn normalize(name: &[u8]) -> (r: Vec<u8>)
    ensures
        r@ == normalized(name@),
{
    let mut r: Vec<u8> = Vec::new();
    let mut i: usize = 0;
    proof {
        assert(name@.take(0) =~= Seq::<u8>::empty());
    }
    while i < name.len()
        invariant
            i <= name@.len(),
            r@ == normalized(name@.take(i as int)),
        decreases name.len() - i,
    {
        proof {
            assert(name@.take(i + 1).drop_last() =~= name@.take(i as int));
        }
        let b = name[i];
        if b != 0x5f {
            if 0x41 <= b && b <= 0x5a {
                r.push(b + 0x20);
            } else {
                r.push(b);
            }
        }
        i += 1;
    }
    proof {
        assert(name@.take(i as int) =~= name@);
    }
    r
}

/// Whether `text` starts with `start`.
fn has_start(text: &[u8], start: &[u8]) -> (r: bool)
    ensures
        r == starts_with(text@, start@),
{
    if start.len() > text.len() {
        return false;
    }
    let r = same_bytes(slice_subrange(text, 0, start.len()), start);
    assert(text@.take(start@.len() as int) =~= text@.subrange(0, start@.len() as int));
    r
}

/// Whether `text` ends with `end`.
fn has_end(text: &[u8], end: &[u8]) -> (r: bool)
    ensures
        r == ends_with(text@, end@),
{
    if end.len() > text.len() {
        return false;
    }
    let r = same_bytes(slice_subrange(text, text.len() - end.len(), text.len()), end);
    assert(text@.skip(text@.len() - end@.len()) =~= text@.subrange(
        text@.len() - end@.len(),
        text@.len() as int,
    ));
    r
}

/// Selects, among the contracts of a compilation, the one that a name means.
/// The keys are those of the compilation, in their order; the name is the one
/// given for the contract. Returns the number of the key of the first contract
/// whose name is the best match for the name given.
pub fn select_contract(keys: &Vec<String>, look_for_name: &str) -> (r: Selection)
    ensures
        selection_of(text_bytes(keys@), look_for_name.spec_bytes(), r),
{
    let ghost all = text_bytes(keys@);
    let wanted = look_for_name.as_bytes();
    let n = keys.len();
    if n == 0 {
        return Selection::NoContracts;
    }
    let look_for_name_normalized = normalize(wanted);
    // which of the keys holds the best match, and whether the whole key is
    // the match or the name in it
    let mut best_key: usize = n - 1;
    let mut whole_key = true;
    let mut best_match_score: u128 = 10000;
    let mut exact = false;
    let mut i: usize = 0;
    while i < n && !exact
        invariant
            i <= n,
            n == keys@.len(),
            n > 0,
            all == text_bytes(keys@),
            wanted@ == look_for_name.spec_bytes(),
            look_for_name_normalized@ == normalized(wanted@),
            best_key < n,
            best_after(all, wanted@, i as int) == (Candidate {
                best: if whole_key {
                    all[best_key as int]
                } else {
                    name_of(all[best_key as int])
                },
                score: best_match_score as int,
                exact,
            }),
            best_match_score <= 10000,
        decreases n - i + (if exact { 0int } else { 1int }),
    {
        let key = keys[i].as_str().as_bytes();
        assert(key@ == all[i as int]);
        let cname = contract_name(key);
        if same_bytes(cname, wanted) {
            // the very name: this is the one
            best_key = i;
            whole_key = false;
            exact = true;
        } else {
            let cname_normalized = normalize(cname);
            if same_bytes(look_for_name_normalized.as_slice(), cname_normalized.as_slice()) {
                best_key = i;
                whole_key = false;
                best_match_score = 0;
            } else {
                // a name that starts or ends with the other is a match; the
                // closer their lengths, the better
                let a = cname_normalized.len();
                let b = look_for_name_normalized.len();
                let str_len_diff: u128 = if a >= b {
                    (a - b) as u128
                } else {
                    (b - a) as u128
                };
                if has_start(cname_normalized.as_slice(), look_for_name_normalized.as_slice())
                    && best_match_score > str_len_diff {
                    best_match_score = str_len_diff;
                    best_key = i;
                    whole_key = false;
                } else if has_start(
                    look_for_name_normalized.as_slice(),
                    cname_normalized.as_slice(),
                ) && best_match_score > 2 * str_len_diff {
                    best_match_score = 2 * str_len_diff;
                    best_key = i;
                    whole_key = false;
                } else if has_end(
                    cname_normalized.as_slice(),
                    look_for_name_normalized.as_slice(),
                ) && best_match_score > 3 * str_len_diff {
                    best_match_score = 3 * str_len_diff;
                    best_key = i;
                    whole_key = false;
                } else if has_end(
                    look_for_name_normalized.as_slice(),
                    cname_normalized.as_slice(),
                ) && best_match_score > 4 * str_len_diff {
                    best_match_score = 4 * str_len_diff;
                    best_key = i;
                    whole_key = false;
                }
            }
        }
        i += 1;
    }
    proof {
        lemma_exact_stays(all, wanted@, i as int, n as int);
    }
    // the contract that is meant is the first with the name found
    let best_bytes = keys[best_key].as_str().as_bytes();
    let best: &[u8] = if whole_key {
        best_bytes
    } else {
        contract_name(best_bytes)
    };
    assert(best_bytes@ == all[best_key as int]);
    assert(best@ == best_after(all, wanted@, n as int).best);
    let mut j: usize = 0;
    while j < n
        invariant
            j <= n,
            n == keys@.len(),
            all == text_bytes(keys@),
            wanted@ == look_for_name.spec_bytes(),
            best@ == best_after(all, wanted@, n as int).best,
            forall|k: int| 0 <= k < j ==> name_of(#[trigger] all[k]) != best@,
        decreases n - j,
    {
        let key = keys[j].as_str().as_bytes();
        assert(key@ == all[j as int]);
        if same_bytes(contract_name(key), best) {
            return Selection::Contract(j);
        }
        j += 1;
    }
    Selection::NoMatch
}

/// The search ends with the very name looked for: once it is found, the best
/// match stays what it is.
proof fn lemma_exact_stays(keys: Seq<Seq<u8>>, wanted: Seq<u8>, n: int, m: int)
    requires
        0 <= n <= m,
        best_after(keys, wanted, n).exact || n == m,
    ensures
        best_after(keys, wanted, m) == best_after(keys, wanted, n),
    decreases m - n,
{
    if n < m {
        lemma_exact_stays(keys, wanted, n, m - 1);
    }
}

} // verus!
