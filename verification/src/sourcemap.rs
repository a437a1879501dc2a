//! Source maps of the Solidity compiler: for each instruction, the range of
//! source text it was compiled from.
//!
//! A source map is a list of entries separated by `;`. An entry is a list of
//! fields separated by `:`, in the order byte offset, length, file index, jump
//! type, modifier depth. An empty entry repeats the entry before it. A field
//! that is empty or left out is taken from the entry two places before.

use std::rc::Rc;
use vstd::prelude::*;
use vstd::slice::slice_subrange;
use vstd::slice::slice_to_vec;
use vstd::string::StringSliceAdditionalSpecFns;
use vstd::utf8::encode_utf8;
use vstd::utf8::valid_utf8;

verus! {

/// What the compiler says of a jump instruction.
#[derive(Clone, Copy, Debug, PartialEq, Eq, Structural)]
pub enum JumpType {
    /// A jump into a function.
    Call,
    /// A jump back out of a function.
    Return,
    /// Any other jump, and any instruction that is no jump.
    Jump,
}

impl JumpType {
    /// The jump type that a letter of a source map stands for: `i`, `o` or `-`.
    pub open spec fn spec_parse(c: char) -> Option<JumpType> {
        if c == 'i' {
            Some(JumpType::Call)
        } else if c == 'o' {
            Some(JumpType::Return)
        } else if c == '-' {
            Some(JumpType::Jump)
        } else {
            None
        }
    }

    /// Reads the letter of a jump type.
    pub fn parse(c: char) -> (r: Option<JumpType>)
        ensures
            r == JumpType::spec_parse(c),
    {
        match c {
            'i' => Some(JumpType::Call),
            'o' => Some(JumpType::Return),
            '-' => Some(JumpType::Jump),
            _ => None,
        }
    }
}

/// The fields of an entry of a source map.
#[derive(Clone, Copy, Debug, PartialEq, Eq, Structural)]
pub enum SourceMapField {
    ByteOffset,
    Length,
    FileIndex,
    JumpType,
    ModifierDepth,
}

/// Why a source map cannot be read. Each error names the entry, counted from
/// 0, at which reading stopped.
#[derive(Clone, Copy, Debug, PartialEq, Eq, Structural)]
pub enum SourceMapError {
    /// The first entry has fewer than four fields; it has this many.
    IncompleteFirstEntry(usize),
    /// A field of the entry is not what it has to be: a number, or the letter
    /// of a jump type.
    InvalidField(usize, SourceMapField),
    /// The entry repeats an earlier entry, or takes a field from one, and
    /// there is none.
    NoEarlierEntry(usize),
    /// The file index of the entry names no source file.
    NoSuchFile(usize),
    /// The source text of the entry is not UTF-8.
    InvalidText(usize),
}

/// One entry of a source map, with the source text it points at.
#[derive(Debug, PartialEq)]
pub struct SourceMapEntry {
    /// The offset of the range in its source file, in bytes.
    pub byte_offset: usize,
    /// The length of the range, in bytes.
    pub length: usize,
    /// The number of the source file; a negative number counts back from the
    /// last file.
    pub file_index: i32,
    /// The kind of jump, for a jump instruction.
    pub jump_type: JumpType,
    /// How many modifiers deep the instruction lies.
    pub modifier_depth: usize,
    /// The source text of the range, as far as the file has it.
    pub line: Rc<String>,
    /// The line, counted from 1, on which the range starts.
    pub line_number: usize,
}

/// The entries of a source map, one for each instruction.
pub type SourceMap = Vec<SourceMapEntry>;

/// The mathematical content of a [`SourceMapEntry`]; the source text is given
/// by its bytes.
pub struct SourceMapEntryView {
    pub byte_offset: usize,
    pub length: usize,
    pub file_index: i32,
    pub jump_type: JumpType,
    pub modifier_depth: usize,
    pub line: Seq<u8>,
    pub line_number: usize,
}

impl View for SourceMapEntry {
    type V = SourceMapEntryView;

    open spec fn view(&self) -> SourceMapEntryView {
        SourceMapEntryView {
            byte_offset: self.byte_offset,
            length: self.length,
            file_index: self.file_index,
            jump_type: self.jump_type,
            modifier_depth: self.modifier_depth,
            line: encode_utf8((*self.line)@),
            line_number: self.line_number,
        }
    }
}

/// The views of a sequence of entries.
pub open spec fn entry_views(entries: Seq<SourceMapEntry>) -> Seq<SourceMapEntryView> {
    Seq::new(entries.len(), |i: int| entries[i]@)
}

/// The bytes of each of the texts.
pub open spec fn text_bytes(texts: Seq<String>) -> Seq<Seq<u8>> {
    Seq::new(texts.len(), |i: int| encode_utf8(texts[i]@))
}

/// The byte `;`, which separates the entries of a source map.
pub const ENTRY_SEPARATOR: u8 = 0x3b;

/// The byte `:`, which separates the fields of an entry.
pub const FIELD_SEPARATOR: u8 = 0x3a;

/// The pieces that the separator cuts the text into: one more than the text
/// has separators, and empty where two separators meet or one stands at an end.
pub open spec fn split(text: Seq<u8>, separator: u8) -> Seq<Seq<u8>>
    decreases text.len(),
{
    if text.len() == 0 {
        seq![Seq::empty()]
    } else {
        let before = split(text.drop_last(), separator);
        if text.last() == separator {
            before.push(Seq::empty())
        } else {
            before.drop_last().push(before.last().push(text.last()))
        }
    }
}

/// Whether the bytes are decimal digits, all of them.
pub open spec fn all_digits(text: Seq<u8>) -> bool {
    forall|i: int| 0 <= i < text.len() ==> 0x30 <= #[trigger] text[i] <= 0x39
}

/// The number that decimal digits denote.
pub open spec fn digits_value(digits: Seq<u8>) -> nat
    decreases digits.len(),
{
    if digits.len() == 0 {
        0
    } else {
        digits_value(digits.drop_last()) * 10 + (digits.last() - 0x30) as nat
    }
}

/// The text without a sign in front of it.
pub open spec fn unsigned_part(text: Seq<u8>, minus: bool) -> Seq<u8> {
    if text.len() > 0 && (text[0] == 0x2b || (minus && text[0] == 0x2d)) {
        text.skip(1)
    } else {
        text
    }
}

/// The number that a text denotes: decimal digits, at least one, with or
/// without a `+` in front of them; none where the number is no `usize`.
pub open spec fn decimal_usize(text: Seq<u8>) -> Option<usize> {
    let digits = unsigned_part(text, false);
    if digits.len() > 0 && all_digits(digits) && digits_value(digits) <= usize::MAX {
        Some(digits_value(digits) as usize)
    } else {
        None
    }
}

/// The number that a text denotes: decimal digits, at least one, with or
/// without a `+` or `-` in front of them; none where the number is no `i32`.
pub open spec fn decimal_i32(text: Seq<u8>) -> Option<i32> {
    let digits = unsigned_part(text, true);
    let value = if text.len() > 0 && text[0] == 0x2d {
        -(digits_value(digits) as int)
    } else {
        digits_value(digits) as int
    };
    if digits.len() > 0 && all_digits(digits) && i32::MIN <= value <= i32::MAX {
        Some(value as i32)
    } else {
        None
    }
}

/// How many line feeds the bytes hold.
pub open spec fn count_newlines(text: Seq<u8>) -> nat
    decreases text.len(),
{
    if text.len() == 0 {
        0
    } else {
        count_newlines(text.drop_last()) + (if text.last() == 0x0a {
            1nat
        } else {
            0nat
        })
    }
}

/// The field of the given number, empty where the entry leaves it out.
pub open spec fn field(fields: Seq<Seq<u8>>, i: int) -> Seq<u8> {
    if i < fields.len() {
        fields[i]
    } else {
        Seq::empty()
    }
}

/// The entry that an entry takes from what it leaves out: the one two places
/// before it.
pub open spec fn earlier(done: Seq<SourceMapEntryView>) -> Option<SourceMapEntryView> {
    if done.len() >= 2 {
        Some(done[done.len() - 2])
    } else {
        None
    }
}

/// The byte offset of the entry that follows the entries `done`.
pub open spec fn byte_offset_of(done: Seq<SourceMapEntryView>, fields: Seq<Seq<u8>>) -> Result<
    usize,
    SourceMapError,
> {
    let idx = done.len() as usize;
    if field(fields, 0).len() > 0 {
        match decimal_usize(field(fields, 0)) {
            Some(v) => Ok(v),
            None => Err(SourceMapError::InvalidField(idx, SourceMapField::ByteOffset)),
        }
    } else {
        match earlier(done) {
            Some(e) => Ok(e.byte_offset),
            None => Err(SourceMapError::NoEarlierEntry(idx)),
        }
    }
}

/// The length of the entry that follows the entries `done`.
pub open spec fn length_of(done: Seq<SourceMapEntryView>, fields: Seq<Seq<u8>>) -> Result<
    usize,
    SourceMapError,
> {
    let idx = done.len() as usize;
    if field(fields, 1).len() > 0 {
        match decimal_usize(field(fields, 1)) {
            Some(v) => Ok(v),
            None => Err(SourceMapError::InvalidField(idx, SourceMapField::Length)),
        }
    } else {
        match earlier(done) {
            Some(e) => Ok(e.length),
            None => Err(SourceMapError::NoEarlierEntry(idx)),
        }
    }
}

/// The file index of the entry that follows the entries `done`.
pub open spec fn file_index_of(done: Seq<SourceMapEntryView>, fields: Seq<Seq<u8>>) -> Result<
    i32,
    SourceMapError,
> {
    let idx = done.len() as usize;
    if field(fields, 2).len() > 0 {
        match decimal_i32(field(fields, 2)) {
            Some(v) => Ok(v),
            None => Err(SourceMapError::InvalidField(idx, SourceMapField::FileIndex)),
        }
    } else {
        match earlier(done) {
            Some(e) => Ok(e.file_index),
            None => Err(SourceMapError::NoEarlierEntry(idx)),
        }
    }
}

/// The jump type of the entry that follows the entries `done`: the first
/// letter of the field says it.
pub open spec fn jump_type_of(done: Seq<SourceMapEntryView>, fields: Seq<Seq<u8>>) -> Result<
    JumpType,
    SourceMapError,
> {
    let idx = done.len() as usize;
    if field(fields, 3).len() > 0 {
        match JumpType::spec_parse(field(fields, 3)[0] as char) {
            Some(v) => Ok(v),
            None => Err(SourceMapError::InvalidField(idx, SourceMapField::JumpType)),
        }
    } else {
        match earlier(done) {
            Some(e) => Ok(e.jump_type),
            None => Err(SourceMapError::NoEarlierEntry(idx)),
        }
    }
}

/// The modifier depth of the entry that follows the entries `done`. The first
/// entry of a map of a compiler that does not know the field has depth 0.
pub open spec fn modifier_depth_of(done: Seq<SourceMapEntryView>, fields: Seq<Seq<u8>>) -> Result<
    usize,
    SourceMapError,
> {
    let idx = done.len() as usize;
    if field(fields, 4).len() > 0 {
        match decimal_usize(field(fields, 4)) {
            Some(v) => Ok(v),
            None => Err(SourceMapError::InvalidField(idx, SourceMapField::ModifierDepth)),
        }
    } else if done.len() == 0 {
        Ok(0)
    } else {
        match earlier(done) {
            Some(e) => Ok(e.modifier_depth),
            None => Err(SourceMapError::NoEarlierEntry(idx)),
        }
    }
}

/// The number of the file that a file index names among `count` files, if it
/// names one.
pub open spec fn file_number(file_index: i32, count: nat) -> Option<int> {
    let number = if file_index < 0 {
        count + file_index
    } else {
        file_index as int
    };
    if 0 <= number < count {
        Some(number)
    } else {
        None
    }
}

/// Where a range of bytes starts in a file of the given length: at its offset,
/// or at the end of the file where that comes first.
pub open spec fn range_start(byte_offset: usize, file_len: nat) -> int {
    if byte_offset < file_len {
        byte_offset as int
    } else {
        file_len as int
    }
}

/// Where a range of bytes ends in a file of the given length.
pub open spec fn range_end(byte_offset: usize, length: usize, file_len: nat) -> int {
    if byte_offset + length < file_len {
        byte_offset + length
    } else {
        file_len as int
    }
}

/// The entry with the given fields: the line on which its range starts and
/// the text of its range are looked up in its source file.
pub open spec fn located(
    idx: usize,
    byte_offset: usize,
    length: usize,
    file_index: i32,
    jump_type: JumpType,
    modifier_depth: usize,
    files: Seq<Seq<u8>>,
) -> Result<SourceMapEntryView, SourceMapError> {
    match file_number(file_index, files.len()) {
        None => Err(SourceMapError::NoSuchFile(idx)),
        Some(number) => {
            let file = files[number];
            let start = range_start(byte_offset, file.len());
            let line = file.subrange(start, range_end(byte_offset, length, file.len()));
            if valid_utf8(line) {
                Ok(
                    SourceMapEntryView {
                        byte_offset,
                        length,
                        file_index,
                        jump_type,
                        modifier_depth,
                        line,
                        line_number: (1 + count_newlines(file.take(start))) as usize,
                    },
                )
            } else {
                Err(SourceMapError::InvalidText(idx))
            }
        },
    }
}

/// The entry that the text `entry` denotes behind the entries `done`. The
/// fields are read in their order, and reading stops at the first that fails.
pub open spec fn entry_of(done: Seq<SourceMapEntryView>, entry: Seq<u8>, files: Seq<Seq<u8>>) -> Result<
    SourceMapEntryView,
    SourceMapError,
> {
    let idx = done.len() as usize;
    if entry.len() == 0 {
        if done.len() == 0 {
            Err(SourceMapError::NoEarlierEntry(idx))
        } else {
            Ok(done.last())
        }
    } else {
        let fields = split(entry, FIELD_SEPARATOR);
        if done.len() == 0 && fields.len() < 4 {
            Err(SourceMapError::IncompleteFirstEntry(fields.len() as usize))
        } else if byte_offset_of(done, fields) is Err {
            Err(byte_offset_of(done, fields)->Err_0)
        } else if length_of(done, fields) is Err {
            Err(length_of(done, fields)->Err_0)
        } else if file_index_of(done, fields) is Err {
            Err(file_index_of(done, fields)->Err_0)
        } else if jump_type_of(done, fields) is Err {
            Err(jump_type_of(done, fields)->Err_0)
        } else if modifier_depth_of(done, fields) is Err {
            Err(modifier_depth_of(done, fields)->Err_0)
        } else {
            located(
                idx,
                byte_offset_of(done, fields)->Ok_0,
                length_of(done, fields)->Ok_0,
                file_index_of(done, fields)->Ok_0,
                jump_type_of(done, fields)->Ok_0,
                modifier_depth_of(done, fields)->Ok_0,
                files,
            )
        }
    }
}

/// The entries that the first `n` of the texts denote, or the error at which
/// reading them stops.
pub open spec fn entries_of(texts: Seq<Seq<u8>>, files: Seq<Seq<u8>>, n: int) -> Result<
    Seq<SourceMapEntryView>,
    SourceMapError,
>
    decreases n,
{
    if n <= 0 {
        Ok(Seq::empty())
    } else {
        match entries_of(texts, files, n - 1) {
            Err(e) => Err(e),
            Ok(done) => match entry_of(done, texts[n - 1], files) {
                Err(e) => Err(e),
                Ok(entry) => Ok(done.push(entry)),
            },
        }
    }
}

/// The entries that a source map denotes, given the contents of the source
/// files.
pub open spec fn source_map_of(text: Seq<u8>, files: Seq<Seq<u8>>) -> Result<
    Seq<SourceMapEntryView>,
    SourceMapError,
> {
    let texts = split(text, ENTRY_SEPARATOR);
    entries_of(texts, files, texts.len() as int)
}

/// The pieces of the text that the ranges delimit.
pub open spec fn pieces(text: Seq<u8>, ranges: Seq<(usize, usize)>) -> Seq<Seq<u8>> {
    Seq::new(ranges.len(), |i: int| text.subrange(ranges[i].0 as int, ranges[i].1 as int))
}

/// `String::from_utf8`: the text that the bytes encode, and nothing where they
/// are not UTF-8.
#[verifier::external_body]
fn text_of(bytes: Vec<u8>) -> (r: Option<String>)
    ensures
        r is Some <==> valid_utf8(bytes@),
        r matches Some(text) ==> encode_utf8(text@) == bytes@,
{
    match String::from_utf8(bytes) {
        Ok(text) => Some(text),
        Err(_) => None,
    }
}

/// `Rc::clone`: another pointer to the same text.
#[verifier::external_body]
fn share(text: &Rc<String>) -> (r: Rc<String>)
    ensures
        r == *text,
{
    Rc::clone(text)
}

impl Clone for SourceMapEntry {
    fn clone(&self) -> (r: SourceMapEntry)
        ensures
            r@ == self@,
    {
        SourceMapEntry {
            byte_offset: self.byte_offset,
            length: self.length,
            file_index: self.file_index,
            jump_type: self.jump_type,
            modifier_depth: self.modifier_depth,
            line: share(&self.line),
            line_number: self.line_number,
        }
    }
}

/// Cuts the text at each separator. Returns the ranges of the pieces, in order.
pub(crate) fn split_ranges(text: &[u8], separator: u8) -> (r: Vec<(usize, usize)>)
    ensures
        r@.len() >= 1,
        forall|i: int| 0 <= i < r@.len() ==> (#[trigger] r@[i]).0 <= r@[i].1 <= text@.len(),
        pieces(text@, r@) == split(text@, separator),
{
    let mut ranges: Vec<(usize, usize)> = Vec::new();
    let mut start: usize = 0;
    let mut i: usize = 0;
    proof {
        assert(text@.take(0) =~= Seq::<u8>::empty());
        assert(pieces(text@, ranges@).push(text@.subrange(0, 0)) =~= seq![Seq::<u8>::empty()]);
    }
    while i < text.len()
        invariant
            start <= i <= text@.len(),
            forall|k: int|
                0 <= k < ranges@.len() ==> (#[trigger] ranges@[k]).0 <= ranges@[k].1 <= text@.len(),
            split(text@.take(i as int), separator) == pieces(text@, ranges@).push(
                text@.subrange(start as int, i as int),
            ),
        decreases text.len() - i,
    {
        let ghost done = pieces(text@, ranges@);
        let ghost before = split(text@.take(i as int), separator);
        proof {
            let next = text@.take(i + 1);
            assert(next.drop_last() =~= text@.take(i as int));
            assert(next.last() == text@[i as int]);
            assert(before.last() == text@.subrange(start as int, i as int));
            assert(before.drop_last() =~= done);
        }
        if text[i] == separator {
            ranges.push((start, i));
            start = i + 1;
            proof {
                assert(pieces(text@, ranges@) =~= before);
                assert(text@.subrange(start as int, i + 1) =~= Seq::<u8>::empty());
            }
        } else {
            proof {
                assert(text@.subrange(start as int, i + 1) =~= before.last().push(text@[i as int]));
            }
        }
        i += 1;
    }
    let ghost done = pieces(text@, ranges@);
    ranges.push((start, i));
    proof {
        assert(text@.take(i as int) =~= text@);
        assert(pieces(text@, ranges@) =~= done.push(text@.subrange(start as int, i as int)));
    }
    ranges
}

/// The number that the digits up to some place denote is no more than the
/// number that all of them denote.
proof fn lemma_digits_value_grows(digits: Seq<u8>, n: int)
    requires
        0 <= n <= digits.len(),
    ensures
        digits_value(digits.take(n)) <= digits_value(digits),
    decreases digits.len(),
{
    if n == digits.len() {
        assert(digits.take(n) =~= digits);
    } else {
        lemma_digits_value_grows(digits.drop_last(), n);
        assert(digits.drop_last().take(n) =~= digits.take(n));
    }
}

/// Reads decimal digits, as long as the number they denote is at most
/// `limit`.
fn read_digits(digits: &[u8], limit: u64) -> (r: Option<u64>)
    ensures
        r == (if digits@.len() > 0 && all_digits(digits@) && digits_value(digits@) <= limit {
            Some(digits_value(digits@) as u64)
        } else {
            None
        }),
{
    if digits.len() == 0 {
        return None;
    }
    let mut value: u64 = 0;
    let mut i: usize = 0;
    proof {
        assert(digits@.take(0) =~= Seq::<u8>::empty());
    }
    while i < digits.len()
        invariant
            i <= digits@.len(),
            value == digits_value(digits@.take(i as int)),
            value <= limit,
            forall|k: int| 0 <= k < i ==> 0x30 <= #[trigger] digits@[k] <= 0x39,
        decreases digits.len() - i,
    {
        let c = digits[i];
        if c < 0x30 || c > 0x39 {
            return None;
        }
        let d = (c - 0x30) as u64;
        proof {
            let next = digits@.take(i + 1);
            assert(next.drop_last() =~= digits@.take(i as int));
            assert(digits_value(next) == value * 10 + d);
            lemma_digits_value_grows(digits@, i + 1);
        }
        if d > limit || value > (limit - d) / 10 {
            return None;
        }
        value = value * 10 + d;
        i += 1;
    }
    proof {
        assert(digits@.take(i as int) =~= digits@);
    }
    Some(value)
}

/// Reads a `usize` written in decimal.
fn parse_usize(text: &[u8]) -> (r: Option<usize>)
    ensures
        r == decimal_usize(text@),
{
    let digits = if text.len() > 0 && text[0] == 0x2b {
        slice_subrange(text, 1, text.len())
    } else {
        text
    };
    match read_digits(digits, usize::MAX as u64) {
        Some(v) => Some(v as usize),
        None => None,
    }
}

/// Reads an `i32` written in decimal.
fn parse_i32(text: &[u8]) -> (r: Option<i32>)
    ensures
        r == decimal_i32(text@),
{
    let minus = text.len() > 0 && text[0] == 0x2d;
    let digits = if text.len() > 0 && (text[0] == 0x2b || text[0] == 0x2d) {
        slice_subrange(text, 1, text.len())
    } else {
        text
    };
    match read_digits(digits, 0x8000_0000) {
        Some(v) => {
            if minus {
                Some((0 - v as i64) as i32)
            } else if v <= 0x7fff_ffff {
                Some(v as i32)
            } else {
                None
            }
        },
        None => None,
    }
}

/// The field of the given number of an entry that is cut into the given
/// ranges, empty where the entry leaves the field out.
fn field_slice<'a>(entry: &'a [u8], ranges: &Vec<(usize, usize)>, i: usize) -> (r: &'a [u8])
    requires
        forall|k: int|
            0 <= k < ranges@.len() ==> (#[trigger] ranges@[k]).0 <= ranges@[k].1 <= entry@.len(),
    ensures
        r@ == field(pieces(entry@, ranges@), i as int),
{
    if i < ranges.len() {
        slice_subrange(entry, ranges[i].0, ranges[i].1)
    } else {
        let r = slice_subrange(entry, 0, 0);
        assert(r@ =~= Seq::<u8>::empty());
        r
    }
}

/// Whether every source file is shorter than the largest machine integer.
pub open spec fn files_fit(file_contents: Seq<String>) -> bool {
    forall|i: int|
        0 <= i < file_contents.len() ==> (#[trigger] text_bytes(file_contents)[i]).len()
            < usize::MAX
}

/// Looks up, in its source file, the line on which the range of an entry
/// starts and the text of the range.
fn locate(
    idx: usize,
    byte_offset: usize,
    length: usize,
    file_index: i32,
    jump_type: JumpType,
    modifier_depth: usize,
    file_contents: &Vec<String>,
) -> (r: Result<SourceMapEntry, SourceMapError>)
    requires
        files_fit(file_contents@),
    ensures
        match r {
            Ok(entry) => located(
                idx,
                byte_offset,
                length,
                file_index,
                jump_type,
                modifier_depth,
                text_bytes(file_contents@),
            ) == Ok::<SourceMapEntryView, SourceMapError>(entry@),
            Err(e) => located(
                idx,
                byte_offset,
                length,
                file_index,
                jump_type,
                modifier_depth,
                text_bytes(file_contents@),
            ) == Err::<SourceMapEntryView, SourceMapError>(e),
        },
{
    let count = file_contents.len();
    let u_file_index: usize = if file_index < 0 {
        // a negative index counts back from the last file
        let back = (0 - file_index as i64) as usize;
        if back > count {
            return Err(SourceMapError::NoSuchFile(idx));
        }
        count - back
    } else {
        file_index as usize
    };
    if u_file_index >= count {
        return Err(SourceMapError::NoSuchFile(idx));
    }
    let file = file_contents[u_file_index].as_str().as_bytes();
    assert(file@ == text_bytes(file_contents@)[u_file_index as int]);
    let file_len = file.len();
    let start = if byte_offset < file_len {
        byte_offset
    } else {
        file_len
    };
    let end = if byte_offset < file_len && length < file_len - byte_offset {
        byte_offset + length
    } else {
        file_len
    };
    // count the line feeds up to the byte offset
    let mut lineno: usize = 1;
    let mut k: usize = 0;
    proof {
        assert(file@.take(0) =~= Seq::<u8>::empty());
    }
    while k < start
        invariant
            k <= start <= file@.len(),
            file@.len() < usize::MAX,
            lineno == 1 + count_newlines(file@.take(k as int)),
            lineno <= 1 + k,
        decreases start - k,
    {
        proof {
            assert(file@.take(k + 1).drop_last() =~= file@.take(k as int));
        }
        if file[k] == 0x0a {
            lineno += 1;
        }
        k += 1;
    }
    // take the bytes of the range
    let line_bytes = slice_to_vec(slice_subrange(file, start, end));
    match text_of(line_bytes) {
        Some(line) => Ok(
            SourceMapEntry {
                byte_offset,
                length,
                file_index,
                jump_type,
                modifier_depth,
                line: Rc::new(line),
                line_number: lineno,
            },
        ),
        None => Err(SourceMapError::InvalidText(idx)),
    }
}

/// Reads the entry that follows the entries read so far.
fn parse_entry(entries: &Vec<SourceMapEntry>, entry: &[u8], file_contents: &Vec<String>) -> (r:
    Result<SourceMapEntry, SourceMapError>)
    requires
        files_fit(file_contents@),
    ensures
        match r {
            Ok(e) => entry_of(entry_views(entries@), entry@, text_bytes(file_contents@)) == Ok::<
                SourceMapEntryView,
                SourceMapError,
            >(e@),
            Err(e) => entry_of(entry_views(entries@), entry@, text_bytes(file_contents@)) == Err::<
                SourceMapEntryView,
                SourceMapError,
            >(e),
        },
{
    let idx = entries.len();
    let ghost done = entry_views(entries@);
    if entry.len() == 0 {
        if idx == 0 {
            return Err(SourceMapError::NoEarlierEntry(idx));
        }
        return Ok(entries[idx - 1].clone());
    }
    let ranges = split_ranges(entry, FIELD_SEPARATOR);
    let ghost fields = split(entry@, FIELD_SEPARATOR);
    if idx == 0 && ranges.len() < 4 {
        return Err(SourceMapError::IncompleteFirstEntry(ranges.len()));
    }
    let field0 = field_slice(entry, &ranges, 0);
    let byte_offset: usize = if field0.len() > 0 {
        match parse_usize(field0) {
            Some(v) => v,
            None => {
                return Err(SourceMapError::InvalidField(idx, SourceMapField::ByteOffset));
            },
        }
    } else if idx >= 2 {
        entries[idx - 2].byte_offset
    } else {
        return Err(SourceMapError::NoEarlierEntry(idx));
    };
    assert(byte_offset_of(done, fields) == Ok::<usize, SourceMapError>(byte_offset));
    let field1 = field_slice(entry, &ranges, 1);
    let length: usize = if field1.len() > 0 {
        match parse_usize(field1) {
            Some(v) => v,
            None => {
                return Err(SourceMapError::InvalidField(idx, SourceMapField::Length));
            },
        }
    } else if idx >= 2 {
        entries[idx - 2].length
    } else {
        return Err(SourceMapError::NoEarlierEntry(idx));
    };
    assert(length_of(done, fields) == Ok::<usize, SourceMapError>(length));
    let field2 = field_slice(entry, &ranges, 2);
    let file_index: i32 = if field2.len() > 0 {
        match parse_i32(field2) {
            Some(v) => v,
            None => {
                return Err(SourceMapError::InvalidField(idx, SourceMapField::FileIndex));
            },
        }
    } else if idx >= 2 {
        entries[idx - 2].file_index
    } else {
        return Err(SourceMapError::NoEarlierEntry(idx));
    };
    assert(file_index_of(done, fields) == Ok::<i32, SourceMapError>(file_index));
    let field3 = field_slice(entry, &ranges, 3);
    let jump_type: JumpType = if field3.len() > 0 {
        match JumpType::parse(field3[0] as char) {
            Some(v) => v,
            None => {
                return Err(SourceMapError::InvalidField(idx, SourceMapField::JumpType));
            },
        }
    } else if idx >= 2 {
        entries[idx - 2].jump_type
    } else {
        return Err(SourceMapError::NoEarlierEntry(idx));
    };
    assert(jump_type_of(done, fields) == Ok::<JumpType, SourceMapError>(jump_type));
    let field4 = field_slice(entry, &ranges, 4);
    let modifier_depth: usize = if field4.len() > 0 {
        match parse_usize(field4) {
            Some(v) => v,
            None => {
                return Err(SourceMapError::InvalidField(idx, SourceMapField::ModifierDepth));
            },
        }
    } else {
        // older compilers do not write the depth: their first entry has depth
        // 0, and the others take theirs from an earlier entry
        if idx == 0 {
            0
        } else if idx >= 2 {
            entries[idx - 2].modifier_depth
        } else {
            return Err(SourceMapError::NoEarlierEntry(idx));
        }
    };
    assert(modifier_depth_of(done, fields) == Ok::<usize, SourceMapError>(modifier_depth));
    locate(idx, byte_offset, length, file_index, jump_type, modifier_depth, file_contents)
}

/// Reads a source map, given the contents of the source files in the order in
/// which the map numbers them. Returns one entry for each entry of the map, or
/// the first error.
pub fn parse_source_map(source_map_string: &str, file_contents: &Vec<String>) -> (r: Result<
    SourceMap,
    SourceMapError,
>)
    requires
        files_fit(file_contents@),
    ensures
        match r {
            Ok(entries) => source_map_of(
                source_map_string.spec_bytes(),
                text_bytes(file_contents@),
            ) == Ok::<Seq<SourceMapEntryView>, SourceMapError>(entry_views(entries@)),
            Err(e) => source_map_of(source_map_string.spec_bytes(), text_bytes(file_contents@))
                == Err::<Seq<SourceMapEntryView>, SourceMapError>(e),
        },
{
    let text = source_map_string.as_bytes();
    let ranges = split_ranges(text, ENTRY_SEPARATOR);
    let ghost texts = split(text@, ENTRY_SEPARATOR);
    let ghost files = text_bytes(file_contents@);
    let mut entries: Vec<SourceMapEntry> = Vec::new();
    let mut idx: usize = 0;
    assert(entry_views(entries@) =~= Seq::<SourceMapEntryView>::empty());
    while idx < ranges.len()
        invariant
            idx <= ranges@.len(),
            idx == entries@.len(),
            text@ == source_map_string.spec_bytes(),
            texts == split(text@, ENTRY_SEPARATOR),
            texts == pieces(text@, ranges@),
            files == text_bytes(file_contents@),
            files_fit(file_contents@),
            forall|k: int|
                0 <= k < ranges@.len() ==> (#[trigger] ranges@[k]).0 <= ranges@[k].1 <= text@.len(),
            entries_of(texts, files, idx as int) == Ok::<Seq<SourceMapEntryView>, SourceMapError>(
                entry_views(entries@),
            ),
        decreases ranges.len() - idx,
    {
        let ghost done = entry_views(entries@);
        let entry = slice_subrange(text, ranges[idx].0, ranges[idx].1);
        assert(entry@ == texts[idx as int]);
        match parse_entry(&entries, entry, file_contents) {
            Ok(e) => {
                let ghost view = e@;
                entries.push(e);
                assert(entry_views(entries@) =~= done.push(view));
            },
            Err(e) => {
                proof {
                    lemma_error_stays(texts, files, idx + 1, texts.len() as int);
                }
                return Err(e);
            },
        }
        idx += 1;
    }
    Ok(entries)
}

/// Reading stops at the first error: an error in the first `n` entries is the
/// error of any more of them.
proof fn lemma_error_stays(texts: Seq<Seq<u8>>, files: Seq<Seq<u8>>, n: int, m: int)
    requires
        0 <= n <= m,
        entries_of(texts, files, n) is Err,
    ensures
        entries_of(texts, files, m) == entries_of(texts, files, n),
    decreases m - n,
{
    if n < m {
        lemma_error_stays(texts, files, n, m - 1);
    }
}

} // verus!
