use evm2cpp::sourcemap::parse_source_map;
use evm2cpp::sourcemap::JumpType;
use evm2cpp::sourcemap::SourceMapEntry;
use evm2cpp::sourcemap::SourceMapError;
use evm2cpp::sourcemap::SourceMapField;
use std::rc::Rc;

fn files() -> Vec<String> {
    vec!["line1\nline2\nline3".to_string(), "other\n\nfile".to_string()]
}

fn entry(
    byte_offset: usize,
    length: usize,
    file_index: i32,
    jump_type: JumpType,
    modifier_depth: usize,
    line: &str,
    line_number: usize,
) -> SourceMapEntry {
    SourceMapEntry {
        byte_offset,
        length,
        file_index,
        jump_type,
        modifier_depth,
        line: Rc::new(line.to_string()),
        line_number,
    }
}

#[test]
fn entries_are_read_in_order() {
    let map = parse_source_map("0:5:0:-:0;;6:3:0:i:1;12:5:1:o:2", &files()).unwrap();
    assert_eq!(map.len(), 4);
    assert_eq!(map[0], entry(0, 5, 0, JumpType::Jump, 0, "line1", 1));
    assert_eq!(map[1], entry(0, 5, 0, JumpType::Jump, 0, "line1", 1));
    assert_eq!(map[2], entry(6, 3, 0, JumpType::Call, 1, "lin", 2));
    assert_eq!(map[3], entry(12, 5, 1, JumpType::Return, 2, "", 3));
}

#[test]
fn a_field_left_out_is_taken_from_two_entries_before() {
    let map = parse_source_map("0:5:0:-:7;1:1:1:i:3;:2;:::o", &files()).unwrap();
    assert_eq!(map.len(), 4);
    assert_eq!(map[2], entry(0, 2, 0, JumpType::Jump, 7, "li", 1));
    assert_eq!(map[3], entry(1, 1, 1, JumpType::Return, 3, "t", 1));
}

#[test]
fn the_first_entry_of_an_old_map_has_depth_zero() {
    let map = parse_source_map("6:5:0:-;;;12:0;", &files()).unwrap();
    assert_eq!(map.len(), 5);
    assert_eq!(map[0], entry(6, 5, 0, JumpType::Jump, 0, "line2", 2));
    assert_eq!(map[1], map[0]);
    assert_eq!(map[2], map[0]);
    assert_eq!(map[3], entry(12, 0, 0, JumpType::Jump, 0, "", 3));
    assert_eq!(map[4], map[3]);
}

#[test]
fn ranges_stop_at_the_end_of_the_file() {
    let map = parse_source_map("14:100:0:-;100:2:1:-:0;+3:1:-1:i:0;0:18446744073709551615:-2:-:0", &files());
    let map = map.unwrap();
    assert_eq!(map[0], entry(14, 100, 0, JumpType::Jump, 0, "ne3", 3));
    assert_eq!(map[1], entry(100, 2, 1, JumpType::Jump, 0, "", 3));
    assert_eq!(map[2], entry(3, 1, -1, JumpType::Call, 0, "e", 1));
    assert_eq!(
        map[3],
        entry(0, usize::MAX, -2, JumpType::Jump, 0, "line1\nline2\nline3", 1)
    );
}

#[test]
fn only_the_first_letter_of_a_jump_type_counts() {
    let map = parse_source_map("0:1:0:others:0", &files()).unwrap();
    assert_eq!(map[0].jump_type, JumpType::Return);
    assert_eq!(map[0].modifier_depth, 0);
}

#[test]
fn an_incomplete_first_entry_is_an_error() {
    assert_eq!(
        parse_source_map("1:2:3", &files()),
        Err(SourceMapError::IncompleteFirstEntry(3))
    );
    assert_eq!(
        parse_source_map("1", &files()),
        Err(SourceMapError::IncompleteFirstEntry(1))
    );
    assert_eq!(
        parse_source_map(":;0:1:0:-", &files()),
        Err(SourceMapError::IncompleteFirstEntry(2))
    );
}

#[test]
fn fields_that_cannot_be_read_are_errors() {
    let f = files();
    assert_eq!(
        parse_source_map("x:2:0:-", &f),
        Err(SourceMapError::InvalidField(0, SourceMapField::ByteOffset))
    );
    assert_eq!(
        parse_source_map("-1:2:0:-", &f),
        Err(SourceMapError::InvalidField(0, SourceMapField::ByteOffset))
    );
    assert_eq!(
        parse_source_map("1:18446744073709551616:0:-", &f),
        Err(SourceMapError::InvalidField(0, SourceMapField::Length))
    );
    assert_eq!(
        parse_source_map("1: 2:0:-", &f),
        Err(SourceMapError::InvalidField(0, SourceMapField::Length))
    );
    assert_eq!(
        parse_source_map("1:2:2147483648:-", &f),
        Err(SourceMapError::InvalidField(0, SourceMapField::FileIndex))
    );
    assert_eq!(
        parse_source_map("1:2:-:-", &f),
        Err(SourceMapError::InvalidField(0, SourceMapField::FileIndex))
    );
    assert_eq!(
        parse_source_map("1:2:0:x", &f),
        Err(SourceMapError::InvalidField(0, SourceMapField::JumpType))
    );
    assert_eq!(
        parse_source_map("1:2:0:-:z", &f),
        Err(SourceMapError::InvalidField(0, SourceMapField::ModifierDepth))
    );
    assert_eq!(
        parse_source_map("1:2:0:-:0;;1:2:0:-:0;1:+:0", &f),
        Err(SourceMapError::InvalidField(3, SourceMapField::Length))
    );
}

#[test]
fn an_entry_with_nothing_to_take_from_is_an_error() {
    let f = files();
    assert_eq!(parse_source_map("", &f), Err(SourceMapError::NoEarlierEntry(0)));
    assert_eq!(parse_source_map(";0:1:0:-", &f), Err(SourceMapError::NoEarlierEntry(0)));
    assert_eq!(parse_source_map(":1:0:-", &f), Err(SourceMapError::NoEarlierEntry(0)));
    assert_eq!(parse_source_map("0:1:0:-;1:1", &f), Err(SourceMapError::NoEarlierEntry(1)));
    assert_eq!(
        parse_source_map("0:1:0:-;0:1:0:-", &f),
        Err(SourceMapError::NoEarlierEntry(1))
    );
    assert_eq!(
        parse_source_map("0:1:0:-:0;0::0:-:0", &f),
        Err(SourceMapError::NoEarlierEntry(1))
    );
}

#[test]
fn a_file_index_that_names_no_file_is_an_error() {
    let f = files();
    assert_eq!(parse_source_map("0:1:2:-", &f), Err(SourceMapError::NoSuchFile(0)));
    assert_eq!(parse_source_map("0:1:-3:-", &f), Err(SourceMapError::NoSuchFile(0)));
    assert_eq!(
        parse_source_map("0:1:-2147483648:-", &f),
        Err(SourceMapError::NoSuchFile(0))
    );
    assert_eq!(
        parse_source_map("0:1:0:-:0;;0:1:2147483647:-:0", &f),
        Err(SourceMapError::NoSuchFile(2))
    );
    assert_eq!(parse_source_map("0:1:0:-", &vec![]), Err(SourceMapError::NoSuchFile(0)));
    assert!(parse_source_map("0:1:-0:-", &f).is_ok());
}

#[test]
fn a_range_that_cuts_a_character_is_an_error() {
    let f = vec!["a\u{e9}b".to_string()];
    assert_eq!(parse_source_map("0:2:0:-", &f), Err(SourceMapError::InvalidText(0)));
    assert_eq!(parse_source_map("2:2:0:-", &f), Err(SourceMapError::InvalidText(0)));
    let map = parse_source_map("1:2:0:-;;0:4:0:-:0", &f).unwrap();
    assert_eq!(*map[0].line, "\u{e9}");
    assert_eq!(*map[2].line, "a\u{e9}b");
}
