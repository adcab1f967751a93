use tracedbg::dwarf::gimli_api::empty_dwarf;
use tracedbg::dwarf::{
    find_function_at_pc, func_ranges, high_pc_value, matching_addresses, select_enclosing,
    select_line_row, DieRec, DwarfError, DwarfInfo, Endianness, FuncRange, LineRowRec, PlainAttr,
    TAG_INLINED_SUBROUTINE, TAG_SUBPROGRAM,
};

fn range(name: &str, lo: u64, hi: u64) -> FuncRange {
    FuncRange { name: name.to_string(), lo, hi }
}

fn row(address: u64, line: u64) -> LineRowRec {
    LineRowRec { address, file_index: 1, line: Some(line), end_sequence: false }
}

#[test]
fn high_pc_address_form_is_absolute() {
    assert_eq!(high_pc_value(0x1000, PlainAttr::Addr(0x2000)).unwrap(), Some(0x2000));
}

#[test]
fn high_pc_length_forms_are_relative() {
    assert_eq!(high_pc_value(0x1000, PlainAttr::Udata(0x80)).unwrap(), Some(0x1080));
    assert_eq!(high_pc_value(0x1000, PlainAttr::Data1(2)).unwrap(), Some(0x1002));
    assert_eq!(high_pc_value(0x1000, PlainAttr::Data2(0x10)).unwrap(), Some(0x1010));
    assert_eq!(high_pc_value(0x1000, PlainAttr::Data4(0x100)).unwrap(), Some(0x1100));
    assert_eq!(high_pc_value(0x1000, PlainAttr::Data8(8)).unwrap(), Some(0x1008));
    assert_eq!(high_pc_value(0x1000, PlainAttr::Sdata(0x20)).unwrap(), Some(0x1020));
}

#[test]
fn high_pc_negative_length_is_an_error() {
    assert!(matches!(
        high_pc_value(0x1000, PlainAttr::Sdata(-1)),
        Err(DwarfError::InvalidAddressRange)
    ));
}

#[test]
fn high_pc_overflowing_length_is_an_error() {
    assert!(matches!(
        high_pc_value(u64::MAX, PlainAttr::Udata(1)),
        Err(DwarfError::InvalidAddressRange)
    ));
}

#[test]
fn high_pc_other_forms_give_no_range() {
    assert_eq!(high_pc_value(0x1000, PlainAttr::Other).unwrap(), None);
    assert_eq!(high_pc_value(0x1000, PlainAttr::UnitRef(4)).unwrap(), None);
}

#[test]
fn enclosing_function_prefers_the_narrower_range() {
    // An inlined frame inside an outer function shadows it.
    let ranges = vec![range("outer", 0x10, 0x100), range("inlined", 0x20, 0x30)];
    assert_eq!(select_enclosing(&ranges, 0x25), Some(1));
    assert_eq!(select_enclosing(&ranges, 0x15), Some(0));
    assert_eq!(select_enclosing(&ranges, 0x30), Some(0));
}

#[test]
fn every_address_in_a_lone_span_resolves_to_it() {
    let ranges = vec![range("f", 0x40, 0x48)];
    let mut k: u64 = 0;
    while k < 8 {
        assert_eq!(select_enclosing(&ranges, 0x40 + k), Some(0));
        k += 1;
    }
}

#[test]
fn range_ends_are_exclusive_and_starts_inclusive() {
    let ranges = vec![range("f", 0x40, 0x48)];
    assert_eq!(select_enclosing(&ranges, 0x3F), None);
    assert_eq!(select_enclosing(&ranges, 0x48), None);
}

#[test]
fn no_enclosing_function_without_a_containing_range() {
    let ranges: Vec<FuncRange> = vec![];
    assert_eq!(select_enclosing(&ranges, 0x25), None);
}

#[test]
fn equal_starts_prefer_the_narrower_entry() {
    let ranges = vec![range("first", 0x10, 0x20), range("second", 0x10, 0x18)];
    assert_eq!(select_enclosing(&ranges, 0x12), Some(1));
}

#[test]
fn overlapping_ranges_prefer_the_narrower_one() {
    // A wider range starting later never beats a narrower one.
    let ranges = vec![range("narrow", 10, 20), range("wide", 12, 100)];
    assert_eq!(select_enclosing(&ranges, 15), Some(0));
    let swapped = vec![range("wide", 12, 100), range("narrow", 10, 20)];
    assert_eq!(select_enclosing(&swapped, 15), Some(1));
}

#[test]
fn equally_narrow_ranges_prefer_the_greater_start() {
    let ranges = vec![range("early", 0x10, 0x20), range("late", 0x18, 0x28)];
    assert_eq!(select_enclosing(&ranges, 0x19), Some(1));
    let dupes = vec![range("a", 0x10, 0x20), range("b", 0x10, 0x20)];
    assert_eq!(select_enclosing(&dupes, 0x15), Some(1));
}

#[test]
fn line_row_with_greatest_address_not_past_pc_wins() {
    let rows = vec![row(0x10, 1), row(0x18, 2), row(0x20, 3)];
    assert_eq!(select_line_row(&rows, 0x19), Some(1));
    assert_eq!(select_line_row(&rows, 0x20), Some(2));
    assert_eq!(select_line_row(&rows, 0x0F), None);
}

#[test]
fn end_of_sequence_rows_are_skipped() {
    let mut end_row = row(0x18, 2);
    end_row.end_sequence = true;
    let rows = vec![row(0x10, 1), end_row];
    assert_eq!(select_line_row(&rows, 0x19), Some(0));
}

fn subprogram(name: &str, lo: u64, len: u64) -> DieRec {
    DieRec {
        tag: TAG_SUBPROGRAM,
        name: Some(name.to_string()),
        origin_name: None,
        low_pc: Some(lo),
        high_pc: Some(PlainAttr::Udata(len)),
    }
}

#[test]
fn matching_addresses_honours_tags_and_origins() {
    let records = vec![
        subprogram("main", 0x1000, 0x100),
        DieRec {
            tag: TAG_INLINED_SUBROUTINE,
            name: None,
            origin_name: Some("main".to_string()),
            low_pc: Some(0x2000),
            high_pc: None,
        },
        subprogram("other", 0x3000, 0x10),
        DieRec {
            tag: 0x11,  // a compilation-unit entry never matches
            name: Some("main".to_string()),
            origin_name: None,
            low_pc: Some(0x4000),
            high_pc: None,
        },
    ];
    assert_eq!(matching_addresses(&records, "main"), vec![0x1000, 0x2000]);
    assert_eq!(matching_addresses(&records, "other"), vec![0x3000]);
    assert_eq!(matching_addresses(&records, "absent"), Vec::<u64>::new());
}

#[test]
fn func_ranges_resolve_lengths_and_skip_incomplete_entries() {
    let records = vec![
        subprogram("main", 0x1000, 0x100),
        DieRec {
            tag: TAG_SUBPROGRAM,
            name: None,  // nameless: contributes nothing
            origin_name: None,
            low_pc: Some(0x5000),
            high_pc: Some(PlainAttr::Udata(4)),
        },
        DieRec {
            tag: TAG_SUBPROGRAM,
            name: Some("norange".to_string()),
            origin_name: None,
            low_pc: None,  // no entry address: contributes nothing
            high_pc: Some(PlainAttr::Udata(4)),
        },
    ];
    let ranges = func_ranges(&records).unwrap();
    assert_eq!(ranges.len(), 1);
    assert_eq!(ranges[0].name, "main");
    assert_eq!(ranges[0].lo, 0x1000);
    assert_eq!(ranges[0].hi, 0x1100);
}

#[test]
fn func_ranges_surface_a_malformed_range() {
    let records = vec![DieRec {
        tag: TAG_SUBPROGRAM,
        name: Some("bad".to_string()),
        origin_name: None,
        low_pc: Some(0x1000),
        high_pc: Some(PlainAttr::Sdata(-4)),
    }];
    assert!(matches!(func_ranges(&records), Err(DwarfError::InvalidAddressRange)));
}

#[test]
fn a_name_without_locations_resolves_to_an_empty_list() {
    let mut info = DwarfInfo::new(empty_dwarf());
    let addrs = info.function_addresses("no_such_function").unwrap();
    assert!(addrs.is_empty());
}

#[test]
fn repeated_queries_return_the_same_sequence() {
    let mut info = DwarfInfo::new(empty_dwarf());
    let first = info.function_addresses("main").unwrap();
    let second = info.function_addresses("main").unwrap();
    assert_eq!(first, second);
}

#[test]
fn pc_lookup_without_debug_info_finds_nothing() {
    let dwarf = empty_dwarf();
    assert!(find_function_at_pc(&dwarf, 0x555500001000, 0x555500000000).unwrap().is_none());
}

#[test]
fn pc_below_the_load_base_maps_to_nothing() {
    let dwarf = empty_dwarf();
    assert!(find_function_at_pc(&dwarf, 0x10, 0x1000).unwrap().is_none());
}

#[test]
fn this_host_is_little_endian() {
    assert!(Endianness::native_is_little_endian());
    assert!(matches!(Endianness::native(), Endianness::Little));
    assert!(matches!(Endianness::default(), Endianness::Little));
    assert!(!Endianness::Little.is_big_endian());
    assert!(Endianness::Big.is_big_endian());
}
