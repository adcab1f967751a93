//! End-to-end resolution tests against a real executable image: the debug
//! info of a small program — a concrete `main`, a `helper` inlined into it,
//! and a two-row line table — is written with gimli, packed into an ELF
//! with object, and read back through the library.
use gimli::write::{
    Address, AttributeValue, DwarfUnit, EndianVec, LineProgram, LineString, Sections,
};
use tracedbg::dwarf::{find_function_at_pc, gimli_api, DwarfInfo};

const MAIN_LO: u64 = 0x1000;
const MAIN_LEN: u64 = 0x100;
const INLINE_LO: u64 = 0x1020;
const INLINE_LEN: u64 = 0x10;

fn build_test_image() -> &'static [u8] {
    let encoding = gimli::Encoding { format: gimli::Format::Dwarf32, version: 4, address_size: 8 };
    let mut dwarf = DwarfUnit::new(encoding);

    let mut line_program = LineProgram::new(
        encoding,
        gimli::LineEncoding::default(),
        LineString::String(b"/src".to_vec()),
        None,
        LineString::String(b"hello.c".to_vec()),
        None,
    );
    let dir = line_program.default_directory();
    let file = line_program.add_file(LineString::String(b"hello.c".to_vec()), dir, None);
    line_program.begin_sequence(Some(Address::Constant(MAIN_LO)));
    line_program.row().address_offset = 0;
    line_program.row().file = file;
    line_program.row().line = 10;
    line_program.generate_row();
    line_program.row().address_offset = INLINE_LO - MAIN_LO;
    line_program.row().file = file;
    line_program.row().line = 12;
    line_program.generate_row();
    line_program.end_sequence(MAIN_LEN);
    dwarf.unit.line_program = line_program;

    let root = dwarf.unit.root();
    dwarf.unit.get_mut(root).set(
        gimli::DW_AT_name,
        AttributeValue::String(b"hello.c".to_vec()),
    );

    let main_die = dwarf.unit.add(root, gimli::DW_TAG_subprogram);
    dwarf.unit.get_mut(main_die).set(
        gimli::DW_AT_name,
        AttributeValue::String(b"main".to_vec()),
    );
    dwarf.unit.get_mut(main_die).set(
        gimli::DW_AT_low_pc,
        AttributeValue::Address(Address::Constant(MAIN_LO)),
    );
    dwarf.unit.get_mut(main_die).set(gimli::DW_AT_high_pc, AttributeValue::Udata(MAIN_LEN));

    let helper_die = dwarf.unit.add(root, gimli::DW_TAG_subprogram);
    dwarf.unit.get_mut(helper_die).set(
        gimli::DW_AT_name,
        AttributeValue::String(b"helper".to_vec()),
    );

    let inlined = dwarf.unit.add(main_die, gimli::DW_TAG_inlined_subroutine);
    dwarf.unit.get_mut(inlined).set(
        gimli::DW_AT_abstract_origin,
        AttributeValue::UnitRef(helper_die),
    );
    dwarf.unit.get_mut(inlined).set(
        gimli::DW_AT_low_pc,
        AttributeValue::Address(Address::Constant(INLINE_LO)),
    );
    dwarf.unit.get_mut(inlined).set(gimli::DW_AT_high_pc, AttributeValue::Udata(INLINE_LEN));

    let mut sections = Sections::new(EndianVec::new(gimli::LittleEndian));
    dwarf.write(&mut sections).expect("writing the debug sections succeeds");

    let mut image = object::write::Object::new(
        object::BinaryFormat::Elf,
        object::Architecture::X86_64,
        object::Endianness::Little,
    );
    sections
        .for_each(|id, data: &EndianVec<gimli::LittleEndian>| {
            if !data.slice().is_empty() {
                let section = image.add_section(
                    Vec::new(),
                    id.name().as_bytes().to_vec(),
                    object::SectionKind::Debug,
                );
                image.set_section_data(section, data.slice().to_vec(), 1);
            }
            Ok::<(), gimli::Error>(())
        })
        .expect("collecting the debug sections succeeds");
    let bytes = image.write().expect("writing the image succeeds");
    Box::leak(bytes.into_boxed_slice())
}

#[test]
fn a_concrete_function_resolves_to_its_entry_address() {
    let dwarf = gimli_api::read_dwarf(build_test_image()).expect("the image parses");
    let mut info = DwarfInfo::new(dwarf);
    assert_eq!(info.function_addresses("main").unwrap(), vec![MAIN_LO]);
}

#[test]
fn an_inlined_function_resolves_to_its_call_site() {
    let dwarf = gimli_api::read_dwarf(build_test_image()).expect("the image parses");
    let mut info = DwarfInfo::new(dwarf);
    assert_eq!(info.function_addresses("helper").unwrap(), vec![INLINE_LO]);
}

#[test]
fn an_absent_function_resolves_to_no_addresses() {
    let dwarf = gimli_api::read_dwarf(build_test_image()).expect("the image parses");
    let mut info = DwarfInfo::new(dwarf);
    assert!(info.function_addresses("no_such_function").unwrap().is_empty());
}

#[test]
fn repeated_queries_are_answered_alike() {
    let dwarf = gimli_api::read_dwarf(build_test_image()).expect("the image parses");
    let mut info = DwarfInfo::new(dwarf);
    let first = info.function_addresses("main").unwrap();
    let second = info.function_addresses("main").unwrap();
    let third = info.function_addresses("main").unwrap();
    assert_eq!(first, second);
    assert_eq!(second, third);
}

#[test]
fn pc_lookup_names_the_enclosing_function_and_line() {
    let dwarf = gimli_api::read_dwarf(build_test_image()).expect("the image parses");
    let base: u64 = 0x5555_0000_0000;
    let cp = find_function_at_pc(&dwarf, base + MAIN_LO + 4, base)
        .unwrap()
        .expect("an address inside main resolves");
    assert_eq!(cp.function.as_deref(), Some("main"));
    assert_eq!(cp.file.as_deref(), Some("hello.c"));
    assert_eq!(cp.line, Some(10));
    assert_eq!(cp.real_addr, base + MAIN_LO + 4);
}

#[test]
fn pc_lookup_inside_the_inlined_span_names_the_inlined_function() {
    let dwarf = gimli_api::read_dwarf(build_test_image()).expect("the image parses");
    let base: u64 = 0x5555_0000_0000;
    let cp = find_function_at_pc(&dwarf, base + INLINE_LO + 2, base)
        .unwrap()
        .expect("an address inside the inlined span resolves");
    assert_eq!(cp.function.as_deref(), Some("helper"));
    assert_eq!(cp.line, Some(12));
}

#[test]
fn every_offset_of_a_span_reports_its_function() {
    let dwarf = gimli_api::read_dwarf(build_test_image()).expect("the image parses");
    let base: u64 = 0x7000_0000;
    let mut k: u64 = 0;
    while k < INLINE_LO - MAIN_LO {
        let cp = find_function_at_pc(&dwarf, base + MAIN_LO + k, base)
            .unwrap()
            .expect("every address of the leading span resolves");
        assert_eq!(cp.function.as_deref(), Some("main"));
        k += 1;
    }
}

#[test]
fn pc_lookup_outside_every_range_finds_nothing() {
    let dwarf = gimli_api::read_dwarf(build_test_image()).expect("the image parses");
    let base: u64 = 0x5555_0000_0000;
    assert!(find_function_at_pc(&dwarf, base + MAIN_LO + MAIN_LEN, base).unwrap().is_none());
    assert!(find_function_at_pc(&dwarf, base + MAIN_LO - 1, base).unwrap().is_none());
}
