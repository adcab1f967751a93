//! Trusted surface over the `gimli` DWARF reader.
//!
//! Each function here wraps one step of gimli's traversal API and converts
//! what it yields into plain values; every decision — which entries matter,
//! how ranges are decoded, which row or function encloses an address, and
//! the per-name cache — is taken by the verified code in the parent module.
//!
//! What the debug info holds is given names: `dw_unit_records` and
//! `dw_unit_rows` stand for the per-unit function records and line rows that
//! a full walk yields, and each stepping wrapper says which part of that
//! model it hands out.  gimli's reader types are generic over traits of its
//! own, which cannot be declared here, so each value is held opaquely in a
//! single-field struct of this module, carrying whatever context its later
//! steps need, so that no two mismatched values can be combined.
use super::{DieRec, DwarfError, LineRowRec, PlainAttr, TAG_INLINED_SUBROUTINE, TAG_SUBPROGRAM};
use gimli::AttributeValue;
use vstd::prelude::*;

verus! {

/// The DWARF reader used throughout: borrowed byte slices of the mapped
/// executable, which lives until process exit, with run-time endianness.
pub type StaticEndianSlice = gimli::EndianSlice<'static, gimli::RunTimeEndian>;

/// All DWARF sections of one executable, as gimli presents them; leaked at
/// construction, as the mapping below it already is, so every holder can
/// carry the same reference.
#[verifier::external_body]
pub struct DwarfData {
    inner: &'static gimli::Dwarf<StaticEndianSlice>,
}

/// An iterator over the compilation units of the debug info.
#[verifier::external_body]
pub struct UnitsIter {
    dwarf: &'static gimli::Dwarf<StaticEndianSlice>,
    inner: gimli::DebugInfoUnitHeadersIter<StaticEndianSlice>,
}

/// One compilation unit of the debug info, with the sections it was read
/// from.
#[verifier::external_body]
pub struct CompUnit {
    dwarf: &'static gimli::Dwarf<StaticEndianSlice>,
    inner: gimli::Unit<StaticEndianSlice, usize>,
}

/// A depth-first cursor over one unit's debugging-information entries.
#[verifier::external_body]
pub struct DieCursor<'a> {
    dwarf: &'static gimli::Dwarf<StaticEndianSlice>,
    unit: &'a gimli::Unit<StaticEndianSlice, usize>,
    inner: gimli::read::EntriesCursor<'a, StaticEndianSlice>,
}

/// An iterator over the rows of one unit's line-number program.
#[verifier::external_body]
pub struct LineRowsIter {
    inner: gimli::read::LineRows<
        StaticEndianSlice,
        gimli::read::IncompleteLineProgram<StaticEndianSlice, usize>,
        usize,
    >,
}

/// The function records of each compilation unit, in unit order: for every
/// entry, in depth-first order, its tag, and — for concrete and inlined
/// function entries — its own name, its origin's name where an inlined entry
/// refers to one, its address-form low-pc, and its raw high-pc attribute;
/// every other entry carries its tag and nothing else.
pub uninterp spec fn dw_unit_records(d: DwarfData) -> Seq<Seq<DieRec>>;

/// The line-number rows of each compilation unit, in unit order; a unit
/// without a line program has none.
pub uninterp spec fn dw_unit_rows(d: DwarfData) -> Seq<Seq<LineRowRec>>;

/// The function records of the units an iterator has not yet yielded.
pub uninterp spec fn units_rest_records(it: UnitsIter) -> Seq<Seq<DieRec>>;

/// The line rows of the units an iterator has not yet yielded.
pub uninterp spec fn units_rest_rows(it: UnitsIter) -> Seq<Seq<LineRowRec>>;

/// The function records of one compilation unit.
pub uninterp spec fn unit_records(u: CompUnit) -> Seq<DieRec>;

/// The line rows of one compilation unit.
pub uninterp spec fn unit_rows(u: CompUnit) -> Seq<LineRowRec>;

/// The records of the entries a cursor has not yet visited.
pub uninterp spec fn cursor_rest(c: DieCursor) -> Seq<DieRec>;

/// The record of the entry a cursor currently stands on, once it stands on
/// one.
pub uninterp spec fn cursor_cur(c: DieCursor) -> Option<DieRec>;

/// The rows a line-number iterator has not yet yielded.
pub uninterp spec fn rows_rest(it: LineRowsIter) -> Seq<LineRowRec>;

/// Relies on object::File::parse, object::Object::is_little_endian,
/// object::ObjectSection::data and gimli::Dwarf::load: parses the mapped
/// executable's header and materialises each debug section as a borrowed
/// byte slice, an empty slice where a section is missing.  The bytes must
/// stay mapped for the life of the process; the caller leaks the mapping.
#[verifier::external_body]
pub fn read_dwarf(data: &'static [u8]) -> Result<DwarfData, DwarfError> {
    let loaded = object::File::parse(data).map_err(|e| e.to_string()).and_then(|elf| {
        let endian = if object::Object::is_little_endian(&elf) { gimli::RunTimeEndian::Little } else { gimli::RunTimeEndian::Big };
        gimli::Dwarf::load(|id| match object::Object::section_by_name(&elf, id.name()) {
            Some(s) => Ok(gimli::EndianSlice::new(object::ObjectSection::data(&s).map_err(|e| e.to_string())?, endian)),
            None => Ok(gimli::EndianSlice::new(&[], endian)),
        })
    });
    match loaded {
        Ok(d) => Ok(DwarfData { inner: Box::leak(Box::new(d)) }),
        Err(e) => Err(DwarfError::Parse(e)),
    }
}

/// Relies on gimli::Dwarf::load and gimli::read::EndianSlice::new: debug
/// info with every section empty, as an executable without debug data has —
/// in particular, without a single compilation unit.
#[verifier::external_body]
pub fn empty_dwarf() -> (r: DwarfData)
    ensures
        dw_unit_records(r).len() == 0,
        dw_unit_rows(r).len() == 0,
{
    let loaded = gimli::Dwarf::load(|_id| {
        Ok::<_, gimli::read::Error>(gimli::EndianSlice::new(&[], gimli::RunTimeEndian::Little))
    });
    DwarfData { inner: Box::leak(Box::new(loaded.unwrap())) }
}

/// Relies on gimli::Dwarf::units: an iterator over the compilation units of
/// the debug-info section, which will yield each unit's contents in order.
#[verifier::external_body]
pub fn dw_units(dwarf: &DwarfData) -> (r: UnitsIter)
    ensures
        units_rest_records(r) == dw_unit_records(*dwarf),
        units_rest_rows(r) == dw_unit_rows(*dwarf),
        units_rest_records(r).len() == units_rest_rows(r).len(),
{
    UnitsIter { dwarf: dwarf.inner, inner: dwarf.inner.units() }
}

/// Relies on gimli::read::DebugInfoUnitHeadersIter::next and
/// gimli::Dwarf::unit: advances to the next compilation unit and parses its
/// header and abbreviations; the unit holds the head of what the iterator
/// had left.  Yields None exactly once every unit has been seen.
#[verifier::external_body]
pub fn dw_next_unit(iter: &mut UnitsIter) -> (r: Result<Option<CompUnit>, DwarfError>)
    ensures
        r matches Ok(Some(u)) ==> units_rest_records(*old(iter)).len() > 0 && units_rest_rows(
            *old(iter),
        ).len() > 0 && unit_records(u) == units_rest_records(*old(iter))[0] && unit_rows(u)
            == units_rest_rows(*old(iter))[0] && units_rest_records(*final(iter))
            == units_rest_records(*old(iter)).drop_first() && units_rest_rows(*final(iter))
            == units_rest_rows(*old(iter)).drop_first() && units_rest_records(*final(iter)).len()
            == units_rest_rows(*final(iter)).len(),
        (r matches Ok(v) && v is None) ==> units_rest_records(*old(iter)).len() == 0
            && units_rest_rows(*old(iter)).len() == 0,
{
    match iter.inner.next() {
        Ok(Some(header)) => match iter.dwarf.unit(header) {
            Ok(unit) => Ok(Some(CompUnit { dwarf: iter.dwarf, inner: unit })),
            Err(e) => Err(DwarfError::Parse(e.to_string())),
        },
        Ok(None) => Ok(None),
        Err(e) => Err(DwarfError::Parse(e.to_string())),
    }
}

/// Relies on gimli::Unit::entries: a cursor over the unit's
/// debugging-information entries in depth-first order, standing before the
/// first entry.
#[verifier::external_body]
pub fn dw_entries<'a>(unit: &'a CompUnit) -> (r: DieCursor<'a>)
    ensures
        cursor_rest(r) == unit_records(*unit),
        cursor_cur(r) is None,
{
    DieCursor { dwarf: unit.dwarf, unit: &unit.inner, inner: unit.inner.entries() }
}

/// Relies on gimli::read::EntriesCursor::next_dfs: advances the cursor one
/// entry in depth-first order.  True when it now stands on the next entry —
/// whose record, for an entry that is no function, holds its tag and
/// nothing else — and false exactly once every entry has been visited.
#[verifier::external_body]
pub fn dw_next_entry(cursor: &mut DieCursor<'_>) -> (r: Result<bool, DwarfError>)
    ensures
        r matches Ok(true) ==> cursor_rest(*old(cursor)).len() > 0 && cursor_cur(*final(cursor))
            == Some(cursor_rest(*old(cursor))[0]) && cursor_rest(*final(cursor)) == cursor_rest(
            *old(cursor),
        ).drop_first() && (cursor_rest(*old(cursor))[0].tag != TAG_SUBPROGRAM && cursor_rest(
            *old(cursor),
        )[0].tag != TAG_INLINED_SUBROUTINE ==> cursor_rest(*old(cursor))[0].name is None
            && cursor_rest(*old(cursor))[0].low_pc is None && cursor_rest(
            *old(cursor),
        )[0].high_pc is None) && (cursor_rest(*old(cursor))[0].tag != TAG_INLINED_SUBROUTINE
            ==> cursor_rest(*old(cursor))[0].origin_name is None),
        (r matches Ok(v) && v == false) ==> cursor_rest(*old(cursor)).len() == 0,
{
    match cursor.inner.next_dfs() {
        Ok(Some(_)) => Ok(true),
        Ok(None) => Ok(false),
        Err(e) => Err(DwarfError::Parse(e.to_string())),
    }
}

/// Relies on gimli::read::DebuggingInformationEntry::tag: the raw DWARF tag
/// of the entry the cursor stands on.
#[verifier::external_body]
pub fn dw_cur_tag(cursor: &DieCursor<'_>) -> (r: u16)
    requires
        cursor_cur(*cursor) is Some,
    ensures
        cursor_cur(*cursor) matches Some(m) ==> r == m.tag,
{
    cursor.inner.current().unwrap().tag().0
}

/// Relies on gimli::read::DebuggingInformationEntry::attr_value,
/// gimli::Dwarf::attr_string and gimli::read::EndianSlice::to_string_lossy:
/// the name of the function entry the cursor stands on, resolved through
/// whichever string section it points into, copied out lossily.
#[verifier::external_body]
pub fn dw_cur_name(cursor: &DieCursor<'_>) -> (r: Result<Option<String>, DwarfError>)
    requires
        cursor_cur(*cursor) is Some,
    ensures
        (cursor_cur(*cursor) matches Some(m) && (m.tag == TAG_SUBPROGRAM || m.tag
            == TAG_INLINED_SUBROUTINE)) ==> (r matches Ok(v) ==> v == cursor_cur(
            *cursor,
        )->0.name),
{
    let entry = cursor.inner.current().unwrap();
    match entry.attr_value(gimli::DW_AT_name) {
        Some(value) => match cursor.dwarf.attr_string(cursor.unit, value) {
            Ok(s) => Ok(Some(s.to_string_lossy().into_owned())),
            Err(e) => Err(DwarfError::Parse(e.to_string())),
        },
        None => Ok(None),
    }
}

/// Relies on gimli::read::DebuggingInformationEntry::attr_value,
/// gimli::Unit::entry, gimli::Dwarf::attr_string and
/// gimli::read::EndianSlice::to_string_lossy: the name of the entry an
/// inlined function's abstract-origin reference points at, if the entry the
/// cursor stands on carries one and the origin is named.
#[verifier::external_body]
pub fn dw_cur_origin_name(cursor: &DieCursor<'_>) -> (r: Result<Option<String>, DwarfError>)
    requires
        cursor_cur(*cursor) is Some,
    ensures
        (cursor_cur(*cursor) matches Some(m) && m.tag == TAG_INLINED_SUBROUTINE) ==> (r matches Ok(
            v,
        ) ==> v == cursor_cur(*cursor)->0.origin_name),
{
    let offset = match cursor.inner.current().unwrap().attr_value(gimli::DW_AT_abstract_origin) {
        Some(AttributeValue::UnitRef(offset)) => offset,
        _ => return Ok(None),
    };
    let origin = match cursor.unit.entry(offset) {
        Ok(die) => die,
        Err(e) => return Err(DwarfError::Parse(e.to_string())),
    };
    let value = match origin.attr_value(gimli::DW_AT_name) { Some(v) => v, None => return Ok(None) };
    match cursor.dwarf.attr_string(cursor.unit, value) {
        Ok(s) => Ok(Some(s.to_string_lossy().into_owned())),
        Err(e) => Err(DwarfError::Parse(e.to_string())),
    }
}

/// Relies on gimli::read::DebuggingInformationEntry::attr_value: the
/// address-form low-pc of the function entry the cursor stands on; any
/// other form counts as absent.
#[verifier::external_body]
pub fn dw_cur_low_pc(cursor: &DieCursor<'_>) -> (r: Option<u64>)
    requires
        cursor_cur(*cursor) is Some,
    ensures
        (cursor_cur(*cursor) matches Some(m) && (m.tag == TAG_SUBPROGRAM || m.tag
            == TAG_INLINED_SUBROUTINE)) ==> r == cursor_cur(*cursor)->0.low_pc,
{
    let entry = cursor.inner.current().unwrap();
    match entry.attr_value(gimli::DW_AT_low_pc) {
        Some(AttributeValue::Addr(a)) => Some(a),
        _ => None,
    }
}

/// Relies on gimli::read::DebuggingInformationEntry::attr_value: the
/// high-pc attribute of the function entry the cursor stands on, told apart
/// form by form with each payload moved into a plain value.
#[verifier::external_body]
pub fn dw_cur_high_pc(cursor: &DieCursor<'_>) -> (r: Option<PlainAttr>)
    requires
        cursor_cur(*cursor) is Some,
    ensures
        (cursor_cur(*cursor) matches Some(m) && (m.tag == TAG_SUBPROGRAM || m.tag
            == TAG_INLINED_SUBROUTINE)) ==> r == cursor_cur(*cursor)->0.high_pc,
{
    let v = match cursor.inner.current().unwrap().attr_value(gimli::DW_AT_high_pc) {
        Some(v) => v,
        None => return None,
    };
    Some(match v {
        AttributeValue::Addr(a) => PlainAttr::Addr(a),
        AttributeValue::Udata(d) => PlainAttr::Udata(d),
        AttributeValue::Data1(d) => PlainAttr::Data1(d),
        AttributeValue::Data2(d) => PlainAttr::Data2(d),
        AttributeValue::Data4(d) => PlainAttr::Data4(d),
        AttributeValue::Data8(d) => PlainAttr::Data8(d),
        AttributeValue::Sdata(d) => PlainAttr::Sdata(d),
        AttributeValue::UnitRef(off) => PlainAttr::UnitRef(off.0 as u64),
        _ => PlainAttr::Other,
    })
}

/// Relies on gimli::read::IncompleteLineProgram::rows: an iterator over the
/// rows of the unit's line-number program; a unit without one has no rows.
#[verifier::external_body]
pub fn dw_line_rows(unit: &CompUnit) -> (r: Option<LineRowsIter>)
    ensures
        r matches Some(it) ==> rows_rest(it) == unit_rows(*unit),
        r is None ==> unit_rows(*unit).len() == 0,
{
    match &unit.inner.line_program {
        Some(program) => Some(LineRowsIter { inner: program.clone().rows() }),
        None => None,
    }
}

/// Relies on gimli::read::LineRows::next_row and the row accessors of
/// gimli::read::LineRow: advances the line-number program one row and copies
/// the row's address, file index, line number and end-of-sequence flag out.
/// Yields None exactly once every row has been seen.
#[verifier::external_body]
pub fn dw_next_row(rows: &mut LineRowsIter) -> (r: Result<Option<LineRowRec>, DwarfError>)
    ensures
        r matches Ok(Some(row)) ==> rows_rest(*old(rows)).len() > 0 && row == rows_rest(
            *old(rows),
        )[0] && rows_rest(*final(rows)) == rows_rest(*old(rows)).drop_first(),
        (r matches Ok(v) && v is None) ==> rows_rest(*old(rows)).len() == 0,
{
    match rows.inner.next_row() {
        Ok(Some((_, row))) => Ok(Some(LineRowRec {
            address: row.address(),
            file_index: row.file_index(),
            line: match row.line() {
                Some(l) => Some(l.get()),
                None => None,
            },
            end_sequence: row.end_sequence(),
        })),
        Ok(None) => Ok(None),
        Err(e) => Err(DwarfError::Parse(e.to_string())),
    }
}

/// Relies on gimli::read::LineProgramHeader::file,
/// gimli::read::FileEntry::path_name and gimli::Dwarf::attr_string: resolves
/// a line-program file index to the file's path name, as the row's header
/// lays it down.
#[verifier::external_body]
pub fn dw_file_name(unit: &CompUnit, file_index: u64) -> Option<String> {
    let program = unit.inner.line_program.as_ref()?;
    let file_entry = program.header().file(file_index)?;
    match unit.dwarf.attr_string(&unit.inner, file_entry.path_name()) {
        Ok(s) => Some(s.to_string_lossy().into_owned()),
        Err(_) => None,
    }
}

} // verus!
