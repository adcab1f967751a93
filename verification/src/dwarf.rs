//! DWARF resolution: function name to entry addresses, and program counter
//! to code point (function, source file, line).
//!
//! The gimli reader walks the raw debug sections behind the trusted surface
//! in `gimli_api`; every entry it yields is converted at once to a plain
//! record.  All resolution decisions — which tags matter, how a high-pc
//! attribute is decoded, which range or line row encloses an address, and
//! the per-name cache — are verified here.
use vstd::prelude::*;

pub mod gimli_api;

verus! {

/// The raw DWARF tag of a concrete function entry.
pub const TAG_SUBPROGRAM: u16 = 0x2e;

/// The raw DWARF tag of an inlined-function entry.
pub const TAG_INLINED_SUBROUTINE: u16 = 0x1d;

/// A failure while resolving debug information.
#[derive(Debug)]
pub enum DwarfError {
    /// The DWARF reader reported a parse error; its description, surfaced
    /// unchanged.
    Parse(String),
    /// A function's address range is malformed: a negative length, or an
    /// end that does not fit the address space.
    InvalidAddressRange,
    /// The debug data holds more entries than this resolver walks; a guard
    /// against malformed input, never reached by well-formed executables.
    TooManyEntries,
}

/// An attribute value reduced to the forms the resolution logic reads.
#[derive(Debug, Clone, Copy, PartialEq, Eq, Structural)]
pub enum PlainAttr {
    /// An address in the described program.
    Addr(u64),
    /// An unsigned constant.
    Udata(u64),
    /// A one-byte constant.
    Data1(u8),
    /// A two-byte constant.
    Data2(u16),
    /// A four-byte constant.
    Data4(u32),
    /// An eight-byte constant.
    Data8(u64),
    /// A signed constant.
    Sdata(i64),
    /// A reference to another entry of the same unit, by offset.
    UnitRef(u64),
    /// Any other form; not read by the resolution logic.
    Other,
}

/// One row of a unit's line-number program, as the resolution logic reads
/// it.
#[derive(Debug, Clone, Copy, PartialEq, Eq, Structural)]
pub struct LineRowRec {
    /// The row's address in DWARF space.
    pub address: u64,
    /// The index of the row's source file in the program's file table.
    pub file_index: u64,
    /// The row's source line, if it names one.
    pub line: Option<u64>,
    /// Whether the row only ends a sequence and maps no instruction.
    pub end_sequence: bool,
}

/// One function entry of a compilation unit, reduced to the plain values
/// the resolution logic reads.
#[derive(Debug, Clone)]
pub struct DieRec {
    /// The entry's raw DWARF tag.
    pub tag: u16,
    /// The entry's own name attribute, if present.
    pub name: Option<String>,
    /// The name of the entry's abstract origin, for inlined entries that
    /// carry one.
    pub origin_name: Option<String>,
    /// The entry's entry address, where the low-pc attribute holds an
    /// address form.
    pub low_pc: Option<u64>,
    /// The entry's high-pc attribute, in whatever form it appears.
    pub high_pc: Option<PlainAttr>,
}

/// A function's address range in DWARF space, with its name.
#[derive(Debug, Clone)]
pub struct FuncRange {
    /// The function's name.
    pub name: String,
    /// The first address of the function.
    pub lo: u64,
    /// The first address past the function.
    pub hi: u64,
}

/// What a high-pc attribute denotes, next to a given low-pc.
#[derive(Debug, Clone, Copy, PartialEq, Eq, Structural)]
pub enum HighPc {
    /// The entry has no high-pc in a form the resolution reads.
    Absent,
    /// The range is malformed: a negative length, or an end past the
    /// address space.
    Bad,
    /// The first address past the function.
    Value(u64),
}

/// The end address `lo + d`, or `Bad` where it leaves the address space.
pub open spec fn spec_lo_plus(lo: u64, d: nat) -> HighPc {
    if lo + d <= u64::MAX {
        HighPc::Value((lo + d) as u64)
    } else {
        HighPc::Bad
    }
}

/// The end of a function's range: a high-pc attribute is either an absolute
/// address, or a length relative to the low-pc in one of several constant
/// forms; a negative signed length is malformed.
pub open spec fn spec_high_pc(lo: u64, attr: PlainAttr) -> HighPc {
    match attr {
        PlainAttr::Addr(h) => HighPc::Value(h),
        PlainAttr::Udata(d) => spec_lo_plus(lo, d as nat),
        PlainAttr::Data1(d) => spec_lo_plus(lo, d as nat),
        PlainAttr::Data2(d) => spec_lo_plus(lo, d as nat),
        PlainAttr::Data4(d) => spec_lo_plus(lo, d as nat),
        PlainAttr::Data8(d) => spec_lo_plus(lo, d as nat),
        PlainAttr::Sdata(s) => if s < 0 {
            HighPc::Bad
        } else {
            spec_lo_plus(lo, s as nat)
        },
        PlainAttr::UnitRef(_) => HighPc::Absent,
        PlainAttr::Other => HighPc::Absent,
    }
}

/// Decodes a high-pc attribute next to `lo`, exactly as `spec_high_pc` lays
/// it down: `Ok(Some(hi))` for a well-formed end address, `Ok(None)` where
/// no end is given, and an invalid-range error for a negative or
/// overflowing length.
pub fn high_pc_value(lo: u64, attr: PlainAttr) -> (r: Result<Option<u64>, DwarfError>)
    ensures
        match spec_high_pc(lo, attr) {
            HighPc::Value(h) => r matches Ok(v) && v == Some(h),
            HighPc::Absent => r matches Ok(v) && v is None,
            HighPc::Bad => r matches Err(e) && e is InvalidAddressRange,
        },
{
    match attr {
        PlainAttr::Addr(h) => Ok(Some(h)),
        PlainAttr::Udata(d) => match lo.checked_add(d) {
            Some(h) => Ok(Some(h)),
            None => Err(DwarfError::InvalidAddressRange),
        },
        PlainAttr::Data1(d) => match lo.checked_add(d as u64) {
            Some(h) => Ok(Some(h)),
            None => Err(DwarfError::InvalidAddressRange),
        },
        PlainAttr::Data2(d) => match lo.checked_add(d as u64) {
            Some(h) => Ok(Some(h)),
            None => Err(DwarfError::InvalidAddressRange),
        },
        PlainAttr::Data4(d) => match lo.checked_add(d as u64) {
            Some(h) => Ok(Some(h)),
            None => Err(DwarfError::InvalidAddressRange),
        },
        PlainAttr::Data8(d) => match lo.checked_add(d) {
            Some(h) => Ok(Some(h)),
            None => Err(DwarfError::InvalidAddressRange),
        },
        PlainAttr::Sdata(s) => {
            if s < 0 {
                Err(DwarfError::InvalidAddressRange)
            } else {
                match lo.checked_add(s as u64) {
                    Some(h) => Ok(Some(h)),
                    None => Err(DwarfError::InvalidAddressRange),
                }
            }
        },
        PlainAttr::UnitRef(_) => Ok(None),
        PlainAttr::Other => Ok(None),
    }
}

/// Whether an address lies inside a function's range.
pub open spec fn range_contains(r: FuncRange, pc: u64) -> bool {
    r.lo <= pc < r.hi
}

/// The number of addresses a function's range covers.
pub open spec fn range_width(r: FuncRange) -> int {
    r.hi - r.lo
}

/// Whether range `a` is a strictly better answer than `b` for an address
/// both enclose: narrower, or as narrow and starting later, so that an
/// inlined frame shadows the subprogram around it.
pub open spec fn range_preferred(a: FuncRange, b: FuncRange) -> bool {
    ||| range_width(a) < range_width(b)
    ||| (range_width(a) == range_width(b) && a.lo > b.lo)
}

/// Picks the function enclosing `pc`: the narrowest range containing `pc`,
/// ties broken by the greatest start, then by the latest entry.  `None`
/// exactly when no range contains `pc`.
pub fn select_enclosing(ranges: &Vec<FuncRange>, pc: u64) -> (r: Option<usize>)
    ensures
        match r {
            Some(i) => i < ranges@.len() && range_contains(ranges@[i as int], pc) && (forall|
                j: int,
            |
                0 <= j < ranges@.len() && range_contains(ranges@[j], pc) ==> !range_preferred(
                    ranges@[j],
                    ranges@[i as int],
                )) && (forall|j: int|
                i < j < ranges@.len() && range_contains(ranges@[j], pc) ==> range_preferred(
                    ranges@[i as int],
                    ranges@[j],
                )),
            None => forall|j: int| 0 <= j < ranges@.len() ==> !range_contains(ranges@[j], pc),
        },
{
    let n = ranges.len();
    let mut best: Option<usize> = None;
    let mut i: usize = 0;
    while i < n
        invariant
            i <= n,
            n == ranges@.len(),
            match best {
                Some(b) => b < i && range_contains(ranges@[b as int], pc) && (forall|j: int|
                    0 <= j < i && range_contains(ranges@[j], pc) ==> !range_preferred(
                        ranges@[j],
                        ranges@[b as int],
                    )) && (forall|j: int|
                    b < j < i && range_contains(ranges@[j], pc) ==> range_preferred(
                        ranges@[b as int],
                        ranges@[j],
                    )),
                None => forall|j: int| 0 <= j < i ==> !range_contains(ranges@[j], pc),
            },
        decreases n - i,
    {
        if ranges[i].lo <= pc && pc < ranges[i].hi {
            let replace: bool = match best {
                None => true,
                Some(b) => {
                    let best_width = ranges[b].hi - ranges[b].lo;
                    let new_width = ranges[i].hi - ranges[i].lo;
                    new_width < best_width || (new_width == best_width && ranges[i].lo
                        >= ranges[b].lo)
                },
            };
            if replace {
                best = Some(i);
            }
        }
        i = i + 1;
    }
    best
}

/// Whether a line row can map `pc`: its address does not exceed `pc` and it
/// does not merely end a sequence.
pub open spec fn row_qualifies(row: LineRowRec, pc: u64) -> bool {
    row.address <= pc && !row.end_sequence
}

/// Picks the line-table row for `pc`: among the rows at or below `pc` that
/// do not end a sequence, one with the greatest address — the last such row.
/// `None` exactly when no row qualifies.
pub fn select_line_row(rows: &Vec<LineRowRec>, pc: u64) -> (r: Option<usize>)
    ensures
        match r {
            Some(i) => i < rows@.len() && row_qualifies(rows@[i as int], pc) && (forall|j: int|
                0 <= j < rows@.len() && row_qualifies(rows@[j], pc) ==> rows@[j].address
                    <= rows@[i as int].address) && (forall|j: int|
                i < j < rows@.len() && row_qualifies(rows@[j], pc) ==> rows@[j].address
                    < rows@[i as int].address),
            None => forall|j: int| 0 <= j < rows@.len() ==> !row_qualifies(rows@[j], pc),
        },
{
    let n = rows.len();
    let mut best: Option<usize> = None;
    let mut i: usize = 0;
    while i < n
        invariant
            i <= n,
            n == rows@.len(),
            match best {
                Some(b) => b < i && row_qualifies(rows@[b as int], pc) && (forall|j: int|
                    0 <= j < i && row_qualifies(rows@[j], pc) ==> rows@[j].address
                        <= rows@[b as int].address) && (forall|j: int|
                    b < j < i && row_qualifies(rows@[j], pc) ==> rows@[j].address
                        < rows@[b as int].address),
                None => forall|j: int| 0 <= j < i ==> !row_qualifies(rows@[j], pc),
            },
        decreases n - i,
    {
        if rows[i].address <= pc && !rows[i].end_sequence {
            let replace: bool = match best {
                None => true,
                Some(b) => rows[b].address <= rows[i].address,
            };
            if replace {
                best = Some(i);
            }
        }
        i = i + 1;
    }
    best
}

/// Program-counter lookup is stable across a function's whole span: every
/// address that exactly one range covers resolves to that range, so a
/// function nothing shadows reports itself for each `pc` in `[lo, hi)`.
pub proof fn lemma_pc_lookup_in_span(ranges: Seq<FuncRange>, k: int, pc: u64, i: int)
    requires
        0 <= k < ranges.len(),
        range_contains(ranges[k], pc),
        forall|j: int| 0 <= j < ranges.len() && j != k ==> !range_contains(ranges[j], pc),
        0 <= i < ranges.len(),
        range_contains(ranges[i], pc),
    ensures
        i == k,
        ranges[i].name == ranges[k].name,
{
}

/// Whether a function record answers to the queried name: a concrete
/// function by its own name, an inlined one by its origin's name.
pub open spec fn rec_matches_query(r: DieRec, q: Seq<char>) -> bool {
    if r.tag == TAG_SUBPROGRAM {
        match r.name {
            Some(n) => n@ == q,
            None => false,
        }
    } else if r.tag == TAG_INLINED_SUBROUTINE {
        match r.origin_name {
            Some(n) => n@ == q,
            None => false,
        }
    } else {
        false
    }
}

/// The entry addresses one record adds to a name query's answer.
pub open spec fn match_contribution(r: DieRec, q: Seq<char>) -> Seq<u64> {
    if rec_matches_query(r, q) {
        match r.low_pc {
            Some(a) => seq![a],
            None => Seq::empty(),
        }
    } else {
        Seq::empty()
    }
}

/// The entry addresses of all records answering to the queried name, in
/// record order.
pub open spec fn spec_matching_addresses(rs: Seq<DieRec>, q: Seq<char>) -> Seq<u64>
    decreases rs.len(),
{
    if rs.len() == 0 {
        Seq::empty()
    } else {
        match_contribution(rs[0], q) + spec_matching_addresses(rs.drop_first(), q)
    }
}

/// One more record appends its own contribution to a query's answer.
pub proof fn lemma_matching_push(rs: Seq<DieRec>, r: DieRec, q: Seq<char>)
    ensures
        spec_matching_addresses(rs.push(r), q) =~= spec_matching_addresses(rs, q)
            + match_contribution(r, q),
    decreases rs.len(),
{
    reveal_with_fuel(spec_matching_addresses, 2);
    if rs.len() == 0 {
        assert(rs.push(r)[0] == r);
        assert(rs.push(r).drop_first() =~= Seq::<DieRec>::empty());
        assert(spec_matching_addresses(rs.push(r), q) == match_contribution(r, q)
            + spec_matching_addresses(Seq::<DieRec>::empty(), q));
        assert(spec_matching_addresses(rs.push(r), q) =~= spec_matching_addresses(rs, q)
            + match_contribution(r, q));
    } else {
        assert(rs.push(r)[0] == rs[0]);
        assert(rs.push(r).drop_first() =~= rs.drop_first().push(r));
        lemma_matching_push(rs.drop_first(), r, q);
        assert(spec_matching_addresses(rs.push(r), q) =~= match_contribution(rs[0], q) + (
        spec_matching_addresses(rs.drop_first(), q) + match_contribution(r, q)));
    }
}

/// The entry addresses of the records answering to `name`, exactly as
/// `spec_matching_addresses` lays them down.
pub fn matching_addresses(records: &Vec<DieRec>, name: &str) -> (r: Vec<u64>)
    ensures
        r@ == spec_matching_addresses(records@, name@),
{
    let n = records.len();
    let mut out: Vec<u64> = Vec::new();
    let mut i: usize = 0;
    while i < n
        invariant
            i <= n,
            n == records@.len(),
            out@ =~= spec_matching_addresses(records@.take(i as int), name@),
        decreases n - i,
    {
        let tag = records[i].tag;
        let matched: bool = if tag == TAG_SUBPROGRAM {
            match &records[i].name {
                Some(s) => crate::streq(s.as_str(), name),
                None => false,
            }
        } else if tag == TAG_INLINED_SUBROUTINE {
            match &records[i].origin_name {
                Some(s) => crate::streq(s.as_str(), name),
                None => false,
            }
        } else {
            false
        };
        if matched {
            match records[i].low_pc {
                Some(a) => out.push(a),
                None => {},
            }
        }
        proof {
            assert(records@.take(i + 1) =~= records@.take(i as int).push(records@[i as int]));
            lemma_matching_push(records@.take(i as int), records@[i as int], name@);
        }
        i = i + 1;
    }
    proof {
        assert(records@.take(n as int) =~= records@);
    }
    out
}

/// The name a record's function shows: its own name where it has one, its
/// origin's name for an inlined entry.
pub open spec fn rec_display_name(r: DieRec) -> Option<String> {
    match r.name {
        Some(n) => Some(n),
        None => if r.tag == TAG_INLINED_SUBROUTINE {
            r.origin_name
        } else {
            None
        },
    }
}

/// The address range one record adds: nothing for other tags, nameless or
/// rangeless entries; `None` (malformed) where the high-pc is bad.
pub open spec fn range_contribution(r: DieRec) -> Option<Seq<FuncRange>> {
    if r.tag != TAG_SUBPROGRAM && r.tag != TAG_INLINED_SUBROUTINE {
        Some(Seq::empty())
    } else {
        match rec_display_name(r) {
            None => Some(Seq::empty()),
            Some(name) => match r.low_pc {
                None => Some(Seq::empty()),
                Some(lo) => match r.high_pc {
                    None => Some(Seq::empty()),
                    Some(attr) => match spec_high_pc(lo, attr) {
                        HighPc::Absent => Some(Seq::empty()),
                        HighPc::Bad => None,
                        HighPc::Value(hi) => Some(seq![FuncRange { name, lo, hi }]),
                    },
                },
            },
        }
    }
}

/// The address ranges of all the records, in order; `None` as soon as any
/// record's range is malformed.
pub open spec fn spec_func_ranges(rs: Seq<DieRec>) -> Option<Seq<FuncRange>>
    decreases rs.len(),
{
    if rs.len() == 0 {
        Some(Seq::empty())
    } else {
        match (range_contribution(rs[0]), spec_func_ranges(rs.drop_first())) {
            (Some(h), Some(t)) => Some(h + t),
            _ => None,
        }
    }
}

/// One more record appends its own range, or poisons the whole answer.
pub proof fn lemma_func_ranges_push(rs: Seq<DieRec>, r: DieRec)
    ensures
        match (spec_func_ranges(rs), range_contribution(r)) {
            (Some(a), Some(h)) => spec_func_ranges(rs.push(r)) matches Some(w) && w =~= a + h,
            _ => spec_func_ranges(rs.push(r)) is None,
        },
    decreases rs.len(),
{
    reveal_with_fuel(spec_func_ranges, 2);
    if rs.len() == 0 {
        assert(rs.push(r)[0] == r);
        assert(rs.push(r).drop_first() =~= Seq::<DieRec>::empty());
        match range_contribution(r) {
            Some(h) => {
                assert(spec_func_ranges(rs.push(r)) matches Some(w) && w =~= Seq::<
                    FuncRange,
                >::empty() + h);
            },
            None => {},
        }
    } else {
        assert(rs.push(r)[0] == rs[0]);
        assert(rs.push(r).drop_first() =~= rs.drop_first().push(r));
        lemma_func_ranges_push(rs.drop_first(), r);
        match (range_contribution(rs[0]), spec_func_ranges(rs.drop_first()), range_contribution(
            r,
        )) {
            (Some(a0), Some(t), Some(h)) => {
                assert(spec_func_ranges(rs.push(r)) matches Some(w) && w =~= a0 + (t + h));
                assert(a0 + (t + h) =~= (a0 + t) + h);
            },
            _ => {},
        }
    }
}

/// The address ranges of the given records, exactly as `spec_func_ranges`
/// lays them down; an invalid-range error exactly where some record's range
/// is malformed.
pub fn func_ranges(records: &Vec<DieRec>) -> (r: Result<Vec<FuncRange>, DwarfError>)
    ensures
        match r {
            Ok(v) => spec_func_ranges(records@) matches Some(s) && s == v@,
            Err(e) => spec_func_ranges(records@) is None && e is InvalidAddressRange,
        },
{
    let n = records.len();
    let mut out: Vec<FuncRange> = Vec::new();
    let mut i: usize = 0;
    while i < n
        invariant
            i <= n,
            n == records@.len(),
            spec_func_ranges(records@.take(i as int)) matches Some(s) && s =~= out@,
        decreases n - i,
    {
        proof {
            assert(records@.take(i + 1) =~= records@.take(i as int).push(records@[i as int]));
            lemma_func_ranges_push(records@.take(i as int), records@[i as int]);
        }
        let tag = records[i].tag;
        if tag == TAG_SUBPROGRAM || tag == TAG_INLINED_SUBROUTINE {
            let display_name: Option<String> = match &records[i].name {
                Some(s) => Some(s.clone()),
                None => {
                    if tag == TAG_INLINED_SUBROUTINE {
                        match &records[i].origin_name {
                            Some(s) => Some(s.clone()),
                            None => None,
                        }
                    } else {
                        None
                    }
                },
            };
            match display_name {
                None => {},
                Some(name) => match records[i].low_pc {
                    None => {},
                    Some(lo) => match records[i].high_pc {
                        None => {},
                        Some(attr) => match high_pc_value(lo, attr) {
                            Ok(Some(hi)) => out.push(FuncRange { name, lo, hi }),
                            Ok(None) => {},
                            Err(e) => {
                                proof {
                                    lemma_func_ranges_poison(records@, i as int);
                                }
                                return Err(DwarfError::InvalidAddressRange);
                            },
                        },
                    },
                },
            }
        }
        i = i + 1;
    }
    proof {
        assert(records@.take(n as int) =~= records@);
    }
    Ok(out)
}

/// One malformed record poisons the whole answer.
pub proof fn lemma_func_ranges_poison(rs: Seq<DieRec>, j: int)
    requires
        0 <= j < rs.len(),
        range_contribution(rs[j]) is None,
    ensures
        spec_func_ranges(rs) is None,
    decreases rs.len(),
{
    if j > 0 {
        lemma_func_ranges_poison(rs.drop_first(), j - 1);
    }
}

/// The most compilation units one executable's debug info is walked for,
/// and the most entries or line rows walked within one unit: a guard that
/// bounds the walk on malformed debug data; no well-formed executable comes
/// near it.
pub const WALK_LIMIT: u64 = 0x1_0000_0000;

/// Walks one compilation unit's entries in depth-first order and reduces
/// each one to a plain record — for concrete and inlined function entries
/// its tag, its own name, its origin's name where an inlined entry refers
/// to one, its entry address and its high-pc attribute; for every other
/// entry just its tag.  On success the records are exactly the unit's, in
/// order.
pub fn collect_unit_records(unit: &gimli_api::CompUnit) -> (r: Result<Vec<DieRec>, DwarfError>)
    ensures
        r matches Ok(v) ==> v@ == gimli_api::unit_records(*unit),
{
    let mut cursor = gimli_api::dw_entries(unit);
    let mut out: Vec<DieRec> = Vec::new();
    let mut fuel: u64 = WALK_LIMIT;
    while fuel > 0
        invariant
            out@ + gimli_api::cursor_rest(cursor) =~= gimli_api::unit_records(*unit),
        decreases fuel,
    {
        fuel = fuel - 1;
        let ghost rest0 = gimli_api::cursor_rest(cursor);
        let advanced = match gimli_api::dw_next_entry(&mut cursor) {
            Ok(b) => b,
            Err(e) => {
                return Err(e);
            },
        };
        if !advanced {
            proof {
                assert(out@ =~= gimli_api::unit_records(*unit));
            }
            return Ok(out);
        }
        let tag = gimli_api::dw_cur_tag(&cursor);
        let rec: DieRec = if tag == TAG_SUBPROGRAM || tag == TAG_INLINED_SUBROUTINE {
            let name = match gimli_api::dw_cur_name(&cursor) {
                Ok(n) => n,
                Err(e) => {
                    return Err(e);
                },
            };
            let origin_name = if tag == TAG_INLINED_SUBROUTINE {
                match gimli_api::dw_cur_origin_name(&cursor) {
                    Ok(n) => n,
                    Err(e) => {
                        return Err(e);
                    },
                }
            } else {
                None
            };
            let low_pc = gimli_api::dw_cur_low_pc(&cursor);
            let high_pc = gimli_api::dw_cur_high_pc(&cursor);
            DieRec { tag, name, origin_name, low_pc, high_pc }
        } else {
            DieRec { tag, name: None, origin_name: None, low_pc: None, high_pc: None }
        };
        proof {
            let m = rest0[0];
            assert(rec.tag == m.tag);
            assert(rec.name == m.name);
            assert(rec.origin_name == m.origin_name);
            assert(rec.low_pc == m.low_pc);
            assert(rec.high_pc == m.high_pc);
            assert(rec == m);
            assert(out@.push(rest0[0]) + gimli_api::cursor_rest(cursor) =~= out@ + rest0);
        }
        out.push(rec);
    }
    Err(DwarfError::TooManyEntries)
}

/// Walks one compilation unit's line-number program and copies every row
/// out; a unit without one has no rows.  On success the rows are exactly
/// the unit's, in order.
pub fn collect_unit_rows(unit: &gimli_api::CompUnit) -> (r: Result<Vec<LineRowRec>, DwarfError>)
    ensures
        r matches Ok(v) ==> v@ == gimli_api::unit_rows(*unit),
{
    let mut out: Vec<LineRowRec> = Vec::new();
    let mut rows = match gimli_api::dw_line_rows(unit) {
        Some(rows) => rows,
        None => {
            proof {
                assert(out@ =~= gimli_api::unit_rows(*unit));
            }
            return Ok(out);
        },
    };
    let mut fuel: u64 = WALK_LIMIT;
    while fuel > 0
        invariant
            out@ + gimli_api::rows_rest(rows) =~= gimli_api::unit_rows(*unit),
        decreases fuel,
    {
        fuel = fuel - 1;
        let ghost rest0 = gimli_api::rows_rest(rows);
        match gimli_api::dw_next_row(&mut rows) {
            Ok(Some(row)) => {
                proof {
                    assert(out@.push(rest0[0]) + gimli_api::rows_rest(rows) =~= out@ + rest0);
                }
                out.push(row);
            },
            Ok(None) => {
                proof {
                    assert(out@ =~= gimli_api::unit_rows(*unit));
                }
                return Ok(out);
            },
            Err(e) => {
                return Err(e);
            },
        }
    }
    Err(DwarfError::TooManyEntries)
}

/// The entry addresses answering to a query across all compilation units:
/// each unit's matches, in unit order.
pub open spec fn spec_all_matching(units: Seq<Seq<DieRec>>, q: Seq<char>) -> Seq<u64>
    decreases units.len(),
{
    if units.len() == 0 {
        Seq::empty()
    } else {
        spec_matching_addresses(units[0], q) + spec_all_matching(units.drop_first(), q)
    }
}

/// Resolves a function name to the entry addresses of every concrete
/// function with that name and every inlined call site of it, across all
/// compilation units, in DWARF space (not rebased).  On success the answer
/// is exactly the matches the debug info holds, in order; a name that
/// resolves nowhere yields an empty list, not an error.
pub fn function_names_to_addresses(dwarf: &gimli_api::DwarfData, function: &str) -> (r: Result<
    Vec<u64>,
    DwarfError,
>)
    ensures
        r matches Ok(v) ==> v@ == spec_all_matching(
            gimli_api::dw_unit_records(*dwarf),
            function@,
        ),
{
    let mut iter = gimli_api::dw_units(dwarf);
    let mut out: Vec<u64> = Vec::new();
    let mut fuel: u64 = WALK_LIMIT;
    while fuel > 0
        invariant
            out@ + spec_all_matching(gimli_api::units_rest_records(iter), function@)
                =~= spec_all_matching(gimli_api::dw_unit_records(*dwarf), function@),
        decreases fuel,
    {
        fuel = fuel - 1;
        let ghost rest0 = gimli_api::units_rest_records(iter);
        let unit = match gimli_api::dw_next_unit(&mut iter) {
            Ok(Some(u)) => u,
            Ok(None) => {
                proof {
                    assert(out@ =~= spec_all_matching(
                        gimli_api::dw_unit_records(*dwarf),
                        function@,
                    ));
                }
                return Ok(out);
            },
            Err(e) => {
                return Err(e);
            },
        };
        let records = match collect_unit_records(&unit) {
            Ok(rs) => rs,
            Err(e) => {
                return Err(e);
            },
        };
        let mut addrs = matching_addresses(&records, function);
        proof {
            assert(spec_all_matching(rest0, function@) == spec_matching_addresses(
                rest0[0],
                function@,
            ) + spec_all_matching(rest0.drop_first(), function@));
            assert((out@ + addrs@) + spec_all_matching(rest0.drop_first(), function@) =~= out@
                + spec_all_matching(rest0, function@));
        }
        out.append(&mut addrs);
    }
    Err(DwarfError::TooManyEntries)
}

/// The result of a program-counter lookup: the enclosing function's name,
/// the source file and line the address maps to, and the runtime address
/// that was queried.
#[derive(Debug, Clone)]
pub struct CodePoint {
    /// The name of the function enclosing the address.
    pub function: Option<String>,
    /// The path of the source file the address maps to.
    pub file: Option<String>,
    /// The source line the address maps to.
    pub line: Option<u64>,
    /// The runtime address that was queried.
    pub real_addr: u64,
}

/// Whether one unit maps `pc` to no code point: its well-formed ranges
/// contain it nowhere, or no line row qualifies.
pub open spec fn unit_yields_none(recs: Seq<DieRec>, rows: Seq<LineRowRec>, pc: u64) -> bool {
    match spec_func_ranges(recs) {
        Some(ranges) => (forall|i: int| 0 <= i < ranges.len() ==> !range_contains(ranges[i], pc))
            || (forall|i: int| 0 <= i < rows.len() ==> !row_qualifies(rows[i], pc)),
        None => false,
    }
}

/// Whether `cp` is the code point one unit yields for `pc`: its function is
/// a narrowest range enclosing `pc` — ties broken by the greatest start —
/// and its line comes from a qualifying row with the greatest address.
pub open spec fn unit_yields_codepoint(
    recs: Seq<DieRec>,
    rows: Seq<LineRowRec>,
    pc: u64,
    cp: CodePoint,
) -> bool {
    &&& spec_func_ranges(recs) matches Some(ranges) && (exists|i: int|
        0 <= i < ranges.len() && range_contains(ranges[i], pc) && (forall|j: int|
            0 <= j < ranges.len() && range_contains(ranges[j], pc) ==> !range_preferred(
                ranges[j],
                ranges[i],
            )) && cp.function == Some(ranges[i].name))
    &&& exists|k: int|
        0 <= k < rows.len() && row_qualifies(rows[k], pc) && (forall|j: int|
            0 <= j < rows.len() && row_qualifies(rows[j], pc) ==> rows[j].address
                <= rows[k].address) && cp.line == rows[k].line
}

/// Resolves a runtime program counter to a code point, subtracting the load
/// base to reach DWARF space.  The first compilation unit that yields one
/// answers: its narrowest enclosing function — ties broken by the greatest
/// start, so inlined frames shadow the subprogram around them — and the
/// qualifying line row with the greatest address.  A program counter below
/// the load base, or one no unit maps, yields no code point.
pub fn find_function_at_pc(dwarf: &gimli_api::DwarfData, pc: u64, base: u64) -> (r: Result<
    Option<CodePoint>,
    DwarfError,
>)
    ensures
        pc < base ==> (r matches Ok(v) && v is None),
        r matches Ok(Some(cp)) ==> pc >= base && cp.real_addr == pc && cp.function is Some && (
        exists|u: int|
            0 <= u < gimli_api::dw_unit_records(*dwarf).len() && u < gimli_api::dw_unit_rows(
                *dwarf,
            ).len() && (forall|j: int|
                0 <= j < u ==> unit_yields_none(
                    gimli_api::dw_unit_records(*dwarf)[j],
                    gimli_api::dw_unit_rows(*dwarf)[j],
                    (pc - base) as u64,
                )) && unit_yields_codepoint(
                gimli_api::dw_unit_records(*dwarf)[u],
                gimli_api::dw_unit_rows(*dwarf)[u],
                (pc - base) as u64,
                cp,
            )),
        (r matches Ok(v) && v is None && pc >= base) ==> forall|u: int|
            0 <= u < gimli_api::dw_unit_records(*dwarf).len() ==> unit_yields_none(
                gimli_api::dw_unit_records(*dwarf)[u],
                gimli_api::dw_unit_rows(*dwarf)[u],
                (pc - base) as u64,
            ),
{
    if pc < base {
        return Ok(None);
    }
    let dwarf_pc = pc - base;
    let mut iter = gimli_api::dw_units(dwarf);
    let ghost all_recs = gimli_api::dw_unit_records(*dwarf);
    let ghost all_rows = gimli_api::dw_unit_rows(*dwarf);
    let ghost mut consumed: int = 0;
    let mut fuel: u64 = WALK_LIMIT;
    while fuel > 0
        invariant
            pc >= base,
            dwarf_pc == pc - base,
            all_recs == gimli_api::dw_unit_records(*dwarf),
            all_rows == gimli_api::dw_unit_rows(*dwarf),
            all_recs.len() == all_rows.len(),
            0 <= consumed <= all_recs.len(),
            gimli_api::units_rest_records(iter) == all_recs.skip(consumed),
            gimli_api::units_rest_rows(iter) == all_rows.skip(consumed),
            forall|j: int| 0 <= j < consumed ==> unit_yields_none(all_recs[j], all_rows[j], dwarf_pc),
        decreases fuel,
    {
        fuel = fuel - 1;
        let unit = match gimli_api::dw_next_unit(&mut iter) {
            Ok(Some(u)) => u,
            Ok(None) => {
                proof {
                    assert(all_recs.skip(consumed).len() == 0);
                }
                return Ok(None);
            },
            Err(e) => {
                return Err(e);
            },
        };
        proof {
            assert(all_recs.skip(consumed)[0] == all_recs[consumed]);
            assert(all_recs.skip(consumed).drop_first() =~= all_recs.skip(consumed + 1));
            assert(all_rows.skip(consumed)[0] == all_rows[consumed]);
            assert(all_rows.skip(consumed).drop_first() =~= all_rows.skip(consumed + 1));
        }
        let records = match collect_unit_records(&unit) {
            Ok(rs) => rs,
            Err(e) => {
                return Err(e);
            },
        };
        let ranges = match func_ranges(&records) {
            Ok(rs) => rs,
            Err(e) => {
                return Err(e);
            },
        };
        let best = match select_enclosing(&ranges, dwarf_pc) {
            Some(i) => i,
            None => {
                proof {
                    assert(unit_yields_none(all_recs[consumed], all_rows[consumed], dwarf_pc));
                    consumed = consumed + 1;
                }
                continue ;
            },
        };
        let rows = match collect_unit_rows(&unit) {
            Ok(rs) => rs,
            Err(e) => {
                return Err(e);
            },
        };
        let row = match select_line_row(&rows, dwarf_pc) {
            Some(i) => i,
            None => {
                proof {
                    assert(unit_yields_none(all_recs[consumed], all_rows[consumed], dwarf_pc));
                    consumed = consumed + 1;
                }
                continue ;
            },
        };
        let file = gimli_api::dw_file_name(&unit, rows[row].file_index);
        let cp = CodePoint {
            function: Some(ranges[best].name.clone()),
            file,
            line: rows[row].line,
            real_addr: pc,
        };
        proof {
            assert(unit_yields_codepoint(all_recs[consumed], all_rows[consumed], dwarf_pc, cp));
        }
        return Ok(Some(cp));
    }
    Err(DwarfError::TooManyEntries)
}

/// Walks every compilation unit and yields the name and raw tag of each
/// named debugging-information entry, with the number of units walked.
pub fn process_dwarf_test(dwarf: &gimli_api::DwarfData) -> (r: Result<
    (Vec<(String, u16)>, u64),
    DwarfError,
>) {
    let mut iter = gimli_api::dw_units(dwarf);
    let mut names: Vec<(String, u16)> = Vec::new();
    let mut units: u64 = 0;
    let mut fuel: u64 = WALK_LIMIT;
    while fuel > 0
        invariant
            units + fuel <= WALK_LIMIT,
        decreases fuel,
    {
        fuel = fuel - 1;
        let unit = match gimli_api::dw_next_unit(&mut iter) {
            Ok(Some(u)) => u,
            Ok(None) => {
                return Ok((names, units));
            },
            Err(e) => {
                return Err(e);
            },
        };
        match collect_unit_names(&unit) {
            Ok(mut unit_names) => names.append(&mut unit_names),
            Err(e) => {
                return Err(e);
            },
        }
        units = units + 1;
    }
    Err(DwarfError::TooManyEntries)
}

/// Walks one compilation unit's entries and yields the name and raw tag of
/// each named one.
fn collect_unit_names(unit: &gimli_api::CompUnit) -> (r: Result<Vec<(String, u16)>, DwarfError>) {
    let mut cursor = gimli_api::dw_entries(unit);
    let mut names: Vec<(String, u16)> = Vec::new();
    let mut fuel: u64 = WALK_LIMIT;
    while fuel > 0
        decreases fuel,
    {
        fuel = fuel - 1;
        let advanced = match gimli_api::dw_next_entry(&mut cursor) {
            Ok(b) => b,
            Err(e) => {
                return Err(e);
            },
        };
        if !advanced {
            return Ok(names);
        }
        match gimli_api::dw_cur_name(&cursor) {
            Ok(Some(name)) => names.push((name, gimli_api::dw_cur_tag(&cursor))),
            Ok(None) => {},
            Err(e) => {
                return Err(e);
            },
        }
    }
    Err(DwarfError::TooManyEntries)
}

/// The answer a per-name cache holds for a query: the value of its first
/// entry with the queried name.
pub open spec fn spec_cache_lookup(c: Seq<(String, Vec<u64>)>, q: Seq<char>) -> Option<Seq<u64>>
    decreases c.len(),
{
    if c.len() == 0 {
        None
    } else if c[0].0@ == q {
        Some(c[0].1@)
    } else {
        spec_cache_lookup(c.drop_first(), q)
    }
}

/// Copies a list of addresses.
fn copy_addresses(v: &Vec<u64>) -> (r: Vec<u64>)
    ensures
        r@ == v@,
{
    let n = v.len();
    let mut out: Vec<u64> = Vec::new();
    let mut i: usize = 0;
    while i < n
        invariant
            i <= n,
            n == v@.len(),
            out@ =~= v@.take(i as int),
        decreases n - i,
    {
        out.push(v[i]);
        proof {
            assert(out@.drop_last() =~= v@.take(i as int));
            assert(out@ =~= v@.take(i + 1));
        }
        i = i + 1;
    }
    proof {
        assert(v@.take(n as int) =~= v@);
    }
    out
}

/// A fresh cache entry answers its own name.
pub proof fn lemma_cache_lookup_push(c: Seq<(String, Vec<u64>)>, entry: (String, Vec<u64>), q: Seq<
    char,
>)
    requires
        spec_cache_lookup(c, q) is None,
        entry.0@ == q,
    ensures
        spec_cache_lookup(c.push(entry), q) matches Some(v) && v == entry.1@,
    decreases c.len(),
{
    reveal_with_fuel(spec_cache_lookup, 2);
    if c.len() == 0 {
        assert(c.push(entry)[0] == entry);
    } else {
        assert(c.push(entry)[0] == c[0]);
        assert(c.push(entry).drop_first() =~= c.drop_first().push(entry));
        lemma_cache_lookup_push(c.drop_first(), entry, q);
    }
}

/// A read-mostly view over one executable's debug info, with a cache from
/// function name to the entry addresses it resolved to.
pub struct DwarfInfo {
    dwarf: gimli_api::DwarfData,
    function_cache: Vec<(String, Vec<u64>)>,
}

impl DwarfInfo {
    /// The debug info this index reads.
    pub closed spec fn spec_dwarf(self) -> gimli_api::DwarfData {
        self.dwarf
    }

    /// The cached queries and their answers, oldest first.
    pub closed spec fn spec_cache(self) -> Seq<(String, Vec<u64>)> {
        self.function_cache@
    }

    /// A fresh index over the given debug info, with nothing cached.
    pub fn new(dwarf: gimli_api::DwarfData) -> (r: DwarfInfo)
        ensures
            r.spec_cache() =~= Seq::<(String, Vec<u64>)>::empty(),
            r.spec_dwarf() == dwarf,
    {
        DwarfInfo { dwarf, function_cache: Vec::new() }
    }

    /// The cached answer for a query, if one is held.
    fn cache_get(&self, function: &str) -> (r: Option<Vec<u64>>)
        ensures
            match r {
                Some(v) => spec_cache_lookup(self.spec_cache(), function@) matches Some(s) && s
                    == v@,
                None => spec_cache_lookup(self.spec_cache(), function@) is None,
            },
    {
        let n = self.function_cache.len();
        let mut i: usize = 0;
        proof {
            assert(self.function_cache@.skip(0) =~= self.function_cache@);
        }
        while i < n
            invariant
                i <= n,
                n == self.function_cache@.len(),
                spec_cache_lookup(self.function_cache@, function@) == spec_cache_lookup(
                    self.function_cache@.skip(i as int),
                    function@,
                ),
            decreases n - i,
        {
            proof {
                assert(self.function_cache@.skip(i as int)[0] == self.function_cache@[i as int]);
                assert(self.function_cache@.skip(i as int).drop_first() =~= self.function_cache@.skip(
                    i + 1,
                ));
            }
            if crate::streq(self.function_cache[i].0.as_str(), function) {
                let v = copy_addresses(&self.function_cache[i].1);
                return Some(v);
            }
            i = i + 1;
        }
        proof {
            assert(self.function_cache@.skip(n as int) =~= Seq::<(String, Vec<u64>)>::empty());
        }
        None
    }

    /// Resolves a function name to its entry addresses, in DWARF space,
    /// caching the answer per query string: a query already cached is
    /// answered from the cache, unchanged, so repeated calls for one name
    /// return the same sequence; a fresh query is answered by the debug
    /// info's own matches and cached before it is returned.
    pub fn function_addresses(&mut self, function: &str) -> (r: Result<Vec<u64>, DwarfError>)
        ensures
            final(self).spec_dwarf() == old(self).spec_dwarf(),
            spec_cache_lookup(old(self).spec_cache(), function@) matches Some(v) ==> (r matches Ok(
                rv,
            ) && rv@ == v && *final(self) == *old(self)),
            spec_cache_lookup(old(self).spec_cache(), function@) is None ==> (r matches Ok(rv)
                ==> rv@ == spec_all_matching(
                gimli_api::dw_unit_records(old(self).spec_dwarf()),
                function@,
            )),
            r matches Ok(rv) ==> spec_cache_lookup(final(self).spec_cache(), function@) matches Some(
                v,
            ) && v == rv@,
            r is Err ==> *final(self) == *old(self),
    {
        match self.cache_get(function) {
            Some(v) => {
                return Ok(v);
            },
            None => {},
        }
        let addrs = match function_names_to_addresses(&self.dwarf, function) {
            Ok(a) => a,
            Err(e) => {
                return Err(e);
            },
        };
        let stored = copy_addresses(&addrs);
        let key = function.to_owned();
        proof {
            lemma_cache_lookup_push(self.function_cache@, (key, stored), function@);
        }
        self.function_cache.push((key, stored));
        Ok(addrs)
    }
}

/// Byte order of an executable's data.
#[derive(Debug, Copy, Clone, Eq, PartialEq, Structural)]
pub enum Endianness {
    /// Least-significant byte first.
    Little,
    /// Most-significant byte first.
    Big,
}

impl Endianness {
    /// Whether this host stores the least-significant byte first: x86-64,
    /// the one architecture described here, does.
    pub fn native_is_little_endian() -> (b: bool)
        ensures
            b,
    {
        true
    }

    /// The byte order of this host.
    pub fn native() -> (r: Endianness)
        ensures
            r == Endianness::Little,
    {
        Endianness::Little
    }

    /// Whether this byte order stores the most-significant byte first.
    pub fn is_big_endian(&self) -> (b: bool)
        ensures
            b == (*self == Endianness::Big),
    {
        match self {
            Endianness::Big => true,
            Endianness::Little => false,
        }
    }
}

impl Default for Endianness {
    /// The host's own byte order.
    fn default() -> (r: Endianness)
        ensures
            r == Endianness::Little,
    {
        Endianness::native()
    }
}

} // verus!
