//! Resolution of one address against the segment, function and symbol
//! tables of an open database.
use vstd::prelude::*;
use vstd::string::StringExecFns;
use crate::hex::{hex_address, hex_digits, to_hex, to_hex_address};
use crate::types::{
    AddressInfo, Database, FunctionEntry, FunctionRangeInfo, NameEntry, SegmentEntry, SegmentInfo,
    SymbolInfo, ToolError,
};

verus! {

// ---------------------------------------------------------------- model

pub open spec fn segment_contains(s: SegmentEntry, a: u64) -> bool {
    s.start <= a < s.end
}

pub open spec fn function_contains(f: FunctionEntry, a: u64) -> bool {
    f.start <= a < f.end
}

/// `i` is the first segment of the table that contains `a`.
pub open spec fn is_segment_of(segs: Seq<SegmentEntry>, a: u64, i: int) -> bool {
    &&& 0 <= i < segs.len()
    &&& segment_contains(segs[i], a)
    &&& forall|j: int| 0 <= j < i ==> !segment_contains(#[trigger] segs[j], a)
}

/// `i` is the first function of the table whose range contains `a`.
pub open spec fn is_function_of(funcs: Seq<FunctionEntry>, a: u64, i: int) -> bool {
    &&& 0 <= i < funcs.len()
    &&& function_contains(funcs[i], a)
    &&& forall|j: int| 0 <= j < i ==> !function_contains(#[trigger] funcs[j], a)
}

/// Absolute distance between two addresses.
pub open spec fn distance(a: u64, b: u64) -> nat {
    if a >= b {
        (a - b) as nat
    } else {
        (b - a) as nat
    }
}

/// `i` is the closest name to `a`: no name is nearer, and of equally near
/// names it is the first in table order.
pub open spec fn is_closest_name(names: Seq<NameEntry>, a: u64, i: int) -> bool {
    &&& 0 <= i < names.len()
    &&& forall|j: int|
        0 <= j < names.len() ==> distance(names[i].address, a) <= distance(
            #[trigger] names[j].address,
            a,
        )
    &&& forall|j: int|
        0 <= j < i ==> distance(names[i].address, a) < distance(#[trigger] names[j].address, a)
}

/// `x` saturated into the range of `i64`.
pub open spec fn saturate_i64(x: int) -> int {
    if x < i64::MIN {
        i64::MIN as int
    } else if x > i64::MAX {
        i64::MAX as int
    } else {
        x
    }
}

/// The permission string: `r`, `w`, `x` in that order, `-` for each absent flag.
pub open spec fn permissions_of(r: bool, w: bool, x: bool) -> Seq<char> {
    (if r { "r"@ } else { "-"@ }) + (if w { "w"@ } else { "-"@ }) + (if x { "x"@ } else { "-"@ })
}

/// The name a function is reported under: its own, else `sub_` and its start in hex.
pub open spec fn function_name(f: FunctionEntry) -> Seq<char> {
    match f.name {
        Some(n) => n@,
        None => "sub_"@ + hex_digits(f.start as nat),
    }
}

pub open spec fn describes_segment(info: SegmentInfo, s: SegmentEntry) -> bool {
    &&& info.name@ == match s.name {
        Some(n) => n@,
        None => Seq::<char>::empty(),
    }
    &&& info.start@ == hex_address(s.start as nat)
    &&& info.end@ == hex_address(s.end as nat)
    &&& info.size == s.size
    &&& info.permissions@ == permissions_of(s.readable, s.writable, s.executable)
    &&& info.kind@ == s.kind@
    &&& info.bitness == s.bitness
}

pub open spec fn describes_function(info: FunctionRangeInfo, f: FunctionEntry) -> bool {
    &&& info.address@ == hex_address(f.start as nat)
    &&& info.name@ == function_name(f)
    &&& info.start@ == hex_address(f.start as nat)
    &&& info.end@ == hex_address(f.end as nat)
    &&& info.size == f.size
}

pub open spec fn describes_symbol(info: SymbolInfo, n: NameEntry, a: u64) -> bool {
    &&& info.name@ == n.name@
    &&& info.address@ == hex_address(n.address as nat)
    &&& info.delta == saturate_i64(a - n.address)
    &&& info.exact == (info.delta == 0)
    &&& info.is_public == n.is_public
    &&& info.is_weak == n.is_weak
}

/// What the segment part of a query on `a` must be.
pub open spec fn segment_answer(r: Option<SegmentInfo>, segs: Seq<SegmentEntry>, a: u64) -> bool {
    match r {
        Some(info) => exists|i: int| #[trigger]
            is_segment_of(segs, a, i) && describes_segment(info, segs[i]),
        None => forall|j: int| 0 <= j < segs.len() ==> !segment_contains(#[trigger] segs[j], a),
    }
}

/// What the function part of a query on `a` must be.
pub open spec fn function_answer(
    r: Option<FunctionRangeInfo>,
    funcs: Seq<FunctionEntry>,
    a: u64,
) -> bool {
    match r {
        Some(info) => exists|i: int| #[trigger]
            is_function_of(funcs, a, i) && describes_function(info, funcs[i]),
        None => forall|j: int| 0 <= j < funcs.len() ==> !function_contains(#[trigger] funcs[j], a),
    }
}

/// What the symbol part of a query on `a` must be.
pub open spec fn symbol_answer(r: Option<SymbolInfo>, names: Seq<NameEntry>, a: u64) -> bool {
    match r {
        Some(info) => exists|i: int| #[trigger]
            is_closest_name(names, a, i) && describes_symbol(info, names[i], a),
        None => names.len() == 0,
    }
}

/// The full answer for address `a` against database `db`.
pub open spec fn address_answer(info: AddressInfo, db: Database, a: u64) -> bool {
    &&& info.address@ == hex_address(a as nat)
    &&& segment_answer(info.segment, db.segments@, a)
    &&& function_answer(info.function, db.functions@, a)
    &&& symbol_answer(info.symbol, db.names@, a)
}

// ---------------------------------------------------------------- lookups

/// The open database, or `NoDatabaseOpen` when there is none.
pub fn open_database(idb: &Option<Database>) -> (r: Result<&Database, ToolError>)
    ensures
        match idb {
            Some(db) => r == Ok::<&Database, ToolError>(db),
            None => r == Err::<&Database, ToolError>(ToolError::NoDatabaseOpen),
        },
{
    match idb {
        Some(db) => Ok(db),
        None => Err(ToolError::NoDatabaseOpen),
    }
}

/// Index of the first segment that contains `addr`.
pub fn segment_at(segs: &Vec<SegmentEntry>, addr: u64) -> (r: Option<usize>)
    ensures
        match r {
            Some(i) => is_segment_of(segs@, addr, i as int),
            None => forall|j: int| 0 <= j < segs@.len() ==> !segment_contains(#[trigger] segs@[j], addr),
        },
{
    let mut i: usize = 0;
    while i < segs.len()
        invariant
            i <= segs@.len(),
            forall|j: int| 0 <= j < i ==> !segment_contains(#[trigger] segs@[j], addr),
        decreases segs@.len() - i,
    {
        if segs[i].start <= addr && addr < segs[i].end {
            return Some(i);
        }
        i = i + 1;
    }
    None
}

/// Index of the first function whose range contains `addr`.
pub fn function_at(funcs: &Vec<FunctionEntry>, addr: u64) -> (r: Option<usize>)
    ensures
        match r {
            Some(i) => is_function_of(funcs@, addr, i as int),
            None => forall|j: int| 0 <= j < funcs@.len() ==> !function_contains(#[trigger] funcs@[j], addr),
        },
{
    let mut i: usize = 0;
    while i < funcs.len()
        invariant
            i <= funcs@.len(),
            forall|j: int| 0 <= j < i ==> !function_contains(#[trigger] funcs@[j], addr),
        decreases funcs@.len() - i,
    {
        if funcs[i].start <= addr && addr < funcs[i].end {
            return Some(i);
        }
        i = i + 1;
    }
    None
}

fn distance_exec(a: u64, b: u64) -> (r: u64)
    ensures
        r as nat == distance(a, b),
{
    if a >= b {
        a - b
    } else {
        b - a
    }
}

/// Index of the name closest to `addr`; of equally close names, the first.
/// Absent only for an empty table.
pub fn closest_name(names: &Vec<NameEntry>, addr: u64) -> (r: Option<usize>)
    ensures
        match r {
            Some(i) => is_closest_name(names@, addr, i as int),
            None => names@.len() == 0,
        },
{
    if names.len() == 0 {
        return None;
    }
    let mut best: usize = 0;
    let mut best_dist: u64 = distance_exec(names[0].address, addr);
    let mut i: usize = 1;
    while i < names.len()
        invariant
            1 <= i <= names@.len(),
            best < i,
            best_dist as nat == distance(names@[best as int].address, addr),
            forall|j: int|
                0 <= j < i ==> distance(names@[best as int].address, addr) <= distance(
                    #[trigger] names@[j].address,
                    addr,
                ),
            forall|j: int|
                0 <= j < best ==> distance(names@[best as int].address, addr) < distance(
                    #[trigger] names@[j].address,
                    addr,
                ),
        decreases names@.len() - i,
    {
        let d = distance_exec(names[i].address, addr);
        if d < best_dist {
            best = i;
            best_dist = d;
        }
        i = i + 1;
    }
    Some(best)
}

/// `addr - sym_addr`, worked out without wrapping and saturated into `i64`.
pub fn symbol_delta(addr: u64, sym_addr: u64) -> (r: i64)
    ensures
        r == saturate_i64(addr - sym_addr),
{
    let raw: i128 = if addr >= sym_addr {
        (addr - sym_addr) as i128
    } else {
        -((sym_addr - addr) as i128)
    };
    if raw < i64::MIN as i128 {
        i64::MIN
    } else if raw > i64::MAX as i128 {
        i64::MAX
    } else {
        raw as i64
    }
}

/// The permission string of a segment's three flags.
pub fn permissions_string(r: bool, w: bool, x: bool) -> (s: String)
    ensures
        s@ == permissions_of(r, w, x),
{
    let mut s = String::from_str(if r { "r" } else { "-" });
    s.append(if w { "w" } else { "-" });
    s.append(if x { "x" } else { "-" });
    s
}

// ---------------------------------------------------------------- records

pub fn describe_segment(s: &SegmentEntry) -> (r: SegmentInfo)
    ensures
        describes_segment(r, *s),
{
    let name = match &s.name {
        Some(n) => n.clone(),
        None => String::new(),
    };
    SegmentInfo {
        name,
        start: to_hex_address(s.start),
        end: to_hex_address(s.end),
        size: s.size,
        permissions: permissions_string(s.readable, s.writable, s.executable),
        kind: s.kind.clone(),
        bitness: s.bitness,
    }
}

/// The name a function is reported under.
pub fn function_display_name(f: &FunctionEntry) -> (r: String)
    ensures
        r@ == function_name(*f),
{
    match &f.name {
        Some(n) => n.clone(),
        None => {
            let mut s = String::from_str("sub_");
            let digits = to_hex(f.start);
            s.append(digits.as_str());
            s
        },
    }
}

pub fn describe_function(f: &FunctionEntry) -> (r: FunctionRangeInfo)
    ensures
        describes_function(r, *f),
{
    FunctionRangeInfo {
        address: to_hex_address(f.start),
        name: function_display_name(f),
        start: to_hex_address(f.start),
        end: to_hex_address(f.end),
        size: f.size,
    }
}

pub fn describe_symbol(n: &NameEntry, addr: u64) -> (r: SymbolInfo)
    ensures
        describes_symbol(r, *n, addr),
{
    let delta = symbol_delta(addr, n.address);
    SymbolInfo {
        name: n.name.clone(),
        address: to_hex_address(n.address),
        delta,
        exact: delta == 0,
        is_public: n.is_public,
        is_weak: n.is_weak,
    }
}

/// Resolves `addr` against the open database: its containing segment and
/// function and its closest symbol, each looked up on its own.
pub fn handle_addr_info(idb: &Option<Database>, addr: u64) -> (r: Result<AddressInfo, ToolError>)
    ensures
        match r {
            Ok(info) => idb is Some && address_answer(info, idb->0, addr),
            Err(e) => idb is None && e == ToolError::NoDatabaseOpen,
        },
        idb is Some <==> r is Ok,
{
    let db = match open_database(idb) {
        Ok(db) => db,
        Err(e) => return Err(e),
    };
    let segment = match segment_at(&db.segments, addr) {
        Some(i) => {
            let info = describe_segment(&db.segments[i]);
            assert(is_segment_of(db.segments@, addr, i as int));
            Some(info)
        },
        None => None,
    };
    let function = match function_at(&db.functions, addr) {
        Some(i) => {
            let info = describe_function(&db.functions[i]);
            assert(is_function_of(db.functions@, addr, i as int));
            Some(info)
        },
        None => None,
    };
    let symbol = match closest_name(&db.names, addr) {
        Some(i) => {
            let info = describe_symbol(&db.names[i], addr);
            assert(is_closest_name(db.names@, addr, i as int));
            Some(info)
        },
        None => None,
    };
    Ok(AddressInfo { address: to_hex_address(addr), segment, function, symbol })
}

} // verus!
