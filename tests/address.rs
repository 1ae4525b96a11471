use ida_addr::address::{
    closest_name, function_at, handle_addr_info, permissions_string, segment_at, symbol_delta,
};
use ida_addr::hex::{to_hex, to_hex_address};
use ida_addr::types::{
    Database, FunctionEntry, Metadata, NameEntry, SegmentEntry, ToolError,
};

fn seg(name: &str, start: u64, end: u64, r: bool, w: bool, x: bool) -> SegmentEntry {
    SegmentEntry {
        name: Some(name.to_string()),
        start,
        end,
        size: end - start,
        readable: r,
        writable: w,
        executable: x,
        kind: "Normal".to_string(),
        bitness: 64,
    }
}

fn func(start: u64, end: u64, name: Option<&str>) -> FunctionEntry {
    FunctionEntry { start, end, size: end - start, name: name.map(|n| n.to_string()) }
}

fn sym(name: &str, address: u64) -> NameEntry {
    NameEntry { name: name.to_string(), address, is_public: true, is_weak: false }
}

fn meta() -> Metadata {
    Metadata { auto_enabled: true, auto_is_ok: true, auto_state: 0 }
}

fn sample_db() -> Database {
    Database {
        segments: vec![
            seg(".text", 0x401000, 0x402000, true, false, true),
            seg(".data", 0x403000, 0x404000, true, true, false),
        ],
        functions: vec![func(0x401000, 0x401050, Some("main")), func(0x401050, 0x4010a0, None)],
        names: vec![sym("main", 0x401000), sym("data_start", 0x4ffff0)],
        meta: meta(),
    }
}

#[test]
fn text_segment_and_main() {
    let db = Some(sample_db());
    let info = handle_addr_info(&db, 0x401000).unwrap();
    assert_eq!(info.address, "0x401000");
    let s = info.segment.unwrap();
    assert_eq!(s.permissions, "r-x");
    assert_eq!(s.name, ".text");
    assert_eq!(s.start, "0x401000");
    assert_eq!(s.end, "0x402000");
    assert_eq!(s.size, 0x1000);
    assert_eq!(s.bitness, 64);
    assert_eq!(s.kind, "Normal");
    let f = info.function.unwrap();
    assert_eq!(f.name, "main");
    assert_eq!(f.start, "0x401000");
    assert_eq!(f.address, "0x401000");
    assert_eq!(f.end, "0x401050");
    assert_eq!(f.size, 0x50);
    let y = info.symbol.unwrap();
    assert_eq!(y.name, "main");
    assert_eq!(y.delta, 0);
    assert!(y.exact);
}

#[test]
fn unmapped_address_near_data_start() {
    let db = Some(sample_db());
    let info = handle_addr_info(&db, 0x500000).unwrap();
    assert!(info.segment.is_none());
    assert!(info.function.is_none());
    let y = info.symbol.unwrap();
    assert_eq!(y.name, "data_start");
    assert_eq!(y.address, "0x4ffff0");
    assert_eq!(y.delta, 16);
    assert!(!y.exact);
}

#[test]
fn unnamed_function_gets_sub_name() {
    let db = Some(sample_db());
    let info = handle_addr_info(&db, 0x401060).unwrap();
    let f = info.function.unwrap();
    assert_eq!(f.name, "sub_401050");
    assert_eq!(f.start, "0x401050");
    let y = info.symbol.unwrap();
    assert_eq!(y.name, "main");
    assert_eq!(y.delta, 0x60);
}

#[test]
fn segment_end_is_exclusive() {
    let db = Some(sample_db());
    let info = handle_addr_info(&db, 0x402000).unwrap();
    assert!(info.segment.is_none());
    let info = handle_addr_info(&db, 0x401fff).unwrap();
    assert_eq!(info.segment.unwrap().start, "0x401000");
}

#[test]
fn symbol_above_address_gives_negative_delta() {
    let db = Some(sample_db());
    let info = handle_addr_info(&db, 0x4fff00).unwrap();
    let y = info.symbol.unwrap();
    assert_eq!(y.name, "data_start");
    assert_eq!(y.delta, -0xf0);
    assert!(!y.exact);
}

#[test]
fn empty_tables_give_absent_parts() {
    let db = Some(Database { segments: vec![], functions: vec![], names: vec![], meta: meta() });
    let info = handle_addr_info(&db, 0).unwrap();
    assert_eq!(info.address, "0x0");
    assert!(info.segment.is_none());
    assert!(info.function.is_none());
    assert!(info.symbol.is_none());
}

#[test]
fn no_database_open_for_address() {
    let r = handle_addr_info(&None, 0x401000);
    assert!(matches!(r, Err(ToolError::NoDatabaseOpen)));
}

#[test]
fn delta_saturates_at_extremes() {
    assert_eq!(symbol_delta(0, u64::MAX), i64::MIN);
    assert_eq!(symbol_delta(u64::MAX, 0), i64::MAX);
    assert_eq!(symbol_delta(u64::MAX, u64::MAX), 0);
    assert_eq!(symbol_delta(1u64 << 63, 0), i64::MAX);
    assert_eq!(symbol_delta(0, 1u64 << 63), i64::MIN);
    assert_eq!(symbol_delta(0, (1u64 << 63) - 1), -i64::MAX);
    assert_eq!(symbol_delta(5, 7), -2);
}

#[test]
fn extreme_addresses_resolve() {
    let db = Some(Database {
        segments: vec![],
        functions: vec![],
        names: vec![sym("low", 0)],
        meta: meta(),
    });
    let info = handle_addr_info(&db, u64::MAX).unwrap();
    assert_eq!(info.address, "0xffffffffffffffff");
    let y = info.symbol.unwrap();
    assert_eq!(y.delta, i64::MAX);
    assert!(!y.exact);
    assert_eq!(y.address, "0x0");
}

#[test]
fn closest_prefers_first_of_equal_distance() {
    let names = vec![sym("a", 10), sym("b", 30), sym("c", 10)];
    assert_eq!(closest_name(&names, 20), Some(0));
    assert_eq!(closest_name(&names, 29), Some(1));
    assert_eq!(closest_name(&vec![], 29), None);
}

#[test]
fn lookups_pick_containing_entry() {
    let db = sample_db();
    assert_eq!(segment_at(&db.segments, 0x403010), Some(1));
    assert_eq!(segment_at(&db.segments, 0x402800), None);
    assert_eq!(function_at(&db.functions, 0x401050), Some(1));
    assert_eq!(function_at(&db.functions, 0x4010a0), None);
}

#[test]
fn permission_strings() {
    assert_eq!(permissions_string(true, true, true), "rwx");
    assert_eq!(permissions_string(true, false, true), "r-x");
    assert_eq!(permissions_string(false, true, false), "-w-");
    assert_eq!(permissions_string(false, false, false), "---");
}

#[test]
fn hex_rendering() {
    assert_eq!(to_hex(0), "0");
    assert_eq!(to_hex(0xabcdef), "abcdef");
    assert_eq!(to_hex(16), "10");
    assert_eq!(to_hex_address(0x401000), "0x401000");
    assert_eq!(to_hex_address(u64::MAX), "0xffffffffffffffff");
}

#[test]
fn missing_segment_name_is_empty() {
    let mut s = seg("x", 0x1000, 0x2000, false, true, false);
    s.name = None;
    let db = Some(Database { segments: vec![s], functions: vec![], names: vec![], meta: meta() });
    let info = handle_addr_info(&db, 0x1800).unwrap();
    let s = info.segment.unwrap();
    assert_eq!(s.name, "");
    assert_eq!(s.permissions, "-w-");
}
