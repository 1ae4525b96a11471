//! The session's tables as plain values, and the records handed back.
use vstd::prelude::*;

verus! {

/// A memory segment as the analysis database records it.
pub struct SegmentEntry {
    /// The segment's name, where it has one.
    pub name: Option<String>,
    pub start: u64,
    pub end: u64,
    /// The length the database reports; not recomputed from the bounds.
    pub size: u64,
    pub readable: bool,
    pub writable: bool,
    pub executable: bool,
    /// The database's label for the segment's classification.
    pub kind: String,
    /// Addressing width: 16, 32 or 64.
    pub bitness: u32,
}

/// A function's range as the analysis database records it.
pub struct FunctionEntry {
    pub start: u64,
    pub end: u64,
    /// The length the database reports; for a chunked function it may
    /// differ from `end - start`.
    pub size: u64,
    /// The assigned name, absent when the function is unnamed.
    pub name: Option<String>,
}

/// A named address of the symbol table.
pub struct NameEntry {
    pub name: String,
    pub address: u64,
    pub is_public: bool,
    pub is_weak: bool,
}

/// The three auto-analysis signals of the database's metadata.
#[derive(Clone, Copy, Debug, PartialEq, Eq, Structural)]
pub struct Metadata {
    pub auto_enabled: bool,
    pub auto_is_ok: bool,
    pub auto_state: i32,
}

/// A read-only view of an opened, analysed binary database.
pub struct Database {
    /// Memory regions; in a well-formed database they do not overlap, and a
    /// lookup takes the first that contains the address.
    pub segments: Vec<SegmentEntry>,
    pub functions: Vec<FunctionEntry>,
    pub names: Vec<NameEntry>,
    pub meta: Metadata,
}

/// The one failure this layer produces.
#[derive(Clone, Copy, Debug, PartialEq, Eq, Structural)]
pub enum ToolError {
    NoDatabaseOpen,
}

/// The segment that contains a queried address.
#[derive(Clone, Debug)]
pub struct SegmentInfo {
    pub name: String,
    pub start: String,
    pub end: String,
    pub size: u64,
    /// Three characters, `r`, `w`, `x` in that order, each or `-`.
    pub permissions: String,
    pub kind: String,
    pub bitness: u32,
}

/// The function whose range contains a queried address.
#[derive(Clone, Debug)]
pub struct FunctionRangeInfo {
    pub address: String,
    pub name: String,
    pub start: String,
    pub end: String,
    pub size: u64,
}

/// The symbol closest to a queried address.
#[derive(Clone, Debug)]
pub struct SymbolInfo {
    pub name: String,
    pub address: String,
    /// Query address minus symbol address, saturated to the `i64` range.
    pub delta: i64,
    pub exact: bool,
    pub is_public: bool,
    pub is_weak: bool,
}

/// Everything known about one address; each part is present or absent on
/// its own.
#[derive(Clone, Debug)]
pub struct AddressInfo {
    pub address: String,
    pub segment: Option<SegmentInfo>,
    pub function: Option<FunctionRangeInfo>,
    pub symbol: Option<SymbolInfo>,
}

/// The state of the automated analysis.
#[derive(Clone, Debug)]
pub struct AnalysisStatus {
    pub auto_enabled: bool,
    pub auto_is_ok: bool,
    pub auto_state: String,
    pub auto_state_id: i32,
    pub analysis_running: bool,
}

} // verus!
