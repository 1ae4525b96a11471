//! Decoding of the auto-analysis state.
use vstd::prelude::*;
use vstd::string::StringExecFns;
use crate::address::open_database;
use crate::types::{AnalysisStatus, Database, Metadata, ToolError};

verus! {

/// The mnemonic of an auto-analysis state id; `AU_UNKNOWN` for any id
/// outside the known set.
pub open spec fn auto_state_mnemonic(state: i32) -> Seq<char> {
    if state == 0 { "AU_NONE"@ }
    else if state == 10 { "AU_UNK"@ }
    else if state == 20 { "AU_CODE"@ }
    else if state == 25 { "AU_WEAK"@ }
    else if state == 30 { "AU_PROC"@ }
    else if state == 35 { "AU_TAIL"@ }
    else if state == 38 { "AU_FCHUNK"@ }
    else if state == 40 { "AU_USED"@ }
    else if state == 45 { "AU_USD2"@ }
    else if state == 50 { "AU_TYPE"@ }
    else if state == 60 { "AU_LIBF"@ }
    else if state == 70 { "AU_LBF2"@ }
    else if state == 80 { "AU_LBF3"@ }
    else if state == 90 { "AU_CHLB"@ }
    else if state == 200 { "AU_FINAL"@ }
    else { "AU_UNKNOWN"@ }
}

/// The status that the metadata `m` describes.
pub open spec fn status_of(s: AnalysisStatus, m: Metadata) -> bool {
    &&& s.auto_enabled == m.auto_enabled
    &&& s.auto_is_ok == m.auto_is_ok
    &&& s.auto_state@ == auto_state_mnemonic(m.auto_state)
    &&& s.auto_state_id == m.auto_state
    &&& s.analysis_running == (m.auto_enabled && !m.auto_is_ok)
}

/// The mnemonic of an auto-analysis state id; total over `i32`.
pub fn auto_state_name(state: i32) -> (r: &'static str)
    ensures
        r@ == auto_state_mnemonic(state),
{
    match state {
        0 => "AU_NONE",
        10 => "AU_UNK",
        20 => "AU_CODE",
        25 => "AU_WEAK",
        30 => "AU_PROC",
        35 => "AU_TAIL",
        38 => "AU_FCHUNK",
        40 => "AU_USED",
        45 => "AU_USD2",
        50 => "AU_TYPE",
        60 => "AU_LIBF",
        70 => "AU_LBF2",
        80 => "AU_LBF3",
        90 => "AU_CHLB",
        200 => "AU_FINAL",
        _ => "AU_UNKNOWN",
    }
}

/// The analysis status read from the database's metadata.
pub fn build_analysis_status(db: &Database) -> (r: AnalysisStatus)
    ensures
        status_of(r, db.meta),
{
    let meta = db.meta;
    let auto_enabled = meta.auto_enabled;
    let auto_is_ok = meta.auto_is_ok;
    let auto_state_id = meta.auto_state;
    AnalysisStatus {
        auto_enabled,
        auto_is_ok,
        auto_state: String::from_str(auto_state_name(auto_state_id)),
        auto_state_id,
        analysis_running: auto_enabled && !auto_is_ok,
    }
}

/// The analysis status of the open database, or `NoDatabaseOpen`.
pub fn handle_analysis_status(idb: &Option<Database>) -> (r: Result<AnalysisStatus, ToolError>)
    ensures
        match r {
            Ok(s) => idb is Some && status_of(s, idb->0.meta),
            Err(e) => idb is None && e == ToolError::NoDatabaseOpen,
        },
        idb is Some <==> r is Ok,
{
    let db = match open_database(idb) {
        Ok(db) => db,
        Err(e) => return Err(e),
    };
    Ok(build_analysis_status(db))
}

} // verus!
