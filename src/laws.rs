//! Properties of address resolution that follow from the contracts of
//! `handle_addr_info`, stated and proved once.
use vstd::prelude::*;
use crate::address::{
    address_answer, describes_function, describes_segment, describes_symbol, function_contains, is_closest_name,
    is_function_of, is_segment_of, saturate_i64, segment_contains, distance,
};
use crate::hex::{hex_address, hex_digits};
use crate::types::{AddressInfo, Database, NameEntry, SymbolInfo};

verus! {

/// An address that lies inside some segment of the table is reported with
/// a segment, and the reported segment's bounds enclose the address.
pub proof fn lemma_known_segment_reported(db: Database, a: u64, info: AddressInfo, k: int)
    requires
        address_answer(info, db, a),
        0 <= k < db.segments@.len(),
        segment_contains(db.segments@[k], a),
    ensures
        info.segment is Some,
        exists|s: u64, e: u64|
            s <= a < e && (#[trigger] info.segment->0.start@) == hex_address(s as nat) && (
            #[trigger] info.segment->0.end@) == hex_address(e as nat),
{
    match info.segment {
        Some(seg) => {
            let i = choose|i: int| #[trigger]
                is_segment_of(db.segments@, a, i) && describes_segment(
                    seg,
                    db.segments@[i],
                );
            let s = db.segments@[i];
            assert(s.start <= a < s.end && seg.start@ == hex_address(s.start as nat)
                && seg.end@ == hex_address(s.end as nat));
        },
        None => {
            assert(!segment_contains(db.segments@[k], a));
        },
    }
}

/// An address that no segment of the table contains is reported without a
/// segment.
pub proof fn lemma_unmapped_address_has_no_segment(db: Database, a: u64, info: AddressInfo)
    requires
        address_answer(info, db, a),
        forall|j: int| 0 <= j < db.segments@.len() ==> !segment_contains(#[trigger] db.segments@[j], a),
    ensures
        info.segment is None,
{
    if info.segment is Some {
        let i = choose|i: int| #[trigger]
            is_segment_of(db.segments@, a, i) && describes_segment(
                info.segment->0,
                db.segments@[i],
            );
        assert(segment_contains(db.segments@[i], a));
    }
}

/// An address inside some function's range is reported with a function
/// whose bounds enclose it; when that function has no assigned name it is
/// reported as `sub_` followed by its start in lowercase hex.
pub proof fn lemma_function_reported(db: Database, a: u64, info: AddressInfo, k: int)
    requires
        address_answer(info, db, a),
        0 <= k < db.functions@.len(),
        function_contains(db.functions@[k], a),
    ensures
        info.function is Some,
        exists|i: int|
            #[trigger] is_function_of(db.functions@, a, i) && {
                let f = db.functions@[i];
                let r = info.function->0;
                &&& f.start <= a < f.end
                &&& r.start@ == hex_address(f.start as nat)
                &&& r.end@ == hex_address(f.end as nat)
                &&& f.name is None ==> r.name@ == "sub_"@ + hex_digits(f.start as nat)
            },
{
    match info.function {
        Some(r) => {
            let i = choose|i: int| #[trigger]
                is_function_of(db.functions@, a, i) && describes_function(r, db.functions@[i]);
            assert(is_function_of(db.functions@, a, i));
        },
        None => {
            assert(!function_contains(db.functions@[k], a));
        },
    }
}

/// A non-empty symbol table always yields a symbol; the closest name is
/// unique, and the reported symbol is exact exactly when its delta is zero,
/// which is exactly when its address is the queried one.
pub proof fn lemma_closest_symbol_exact(db: Database, a: u64, info: AddressInfo)
    requires
        address_answer(info, db, a),
        db.names@.len() > 0,
    ensures
        info.symbol is Some,
        forall|i: int, j: int|
            is_closest_name(db.names@, a, i) && is_closest_name(db.names@, a, j) ==> i == j,
        exists|i: int|
            #[trigger] is_closest_name(db.names@, a, i) && {
                let s = info.symbol->0;
                &&& describes_symbol(s, db.names@[i], a)
                &&& s.exact <==> s.delta == 0
                &&& s.delta == 0 <==> db.names@[i].address == a
            },
{
    assert forall|i: int, j: int|
        is_closest_name(db.names@, a, i) && is_closest_name(db.names@, a, j) implies i == j by {
        if i < j {
            assert(distance(db.names@[j].address, a) < distance(db.names@[i].address, a));
        } else if j < i {
            assert(distance(db.names@[i].address, a) < distance(db.names@[j].address, a));
        }
    }
    let s = info.symbol->0;
    let i = choose|i: int| #[trigger]
        is_closest_name(db.names@, a, i) && describes_symbol(s, db.names@[i], a);
    assert(is_closest_name(db.names@, a, i));
}

/// The delta of a reported symbol has the sign of the query address minus
/// the symbol address, is zero only when they coincide, and always fits in
/// an `i64`, however far apart the two addresses are.
pub proof fn lemma_delta_sign(s: SymbolInfo, n: NameEntry, a: u64)
    requires
        describes_symbol(s, n, a),
    ensures
        n.address <= a ==> s.delta >= 0,
        n.address > a ==> s.delta <= 0,
        s.exact <==> n.address == a,
        i64::MIN <= s.delta <= i64::MAX,
        s.delta == saturate_i64(a - n.address),
{
}

} // verus!
