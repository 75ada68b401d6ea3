use vstd::prelude::*;

use crate::schema::RegionMap;

verus! {

/// Failure of region assembly: the static payload is required to carry no
/// placed items; static and dynamic payloads are disjoint by contract.
#[derive(Debug)]
pub enum AssembleError {
    NonEmptyStaticItems { region_id: i32 },
}

/// Merges a region's immutable static geometry with its dynamic item list.
///
/// The result keeps every field of the static payload and takes the dynamic
/// payload's item list verbatim — no transformation, filtering or
/// concatenation. A static payload with a non-empty item list is a fatal
/// schema-assumption error, never merged.
pub fn combine_maps(map_static: RegionMap, map_dynamic: RegionMap) -> (r: Result<
    RegionMap,
    AssembleError,
>)
    ensures
        map_static.map_items@.len() == 0 ==> (r matches Ok(m) && m.region_id
            == map_static.region_id && m.map_items@ == map_dynamic.map_items@
            && m.map_text_items@ == map_static.map_text_items@),
        map_static.map_items@.len() != 0 ==> (r matches Err(e) && (e matches
            AssembleError::NonEmptyStaticItems { region_id } && region_id
            == map_static.region_id)),
{
    if map_static.map_items.len() != 0 {
        return Err(AssembleError::NonEmptyStaticItems { region_id: map_static.region_id });
    }
    let mut out = map_static;
    out.map_items = map_dynamic.map_items;
    Ok(out)
}

} // verus!
