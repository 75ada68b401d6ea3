use vstd::prelude::*;

verus! {

/// Number of position units per normalized unit: positions inside a region are
/// given in millionths of the region's extent, so a coordinate lies in
/// `0 ..= MICRO`.
pub const MICRO: u32 = 1000000;

/// Current epoch ("war") of a shard as the server reports it: an opaque
/// identity, a sequence number, and the start of the resistance window when
/// one is open. Timestamps are milliseconds since the Unix epoch.
pub struct War {
    pub war_id: String,
    pub war_number: i32,
    pub resistance_start_time: Option<i64>,
}

/// The closed three-way faction choice of the game.
#[derive(PartialEq, Eq, Structural, Clone, Copy, Debug)]
pub enum TeamId {
    Nobody,
    Wardens,
    Colonials,
}

/// One placed item of a region: its owning faction, its icon-type code, and
/// its position in millionths of the region's width and height.
#[derive(PartialEq, Eq, Structural, Clone, Copy, Debug)]
pub struct MapItem {
    pub team_id: TeamId,
    pub icon_type: i32,
    pub x: u32,
    pub y: u32,
}

impl MapItem {
    /// A position is normalized: both coordinates lie within one region.
    pub open spec fn valid(&self) -> bool {
        self.x <= MICRO && self.y <= MICRO
    }
}

/// A text label of a region's payload; carried through, never composed.
pub struct MapTextItem {
    pub text: String,
    pub x: u32,
    pub y: u32,
    pub map_marker_type: String,
}

/// One region payload: either the static geometry, the dynamic item list, or
/// the merge of the two.
pub struct RegionMap {
    pub region_id: i32,
    pub map_items: Vec<MapItem>,
    pub map_text_items: Vec<MapTextItem>,
}

impl RegionMap {
    /// Every placed item of the payload is normalized.
    pub open spec fn valid(&self) -> bool {
        forall|i: int| 0 <= i < self.map_items@.len() ==> (#[trigger] self.map_items@[i]).valid()
    }
}

} // verus!
