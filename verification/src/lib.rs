//! Hex-grid map compositor for a game world's public read API: epoch
//! resolution with a content-addressed cache namespace, region assembly,
//! a deduplicating icon atlas with faction tinting, closed-form placement
//! of region scenes on a global hex lattice, and serialization into one
//! self-contained vector document.

pub mod assemble;
pub mod atlas;
pub mod compose;
pub mod epoch;
pub mod filters;
pub mod hexgrid;
pub mod icons;
pub mod paths;
pub mod schema;
pub mod strutil;
pub mod svgdoc;

use vstd::prelude::*;

verus! {

/// One independently operated game-world server cluster.
pub enum Shard {
    Able,
}

impl Shard {
    /// Short shard name, as a sequence of characters.
    pub open spec fn spec_name(&self) -> Seq<char> {
        "able"@
    }

    /// Root URL of the shard's public read API.
    pub open spec fn spec_root_endpoint(&self) -> Seq<char> {
        "https://war-service-live.foxholeservices.com/api"@
    }

    /// Root URL of the shard's public read API.
    pub fn root_endpoint(&self) -> (r: &'static str)
        ensures
            r@ == self.spec_root_endpoint(),
    {
        match self {
            Shard::Able => "https://war-service-live.foxholeservices.com/api",
        }
    }

    /// Short shard name used as the leading part of every cache namespace.
    pub fn name(&self) -> (r: &'static str)
        ensures
            r@ == self.spec_name(),
    {
        match self {
            Shard::Able => "able",
        }
    }
}

} // verus!
