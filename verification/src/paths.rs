use vstd::prelude::*;
use vstd::string::StringExecFns;

use crate::Shard;

verus! {

/// Endpoint path of the epoch resource.
pub open spec fn spec_war_endpoint() -> Seq<char> {
    "/worldconquest/war"@
}

/// Endpoint path of the region-name list.
pub open spec fn spec_maps_endpoint() -> Seq<char> {
    "/worldconquest/maps"@
}

/// Endpoint path of a region's static geometry.
pub open spec fn spec_map_static_endpoint(region: Seq<char>) -> Seq<char> {
    "/worldconquest/maps/"@ + region + "/static"@
}

/// Endpoint path of a region's dynamic public item list.
pub open spec fn spec_map_dynamic_endpoint(region: Seq<char>) -> Seq<char> {
    "/worldconquest/maps/"@ + region + "/dynamic/public"@
}

/// Cache file path of a resource, relative to the working directory: the
/// fixed cache root, the run's namespace, then the resource's relative path.
pub open spec fn spec_cache_path(namespace: Seq<char>, rel: Seq<char>) -> Seq<char> {
    "cache/warapi/"@ + namespace + "/"@ + rel
}

/// Relative cache path of the epoch record.
pub open spec fn spec_war_cache_rel() -> Seq<char> {
    "war.json"@
}

/// Relative cache path of the region-name list.
pub open spec fn spec_maps_cache_rel() -> Seq<char> {
    "maps.json"@
}

/// Relative cache path of a region's static geometry.
pub open spec fn spec_map_static_cache_rel(region: Seq<char>) -> Seq<char> {
    "maps/"@ + region + "-static.json"@
}

/// Relative cache path of a region's dynamic item list.
pub open spec fn spec_map_dynamic_cache_rel(region: Seq<char>) -> Seq<char> {
    "maps/"@ + region + "-dynamic.json"@
}

/// Endpoint path of the epoch resource.
pub fn war_endpoint() -> (r: &'static str)
    ensures
        r@ == spec_war_endpoint(),
{
    "/worldconquest/war"
}

/// Endpoint path of the region-name list.
pub fn maps_endpoint() -> (r: &'static str)
    ensures
        r@ == spec_maps_endpoint(),
{
    "/worldconquest/maps"
}

/// Relative cache path of the epoch record.
pub fn war_cache_rel() -> (r: &'static str)
    ensures
        r@ == spec_war_cache_rel(),
{
    "war.json"
}

/// Relative cache path of the region-name list.
pub fn maps_cache_rel() -> (r: &'static str)
    ensures
        r@ == spec_maps_cache_rel(),
{
    "maps.json"
}

/// Full request URL: the shard's API root followed by the endpoint path.
pub fn request_url(shard: &Shard, endpoint: &str) -> (r: String)
    ensures
        r@ == shard.spec_root_endpoint() + endpoint@,
{
    let mut s = String::from_str(shard.root_endpoint());
    s.append(endpoint);
    s
}

/// Cache file path for one `(namespace, relative path)` key.
pub fn cache_path(namespace: &str, rel: &str) -> (r: String)
    ensures
        r@ == spec_cache_path(namespace@, rel@),
{
    let mut s = String::from_str("cache/warapi/");
    s.append(namespace);
    s.append("/");
    s.append(rel);
    proof {
        assert(s@ =~= spec_cache_path(namespace@, rel@));
    }
    s
}

/// Endpoint path of a region's static geometry.
pub fn map_static_endpoint(region: &str) -> (r: String)
    ensures
        r@ == spec_map_static_endpoint(region@),
{
    let mut s = String::from_str("/worldconquest/maps/");
    s.append(region);
    s.append("/static");
    s
}

/// Endpoint path of a region's dynamic public item list.
pub fn map_dynamic_endpoint(region: &str) -> (r: String)
    ensures
        r@ == spec_map_dynamic_endpoint(region@),
{
    let mut s = String::from_str("/worldconquest/maps/");
    s.append(region);
    s.append("/dynamic/public");
    s
}

/// Relative cache path of a region's static geometry.
pub fn map_static_cache_rel(region: &str) -> (r: String)
    ensures
        r@ == spec_map_static_cache_rel(region@),
{
    let mut s = String::from_str("maps/");
    s.append(region);
    s.append("-static.json");
    s
}

/// Relative cache path of a region's dynamic item list.
pub fn map_dynamic_cache_rel(region: &str) -> (r: String)
    ensures
        r@ == spec_map_dynamic_cache_rel(region@),
{
    let mut s = String::from_str("maps/");
    s.append(region);
    s.append("-dynamic.json");
    s
}

} // verus!
