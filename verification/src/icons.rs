use vstd::prelude::*;
use vstd::string::StringExecFns;

use crate::schema::{MapItem, TeamId};

verus! {

/// Canonical asset name of an icon-type code, or `None` for a code the
/// renderer was never taught. The set of codes is closed on purpose: new game
/// content must be added here explicitly rather than rendered wrongly.
pub open spec fn spec_icon_file_name(icon_type: i32) -> Option<Seq<char>> {
    match icon_type {
        8 => Some("Forward Base 1"@),
        11 => Some("Medical"@),
        12 => Some("Vehicle"@),
        17 => Some("Manufacturing"@),
        18 => Some("Shipyard"@),
        19 => Some("TechCenter"@),
        20 => Some("Salvage"@),
        21 => Some("Components"@),
        22 => Some("FuelField"@),
        23 => Some("Sulfur"@),
        24 => Some("WorldMapTent"@),
        25 => Some("TravelTent"@),
        26 => Some("TrainingArea"@),
        27 => Some("Keep"@),
        28 => Some("ObservationTower"@),
        29 => Some("Fort"@),
        30 => Some("Troop Ship"@),
        32 => Some("SulfurMine"@),
        33 => Some("StorageFacility"@),
        34 => Some("Factory"@),
        35 => Some("Safehouse"@),
        37 => Some("RocketSite"@),
        38 => Some("SalvageMine"@),
        39 => Some("ConstructionYard"@),
        40 => Some("ComponentMine"@),
        45 => Some("RelicBase"@),
        51 => Some("MassProductionFactory"@),
        52 => Some("Seaport"@),
        53 => Some("CoastalGun"@),
        54 => Some("SoulFactory"@),
        56 => Some("TownBaseTier1"@),
        57 => Some("TownBaseTier2"@),
        58 => Some("TownBaseTier3"@),
        59 => Some("StormCannon"@),
        60 => Some("IntelCenter"@),
        61 => Some("Coal"@),
        62 => Some("OilWell"@),
        70 => Some("RocketTarget"@),
        71 => Some("RocketGround Zero"@),
        72 => Some("RocketSite With Rocket"@),
        75 => Some("FacilityMineOilRig"@),
        83 => Some("WeatherStation"@),
        84 => Some("MortarHouse"@),
        _ => None,
    }
}

/// An icon-type code the renderer knows.
pub open spec fn spec_is_known_icon(icon_type: i32) -> bool {
    spec_icon_file_name(icon_type) is Some
}

/// Canonical asset name of an icon-type code, `None` for an unknown code.
pub fn try_icon_file_name(icon_type: i32) -> (r: Option<&'static str>)
    ensures
        match r {
            Some(name) => spec_icon_file_name(icon_type) == Some(name@),
            None => spec_icon_file_name(icon_type) is None,
        },
{
    match icon_type {
        8 => Some("Forward Base 1"),
        11 => Some("Medical"),
        12 => Some("Vehicle"),
        17 => Some("Manufacturing"),
        18 => Some("Shipyard"),
        19 => Some("TechCenter"),
        20 => Some("Salvage"),
        21 => Some("Components"),
        22 => Some("FuelField"),
        23 => Some("Sulfur"),
        24 => Some("WorldMapTent"),
        25 => Some("TravelTent"),
        26 => Some("TrainingArea"),
        27 => Some("Keep"),
        28 => Some("ObservationTower"),
        29 => Some("Fort"),
        30 => Some("Troop Ship"),
        32 => Some("SulfurMine"),
        33 => Some("StorageFacility"),
        34 => Some("Factory"),
        35 => Some("Safehouse"),
        37 => Some("RocketSite"),
        38 => Some("SalvageMine"),
        39 => Some("ConstructionYard"),
        40 => Some("ComponentMine"),
        45 => Some("RelicBase"),
        51 => Some("MassProductionFactory"),
        52 => Some("Seaport"),
        53 => Some("CoastalGun"),
        54 => Some("SoulFactory"),
        56 => Some("TownBaseTier1"),
        57 => Some("TownBaseTier2"),
        58 => Some("TownBaseTier3"),
        59 => Some("StormCannon"),
        60 => Some("IntelCenter"),
        61 => Some("Coal"),
        62 => Some("OilWell"),
        70 => Some("RocketTarget"),
        71 => Some("RocketGround Zero"),
        72 => Some("RocketSite With Rocket"),
        75 => Some("FacilityMineOilRig"),
        83 => Some("WeatherStation"),
        84 => Some("MortarHouse"),
        _ => None,
    }
}

/// Canonical asset name of a known icon-type code.
pub fn get_icon_file_name(icon_type: i32) -> (r: &'static str)
    requires
        spec_is_known_icon(icon_type),
    ensures
        Some(r@) == spec_icon_file_name(icon_type),
{
    match try_icon_file_name(icon_type) {
        Some(name) => name,
        None => vstd::pervasive::unreached(),
    }
}

/// Two-letter id suffix of a faction.
pub open spec fn spec_faction_suffix(team: TeamId) -> Seq<char> {
    match team {
        TeamId::Colonials => "cl"@,
        TeamId::Wardens => "wd"@,
        TeamId::Nobody => "nt"@,
    }
}

/// Two-letter id suffix of a faction.
pub fn faction_suffix(team: TeamId) -> (r: &'static str)
    ensures
        r@ == spec_faction_suffix(team),
{
    match team {
        TeamId::Colonials => "cl",
        TeamId::Wardens => "wd",
        TeamId::Nobody => "nt",
    }
}

/// Stable id of the faction-tinted variant of a known icon-type.
pub open spec fn spec_variant_id(icon_type: i32, team: TeamId) -> Seq<char> {
    "icon-"@ + spec_icon_file_name(icon_type)->Some_0 + "-"@ + spec_faction_suffix(team)
}

/// Stable id of the shared base pixel asset of a known icon-type.
pub open spec fn spec_base_id(icon_type: i32) -> Seq<char> {
    "icon-"@ + spec_icon_file_name(icon_type)->Some_0 + "-base"@
}

/// Stable id of the faction-tinted variant of a known icon-type.
pub fn icon_variant_id(icon_type: i32, team: TeamId) -> (r: String)
    requires
        spec_is_known_icon(icon_type),
    ensures
        r@ == spec_variant_id(icon_type, team),
{
    let mut s = String::from_str("icon-");
    s.append(get_icon_file_name(icon_type));
    s.append("-");
    s.append(faction_suffix(team));
    proof {
        assert(s@ =~= spec_variant_id(icon_type, team));
    }
    s
}

/// Stable id of the shared base pixel asset of a known icon-type.
pub fn icon_base_id(icon_type: i32) -> (r: String)
    requires
        spec_is_known_icon(icon_type),
    ensures
        r@ == spec_base_id(icon_type),
{
    let mut s = String::from_str("icon-");
    s.append(get_icon_file_name(icon_type));
    s.append("-base");
    proof {
        assert(s@ =~= spec_base_id(icon_type));
    }
    s
}

/// Stable variant id of a placed item's icon.
pub fn make_map_icon_id(map_item: &MapItem) -> (r: String)
    requires
        spec_is_known_icon(map_item.icon_type),
    ensures
        r@ == spec_variant_id(map_item.icon_type, map_item.team_id),
{
    icon_variant_id(map_item.icon_type, map_item.team_id)
}

/// Stable base asset id of a placed item's icon.
pub fn make_map_icon_base_id(map_item: &MapItem) -> (r: String)
    requires
        spec_is_known_icon(map_item.icon_type),
    ensures
        r@ == spec_base_id(map_item.icon_type),
{
    icon_base_id(map_item.icon_type)
}

/// The reusable colorization filters: one per faction tint and one per
/// resource-readability tint.
#[derive(PartialEq, Eq, Structural, Clone, Copy, Debug)]
pub enum TintFilter {
    Collie,
    Warden,
    Salvage,
    Sulfur,
    Coal,
    Oil,
    Components,
}

/// Document id of a colorization filter.
pub open spec fn spec_filter_id(f: TintFilter) -> Seq<char> {
    match f {
        TintFilter::Collie => "colorCollie"@,
        TintFilter::Warden => "colorWarden"@,
        TintFilter::Salvage => "colorSalvage"@,
        TintFilter::Sulfur => "colorSulfur"@,
        TintFilter::Coal => "colorCoal"@,
        TintFilter::Oil => "colorOil"@,
        TintFilter::Components => "colorComponents"@,
    }
}

/// Document id of a colorization filter.
pub fn filter_id(f: TintFilter) -> (r: &'static str)
    ensures
        r@ == spec_filter_id(f),
{
    match f {
        TintFilter::Collie => "colorCollie",
        TintFilter::Warden => "colorWarden",
        TintFilter::Salvage => "colorSalvage",
        TintFilter::Sulfur => "colorSulfur",
        TintFilter::Coal => "colorCoal",
        TintFilter::Oil => "colorOil",
        TintFilter::Components => "colorComponents",
    }
}

/// Tint color of a filter, as 8-bit RGB.
pub open spec fn spec_filter_rgb(f: TintFilter) -> (int, int, int) {
    match f {
        TintFilter::Collie => (101, 135, 94),
        TintFilter::Warden => (72, 125, 169),
        TintFilter::Salvage => (154, 122, 85),
        TintFilter::Sulfur => (199, 199, 87),
        TintFilter::Coal => (75, 75, 75),
        TintFilter::Oil => (205, 107, 35),
        TintFilter::Components => (200, 200, 200),
    }
}

/// Tint color of a filter, as 8-bit RGB.
pub fn filter_rgb(f: TintFilter) -> (r: (u8, u8, u8))
    ensures
        (r.0 as int, r.1 as int, r.2 as int) == spec_filter_rgb(f),
{
    match f {
        TintFilter::Collie => (101, 135, 94),
        TintFilter::Warden => (72, 125, 169),
        TintFilter::Salvage => (154, 122, 85),
        TintFilter::Sulfur => (199, 199, 87),
        TintFilter::Coal => (75, 75, 75),
        TintFilter::Oil => (205, 107, 35),
        TintFilter::Components => (200, 200, 200),
    }
}

/// The designated resource icon-types and their readability tints. Every
/// other faction-less icon stays untinted.
pub open spec fn spec_resource_filter(icon_type: i32) -> Option<TintFilter> {
    if icon_type == 20 || icon_type == 38 {
        Some(TintFilter::Salvage)
    } else if icon_type == 23 || icon_type == 32 {
        Some(TintFilter::Sulfur)
    } else if icon_type == 61 {
        Some(TintFilter::Coal)
    } else if icon_type == 62 {
        Some(TintFilter::Oil)
    } else if icon_type == 21 || icon_type == 40 {
        Some(TintFilter::Components)
    } else {
        None
    }
}

/// Colorization filter of one icon variant: the faction tint for an owned
/// variant, the resource-readability tint for a neutral resource icon, and
/// none otherwise.
pub open spec fn spec_filter_for(icon_type: i32, team: TeamId) -> Option<TintFilter> {
    match team {
        TeamId::Colonials => Some(TintFilter::Collie),
        TeamId::Wardens => Some(TintFilter::Warden),
        TeamId::Nobody => spec_resource_filter(icon_type),
    }
}

/// Colorization filter of one icon variant.
pub fn filter_for(icon_type: i32, team: TeamId) -> (r: Option<TintFilter>)
    ensures
        r == spec_filter_for(icon_type, team),
{
    match team {
        TeamId::Colonials => Some(TintFilter::Collie),
        TeamId::Wardens => Some(TintFilter::Warden),
        TeamId::Nobody => {
            if icon_type == 20 || icon_type == 38 {
                Some(TintFilter::Salvage)
            } else if icon_type == 23 || icon_type == 32 {
                Some(TintFilter::Sulfur)
            } else if icon_type == 61 {
                Some(TintFilter::Coal)
            } else if icon_type == 62 {
                Some(TintFilter::Oil)
            } else if icon_type == 21 || icon_type == 40 {
                Some(TintFilter::Components)
            } else {
                None
            }
        },
    }
}

} // verus!
