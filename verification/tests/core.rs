use warmap::assemble::{combine_maps, AssembleError};
use warmap::epoch::{check_cached_war_id, resolve_war_name, ResolveError};
use warmap::hexgrid::{get_hex_coords, icon_top_left, scaled_dim, try_hex_coords};
use warmap::icons::{
    filter_for, get_icon_file_name, make_map_icon_base_id, make_map_icon_id, try_icon_file_name,
    TintFilter,
};
use warmap::paths::{
    cache_path, map_dynamic_cache_rel, map_dynamic_endpoint, map_static_cache_rel,
    map_static_endpoint, maps_cache_rel, maps_endpoint, request_url, war_cache_rel, war_endpoint,
};
use warmap::schema::{MapItem, MapTextItem, RegionMap, TeamId, War};
use warmap::strutil::{i32_to_dec, str_eq, u32_to_dec};
use warmap::Shard;

fn war(id: &str, number: i32, res: Option<i64>) -> War {
    War { war_id: id.to_string(), war_number: number, resistance_start_time: res }
}

#[test]
fn shard_names() {
    let s = Shard::Able;
    assert_eq!(s.name(), "able");
    assert_eq!(s.root_endpoint(), "https://war-service-live.foxholeservices.com/api");
}

#[test]
fn decimal_rendering() {
    assert_eq!(u32_to_dec(0), "0");
    assert_eq!(u32_to_dec(7), "7");
    assert_eq!(u32_to_dec(117), "117");
    assert_eq!(u32_to_dec(1000000), "1000000");
    assert_eq!(i32_to_dec(-45), "-45");
    assert_eq!(i32_to_dec(45), "45");
}

#[test]
fn string_equality() {
    assert!(str_eq("DeadLandsHex", "DeadLandsHex"));
    assert!(!str_eq("DeadLandsHex", "DeadLandsHexx"));
}

#[test]
fn namespace_without_resistance() {
    let w = war("id-a", 117, None);
    let name = resolve_war_name(&w, &Shard::Able, 1_700_000_000_000).unwrap();
    assert_eq!(name, "able-117");
}

#[test]
fn namespace_with_old_resistance() {
    let now: i64 = 1_700_000_000_000;
    let w = war("id-a", 117, Some(now - 13 * 3_600_000));
    let name = resolve_war_name(&w, &Shard::Able, now).unwrap();
    assert_eq!(name, "able-117-resistance");
}

#[test]
fn timing_guard_rejects_young_resistance() {
    // resistance window started 6 hours ago: resolution must fail fatally
    let now: i64 = 1_700_000_000_000;
    let w = war("id-a", 117, Some(now - 6 * 3_600_000));
    match resolve_war_name(&w, &Shard::Able, now) {
        Err(ResolveError::TooSoonSinceResistance) => {}
        _ => panic!("expected the timing guard to fire"),
    }
}

#[test]
fn timing_guard_boundary() {
    let now: i64 = 1_700_000_000_000;
    let exactly_12h = war("id-a", 9, Some(now - 12 * 3_600_000));
    assert!(resolve_war_name(&exactly_12h, &Shard::Able, now).is_ok());
    let just_under = war("id-a", 9, Some(now - 12 * 3_600_000 + 1));
    assert!(resolve_war_name(&just_under, &Shard::Able, now).is_err());
}

#[test]
fn cache_consistency_mismatch_is_fatal() {
    // cached epoch id "A" for the same sequence; live returns id "B"
    let live = war("B", 42, None);
    let cached = war("A", 42, None);
    match check_cached_war_id(&live, &cached) {
        Err(ResolveError::WarIdMismatch { live_id, cached_id }) => {
            assert_eq!(live_id, "B");
            assert_eq!(cached_id, "A");
        }
        _ => panic!("expected a war id mismatch"),
    }
    assert!(check_cached_war_id(&live, &war("B", 42, None)).is_ok());
}

#[test]
fn request_and_cache_paths() {
    let s = Shard::Able;
    assert_eq!(
        request_url(&s, "/worldconquest/war"),
        "https://war-service-live.foxholeservices.com/api/worldconquest/war"
    );
    assert_eq!(war_endpoint(), "/worldconquest/war");
    assert_eq!(maps_endpoint(), "/worldconquest/maps");
    assert_eq!(war_cache_rel(), "war.json");
    assert_eq!(maps_cache_rel(), "maps.json");
    assert_eq!(cache_path("able-117", "war.json"), "cache/warapi/able-117/war.json");
    assert_eq!(cache_path("able-117", "maps.json"), "cache/warapi/able-117/maps.json");
    assert_eq!(map_static_endpoint("DeadLandsHex"), "/worldconquest/maps/DeadLandsHex/static");
    assert_eq!(
        map_dynamic_endpoint("DeadLandsHex"),
        "/worldconquest/maps/DeadLandsHex/dynamic/public"
    );
    assert_eq!(map_static_cache_rel("DeadLandsHex"), "maps/DeadLandsHex-static.json");
    assert_eq!(map_dynamic_cache_rel("DeadLandsHex"), "maps/DeadLandsHex-dynamic.json");
}

fn item(team: TeamId, icon_type: i32, x: u32, y: u32) -> MapItem {
    MapItem { team_id: team, icon_type, x, y }
}

#[test]
fn region_assembly_takes_dynamic_items_verbatim() {
    let text = MapTextItem {
        text: "Abandoned Ward".to_string(),
        x: 10,
        y: 20,
        map_marker_type: "Major".to_string(),
    };
    let st = RegionMap { region_id: 5, map_items: vec![], map_text_items: vec![text] };
    let dy = RegionMap {
        region_id: 5,
        map_items: vec![item(TeamId::Wardens, 27, 1, 2), item(TeamId::Nobody, 20, 3, 4)],
        map_text_items: vec![],
    };
    let merged = combine_maps(st, dy).unwrap();
    assert_eq!(merged.region_id, 5);
    assert_eq!(merged.map_items.len(), 2);
    assert_eq!(merged.map_items[0], item(TeamId::Wardens, 27, 1, 2));
    assert_eq!(merged.map_items[1], item(TeamId::Nobody, 20, 3, 4));
    assert_eq!(merged.map_text_items.len(), 1);
    assert_eq!(merged.map_text_items[0].text, "Abandoned Ward");
}

#[test]
fn region_assembly_rejects_non_empty_static_items() {
    let st = RegionMap {
        region_id: 7,
        map_items: vec![item(TeamId::Nobody, 20, 0, 0)],
        map_text_items: vec![],
    };
    let dy = RegionMap { region_id: 7, map_items: vec![], map_text_items: vec![] };
    match combine_maps(st, dy) {
        Err(AssembleError::NonEmptyStaticItems { region_id }) => assert_eq!(region_id, 7),
        _ => panic!("assembly must fail rather than merge"),
    }
}

#[test]
fn icon_name_table() {
    assert_eq!(get_icon_file_name(11), "Medical");
    assert_eq!(get_icon_file_name(8), "Forward Base 1");
    assert_eq!(get_icon_file_name(84), "MortarHouse");
    assert_eq!(try_icon_file_name(61), Some("Coal"));
    assert_eq!(try_icon_file_name(9), None);
    assert_eq!(try_icon_file_name(-1), None);
}

#[test]
fn icon_ids() {
    let mi = item(TeamId::Wardens, 12, 0, 0);
    assert_eq!(make_map_icon_id(&mi), "icon-Vehicle-wd");
    assert_eq!(make_map_icon_base_id(&mi), "icon-Vehicle-base");
    let mi = item(TeamId::Colonials, 27, 0, 0);
    assert_eq!(make_map_icon_id(&mi), "icon-Keep-cl");
    let mi = item(TeamId::Nobody, 20, 0, 0);
    assert_eq!(make_map_icon_id(&mi), "icon-Salvage-nt");
}

#[test]
fn filter_policy() {
    assert_eq!(filter_for(27, TeamId::Colonials), Some(TintFilter::Collie));
    assert_eq!(filter_for(27, TeamId::Wardens), Some(TintFilter::Warden));
    assert_eq!(filter_for(27, TeamId::Nobody), None);
    assert_eq!(filter_for(20, TeamId::Nobody), Some(TintFilter::Salvage));
    assert_eq!(filter_for(38, TeamId::Nobody), Some(TintFilter::Salvage));
    assert_eq!(filter_for(23, TeamId::Nobody), Some(TintFilter::Sulfur));
    assert_eq!(filter_for(32, TeamId::Nobody), Some(TintFilter::Sulfur));
    assert_eq!(filter_for(61, TeamId::Nobody), Some(TintFilter::Coal));
    assert_eq!(filter_for(62, TeamId::Nobody), Some(TintFilter::Oil));
    assert_eq!(filter_for(21, TeamId::Nobody), Some(TintFilter::Components));
    assert_eq!(filter_for(40, TeamId::Nobody), Some(TintFilter::Components));
    assert_eq!(filter_for(22, TeamId::Nobody), None);
}

#[test]
fn hex_coordinate_table() {
    assert_eq!(get_hex_coords("BasinSionnachHex"), (0, 0));
    assert_eq!(get_hex_coords("MarbanHollow"), (2, 3));
    assert_eq!(get_hex_coords("KalokaiHex"), (6, 6));
    assert_eq!(try_hex_coords("DeadLandsHex"), Some((3, 3)));
    assert_eq!(try_hex_coords("NowhereHex"), None);
    assert_eq!(try_hex_coords(""), None);
}

#[test]
fn icon_centering_example() {
    // terrain 900x800, item at (0.5, 0.5), icon 40x40 -> top-left (430, 380)
    assert_eq!(icon_top_left(900, 800, 500_000, 500_000, 40, 40), (430, 380));
}

#[test]
fn icon_centering_clamps_at_edge() {
    // an icon centered near the origin would start off-canvas; it clamps to 0
    assert_eq!(icon_top_left(900, 800, 0, 0, 40, 40), (0, 0));
}

#[test]
fn scaled_dim_rounds_to_nearest() {
    assert_eq!(scaled_dim(2048, 1, 3), 683);
    assert_eq!(scaled_dim(60, 1, 6), 10);
    assert_eq!(scaled_dim(63, 1, 6), 11);
    assert_eq!(scaled_dim(0, 1, 6), 0);
}
