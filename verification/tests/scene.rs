use warmap::atlas::{BaseAsset, IconAtlas};
use warmap::compose::{
    build_scene, place_on_lattice, plan_icon_loads, sort_items_by_y, ComposeError, LoadedIcon,
    Placement, RegionInput,
};
use warmap::filters::{build_filters, color_coeff};
use warmap::schema::{MapItem, RegionMap, TeamId};
use warmap::svgdoc::{png_href, scale_transform, scene_to_svg};

fn item(team: TeamId, icon_type: i32, x: u32, y: u32) -> MapItem {
    MapItem { team_id: team, icon_type, x, y }
}

fn base(icon_type: i32) -> BaseAsset {
    BaseAsset { icon_type, width: 10, height: 10, png: vec![] }
}

#[test]
fn atlas_base_is_deduplicated() {
    let mut a = IconAtlas::new();
    assert!(!a.has_base(56));
    a.add_base(base(56));
    assert!(a.has_base(56));
    assert!(!a.has_base(57));
    assert_eq!(a.base_dims(56), Some((10, 10)));
    assert_eq!(a.base_dims(57), None);
}

#[test]
fn owned_first_reference_creates_all_three_variants() {
    let mut a = IconAtlas::new();
    a.add_base(base(56));
    a.ensure_variants(56, TeamId::Wardens);
    assert!(a.has_variant(56, TeamId::Nobody));
    assert!(a.has_variant(56, TeamId::Wardens));
    assert!(a.has_variant(56, TeamId::Colonials));
    assert_eq!(a.variants.len(), 3);
    // a later reference of the same icon-type adds nothing
    a.ensure_variants(56, TeamId::Colonials);
    a.ensure_variants(56, TeamId::Nobody);
    assert_eq!(a.variants.len(), 3);
}

#[test]
fn neutral_first_reference_creates_one_variant() {
    let mut a = IconAtlas::new();
    a.add_base(base(22));
    a.ensure_variants(22, TeamId::Nobody);
    assert!(a.has_variant(22, TeamId::Nobody));
    assert!(!a.has_variant(22, TeamId::Wardens));
    assert!(!a.has_variant(22, TeamId::Colonials));
    assert_eq!(a.variants.len(), 1);
    assert_eq!(a.variants[0].filter, None);
}

#[test]
fn neutral_resource_variant_carries_readability_tint() {
    let mut a = IconAtlas::new();
    a.add_base(base(20));
    a.ensure_variants(20, TeamId::Nobody);
    assert_eq!(a.variants.len(), 1);
    assert_eq!(a.variants[0].filter, Some(warmap::icons::TintFilter::Salvage));
}

#[test]
fn neutral_then_owned_reference_completes_the_variants() {
    let mut a = IconAtlas::new();
    a.add_base(base(56));
    a.ensure_variants(56, TeamId::Nobody);
    assert_eq!(a.variants.len(), 1);
    a.ensure_variants(56, TeamId::Colonials);
    assert_eq!(a.variants.len(), 3);
}

#[test]
fn sort_orders_by_ascending_y() {
    let items = vec![
        item(TeamId::Nobody, 20, 1, 300),
        item(TeamId::Wardens, 27, 2, 100),
        item(TeamId::Nobody, 22, 3, 200),
    ];
    let sorted = sort_items_by_y(&items);
    assert_eq!(sorted.len(), 3);
    assert_eq!(sorted[0].y, 100);
    assert_eq!(sorted[1].y, 200);
    assert_eq!(sorted[2].y, 300);
}

#[test]
fn sort_is_stable_for_equal_y() {
    // two items at the same y keep the payload's order
    let items = vec![
        item(TeamId::Wardens, 27, 1, 200),
        item(TeamId::Nobody, 20, 2, 100),
        item(TeamId::Colonials, 56, 3, 200),
    ];
    let sorted = sort_items_by_y(&items);
    assert_eq!(sorted[0], item(TeamId::Nobody, 20, 2, 100));
    assert_eq!(sorted[1], item(TeamId::Wardens, 27, 1, 200));
    assert_eq!(sorted[2], item(TeamId::Colonials, 56, 3, 200));
}

#[test]
fn lattice_placement_example() {
    // hexes at (0,0) and (0,1) with short diameter 300: the offsets differ by
    // 300*cos30 = 259.8 and 300*sin30 = 150.0 pixels (floored to pixels)
    let a = place_on_lattice("BasinSionnachHex", 300).unwrap();
    let b = place_on_lattice("HowlCountyHex", 300).unwrap();
    assert_eq!(a, Placement { x: 1039, y: 0 });
    assert_eq!(b, Placement { x: 1299, y: 150 });
    assert_eq!(b.y - a.y, 150);
    // with a rounder diameter the horizontal step is 866 = floor(1000*cos30)
    let c = place_on_lattice("BasinSionnachHex", 1000).unwrap();
    let d = place_on_lattice("HowlCountyHex", 1000).unwrap();
    assert_eq!(d.x - c.x, 866);
    assert_eq!(d.y - c.y, 500);
}

#[test]
fn lattice_rejects_unknown_region() {
    match place_on_lattice("NowhereHex", 300) {
        Err(ComposeError::UnknownRegion { name }) => assert_eq!(name, "NowhereHex"),
        _ => panic!("expected an unknown-region failure"),
    }
}

fn region(name: &str, items: Vec<MapItem>, tw: u32, th: u32) -> RegionInput {
    RegionInput {
        name: name.to_string(),
        map: RegionMap { region_id: 1, map_items: items, map_text_items: vec![] },
        terrain_png: vec![1, 2, 3],
        terrain_w: tw,
        terrain_h: th,
    }
}

fn demo_icons() -> Vec<LoadedIcon> {
    vec![
        LoadedIcon { icon_type: 20, png: vec![9], width: 60, height: 60 },
        LoadedIcon { icon_type: 27, png: vec![8], width: 120, height: 60 },
    ]
}

fn demo_regions() -> Vec<RegionInput> {
    vec![region(
        "DeadLandsHex",
        vec![
            item(TeamId::Nobody, 20, 250_000, 750_000),
            item(TeamId::Wardens, 27, 500_000, 500_000),
        ],
        900,
        800,
    )]
}

#[test]
fn plan_lists_each_icon_type_once() {
    let regions = vec![region(
        "DeadLandsHex",
        vec![
            item(TeamId::Nobody, 20, 0, 0),
            item(TeamId::Wardens, 27, 0, 0),
            item(TeamId::Nobody, 20, 5, 5),
        ],
        900,
        800,
    )];
    assert_eq!(plan_icon_loads(&regions).unwrap(), vec![20, 27]);
    let bad = vec![region("DeadLandsHex", vec![item(TeamId::Nobody, 9, 0, 0)], 900, 800)];
    match plan_icon_loads(&bad) {
        Err(ComposeError::UnknownIconType { code }) => assert_eq!(code, 9),
        _ => panic!("expected an unknown icon type"),
    }
}

#[test]
fn build_scene_composes_and_places() {
    let doc = build_scene(demo_regions(), demo_icons(), 100).unwrap();
    assert_eq!(doc.filters.len(), 7);
    assert_eq!(doc.regions.len(), 1);
    assert_eq!(doc.placements.len(), 1);
    let c = &doc.regions[0];
    assert_eq!(c.name, "DeadLandsHex");
    assert_eq!((c.terrain_w, c.terrain_h), (900, 800));
    // items drawn in ascending y order; icons centered on their positions
    assert_eq!(c.icon_uses.len(), 2);
    assert_eq!(c.icon_uses[0].variant_id, "icon-Keep-wd");
    assert_eq!((c.icon_uses[0].x, c.icon_uses[0].y), (440, 395));
    assert_eq!(c.icon_uses[1].variant_id, "icon-Salvage-nt");
    assert_eq!((c.icon_uses[1].x, c.icon_uses[1].y), (220, 595));
    // DeadLandsHex sits at (3,3); the short diameter is the composed height 801
    assert_eq!(doc.placements[0], Placement { x: 2774, y: 2403 });
    assert_eq!((doc.width, doc.height), (2774 + 902, 2403 + 801));
    // the owned Keep reference created all three variants, the neutral
    // Salvage reference one; each icon-type has exactly one base asset
    assert_eq!(doc.atlas.bases.len(), 2);
    assert_eq!(doc.atlas.variants.len(), 4);
    assert_eq!(doc.atlas.base_dims(27), Some((20, 10)));
    assert_eq!(doc.atlas.base_dims(20), Some((10, 10)));
}

#[test]
fn build_scene_base_created_once_per_icon_type() {
    let regions = vec![region(
        "DeadLandsHex",
        vec![
            item(TeamId::Nobody, 20, 100_000, 100_000),
            item(TeamId::Nobody, 20, 900_000, 900_000),
            item(TeamId::Colonials, 20, 500_000, 500_000),
        ],
        900,
        800,
    )];
    let icons = vec![LoadedIcon { icon_type: 20, png: vec![9], width: 60, height: 60 }];
    let doc = build_scene(regions, icons, 100).unwrap();
    assert_eq!(doc.atlas.bases.len(), 1);
    assert_eq!(doc.atlas.variants.len(), 3);
}

#[test]
fn composition_is_deterministic() {
    // identical cached inputs yield byte-identical placement coordinates
    let d1 = build_scene(demo_regions(), demo_icons(), 100).unwrap();
    let d2 = build_scene(demo_regions(), demo_icons(), 100).unwrap();
    assert_eq!(d1.placements, d2.placements);
    assert_eq!((d1.width, d1.height), (d2.width, d2.height));
    for (a, b) in d1.regions[0].icon_uses.iter().zip(d2.regions[0].icon_uses.iter()) {
        assert_eq!((a.x, a.y), (b.x, b.y));
        assert_eq!(a.variant_id, b.variant_id);
    }
}

#[test]
fn build_scene_rejects_terrain_size_mismatch() {
    let regions = vec![
        region("DeadLandsHex", vec![], 900, 800),
        region("LochMorHex", vec![], 901, 800),
    ];
    match build_scene(regions, vec![], 100) {
        Err(ComposeError::TerrainSizeMismatch { name }) => assert_eq!(name, "LochMorHex"),
        _ => panic!("expected a terrain size mismatch"),
    }
}

#[test]
fn build_scene_rejects_unknown_region() {
    let regions = vec![region("NowhereHex", vec![], 900, 800)];
    match build_scene(regions, vec![], 100) {
        Err(ComposeError::UnknownRegion { name }) => assert_eq!(name, "NowhereHex"),
        _ => panic!("expected an unknown region"),
    }
}

#[test]
fn build_scene_rejects_unknown_icon_type() {
    let regions =
        vec![region("DeadLandsHex", vec![item(TeamId::Nobody, 9, 0, 0)], 900, 800)];
    match build_scene(regions, demo_icons(), 100) {
        Err(ComposeError::UnknownIconType { code }) => assert_eq!(code, 9),
        _ => panic!("expected an unknown icon type"),
    }
}

#[test]
fn build_scene_rejects_missing_icon_asset() {
    let regions =
        vec![region("DeadLandsHex", vec![item(TeamId::Nobody, 22, 0, 0)], 900, 800)];
    match build_scene(regions, vec![], 100) {
        Err(ComposeError::MissingIconAsset { code }) => assert_eq!(code, 22),
        _ => panic!("expected a missing icon asset"),
    }
}

#[test]
fn filter_matrices_are_fixed_linear_recombinations() {
    let filters = build_filters();
    assert_eq!(filters.len(), 7);
    assert_eq!(filters[0].id, "colorCollie");
    assert_eq!(
        filters[0].matrix,
        "0.3960784 0 0 0 0\n0 0.5294118 0 0 0\n0 0 0.3686275 0 0\n0 0 0 1 0"
    );
    assert_eq!(filters[1].id, "colorWarden");
    assert_eq!(filters[4].id, "colorCoal");
    assert_eq!(
        filters[4].matrix,
        "0.2941176 0 0 0 0\n0 0.2941176 0 0 0\n0 0 0.2941176 0 0\n0 0 0 1 0"
    );
    assert_eq!(filters[6].id, "colorComponents");
    assert_eq!(color_coeff(255), "1");
    assert_eq!(color_coeff(0), "0.0000000");
    assert_eq!(color_coeff(135), "0.5294118");
}

#[test]
fn embedded_raster_reference_is_base64() {
    assert_eq!(png_href(&vec![0u8, 1, 2]), "data:image/png;base64,AAEC");
    assert_eq!(png_href(&vec![255u8]), "data:image/png;base64,/w==");
    assert_eq!(png_href(&vec![]), "data:image/png;base64,");
}

#[test]
fn scale_transform_rendering() {
    assert_eq!(scale_transform(100), "scale(1)");
    assert_eq!(scale_transform(150), "scale(1.50)");
    assert_eq!(scale_transform(105), "scale(1.05)");
    assert_eq!(scale_transform(30), "scale(0.30)");
}

#[test]
fn scene_serializes_with_every_definition_once() {
    let doc = build_scene(demo_regions(), demo_icons(), 100).unwrap();
    let el = scene_to_svg(&doc);
    let text = el.to_string();
    assert_eq!(text.matches("icon-Keep-wd").count() >= 2, true);
    // each definition appears exactly once
    assert_eq!(text.matches("id=\"icon-Keep-base\"").count(), 1);
    assert_eq!(text.matches("id=\"icon-Salvage-nt\"").count(), 1);
    assert_eq!(text.matches("id=\"terrain-DeadLandsHex\"").count(), 1);
    assert_eq!(text.matches("id=\"composed-hex-DeadLandsHex\"").count(), 1);
    assert_eq!(text.matches("id=\"colorCollie\"").count(), 1);
    assert!(text.contains("data:image/png;base64,"));
    assert!(text.contains("width=\"3676\""));
    assert!(text.contains("height=\"3204\""));
}
