use vstd::prelude::*;
use vstd::seq_lib::group_to_multiset_ensures;

use crate::atlas::{lemma_variant_persists, BaseAsset, IconAtlas};
use crate::filters::{build_filters, spec_filter_matrix, spec_filter_order, FilterDef};
use crate::hexgrid::{
    composed_dims, hex_offset_px, icon_top_left, scaled_dim, spec_composed_h, spec_composed_w,
    spec_hex_coords, spec_hex_offset_x_micro, spec_hex_offset_y_micro, spec_icon_tl,
    spec_is_known_region, spec_scaled_dim, try_hex_coords,
};
use crate::icons::{
    icon_variant_id, spec_filter_id, spec_is_known_icon, spec_variant_id, try_icon_file_name,
};
use crate::schema::{MapItem, RegionMap, TeamId, MICRO};

verus! {

/// Numerator of the icon resample factor: icons are drawn at one sixth of
/// their source size. Visual only; no cost for vector output.
pub const ICON_SCALE_NUM: u32 = 1;

/// Denominator of the icon resample factor.
pub const ICON_SCALE_DEN: u32 = 6;

/// Numerator of the terrain resample factor: terrains are resampled to one
/// third of their source size, which shrinks the embedded raster payload.
pub const TERRAIN_SCALE_NUM: u32 = 1;

/// Denominator of the terrain resample factor.
pub const TERRAIN_SCALE_DEN: u32 = 3;

/// One region as handed to the compositor: its name, its assembled payload,
/// and its already-resampled terrain raster with the raster's dimensions.
pub struct RegionInput {
    pub name: String,
    pub map: RegionMap,
    pub terrain_png: Vec<u8>,
    pub terrain_w: u32,
    pub terrain_h: u32,
}

/// One icon's source pixel asset: the encoded raster and its original pixel
/// dimensions, before the icon resample factor is applied.
pub struct LoadedIcon {
    pub icon_type: i32,
    pub png: Vec<u8>,
    pub width: u32,
    pub height: u32,
}

/// One icon reference of a composed local scene: a variant id and the pixel
/// position of the icon's top-left corner inside the scene.
pub struct IconUse {
    pub variant_id: String,
    pub x: u32,
    pub y: u32,
}

/// One region's composed local scene: the terrain at the local origin and
/// the icon references layered over it in ascending order of normalized y.
pub struct ComposedRegion {
    pub name: String,
    pub terrain_png: Vec<u8>,
    pub terrain_w: u32,
    pub terrain_h: u32,
    pub icon_uses: Vec<IconUse>,
}

/// Pixel offset of one composed scene on the global canvas.
#[derive(PartialEq, Eq, Structural, Clone, Copy, Debug)]
pub struct Placement {
    pub x: u64,
    pub y: u64,
}

/// Failures of composition. Each is a fatal consistency violation.
#[derive(Debug)]
pub enum ComposeError {
    /// A placed item carries an icon-type code outside the closed table.
    UnknownIconType { code: i32 },
    /// A region name has no axial coordinate in the closed lattice table.
    UnknownRegion { name: String },
    /// A region's terrain raster has other dimensions than the first one.
    TerrainSizeMismatch { name: String },
    /// No pixel asset was supplied for a referenced icon-type.
    MissingIconAsset { code: i32 },
}

/// The whole composed scene: filter definitions, the deduplicated icon
/// atlas, the composed local scenes, their placements on the global lattice
/// (parallel to `regions`), and the canvas bounds.
pub struct SceneDoc {
    pub filters: Vec<FilterDef>,
    pub atlas: IconAtlas,
    pub regions: Vec<ComposedRegion>,
    pub placements: Vec<Placement>,
    pub scale_percent: u32,
    pub width: u64,
    pub height: u64,
}

/// Items ordered by ascending normalized y: later items draw on top.
pub open spec fn spec_sorted_by_y(s: Seq<MapItem>) -> bool {
    forall|i: int, j: int| 0 <= i < j < s.len() ==> s[i].y <= s[j].y
}

/// Insertion point of an item of the given y into a run of items: just
/// after the leading run of items whose y is less than or equal to it, so
/// that items of equal y keep their arrival order.
pub open spec fn spec_ins_pos(s: Seq<MapItem>, y: u32) -> int
    decreases s.len(),
{
    if s.len() == 0 {
        0int
    } else if s[0].y > y {
        0int
    } else {
        1 + spec_ins_pos(s.drop_first(), y)
    }
}

/// The stable sort of an item list by ascending y: each item, in arrival
/// order, is inserted after every already-placed item of equal or lower y,
/// so equal-y items keep the payload's order.
pub open spec fn spec_sort_by_y(s: Seq<MapItem>) -> Seq<MapItem>
    decreases s.len(),
{
    if s.len() == 0 {
        Seq::empty()
    } else {
        let sorted = spec_sort_by_y(s.drop_last());
        sorted.insert(spec_ins_pos(sorted, s.last().y), s.last())
    }
}

/// A forward scan that stops at the first item of strictly greater y finds
/// exactly the insertion point.
proof fn lemma_ins_pos_from_scan(s: Seq<MapItem>, y: u32, j: int)
    requires
        0 <= j <= s.len(),
        forall|jj: int| 0 <= jj < j ==> s[jj].y <= y,
        j < s.len() ==> s[j].y > y,
    ensures
        spec_ins_pos(s, y) == j,
    decreases s.len(),
{
    if s.len() > 0 && j > 0 {
        assert forall|jj: int| 0 <= jj < j - 1 implies s.drop_first()[jj].y <= y by {
            assert(s.drop_first()[jj] == s[jj + 1]);
        }
        if j - 1 < s.drop_first().len() {
            assert(s.drop_first()[j - 1] == s[j]);
        }
        lemma_ins_pos_from_scan(s.drop_first(), y, j - 1);
    }
}

/// Stable sort of a region's items by ascending normalized y, so that items
/// lower on the map are layered on top of higher ones; items of equal y keep
/// the payload's order.
#[verifier::rlimit(30)]
pub fn sort_items_by_y(items: &Vec<MapItem>) -> (r: Vec<MapItem>)
    ensures
        r@ == spec_sort_by_y(items@),
        spec_sorted_by_y(r@),
        r@.to_multiset() == items@.to_multiset(),
        r@.len() == items@.len(),
{
    broadcast use group_to_multiset_ensures;
    broadcast use vstd::multiset::group_multiset_axioms;

    let mut out: Vec<MapItem> = Vec::new();
    let mut i: usize = 0;
    while i < items.len()
        invariant
            i <= items@.len(),
            out@ == spec_sort_by_y(items@.subrange(0, i as int)),
            spec_sorted_by_y(out@),
            out@.to_multiset() == items@.subrange(0, i as int).to_multiset(),
            out@.len() == i,
        decreases items@.len() - i,
    {
        let ghost out0 = out@;
        let it = items[i];
        let mut j: usize = 0;
        while j < out.len() && out[j].y <= it.y
            invariant
                j <= out@.len(),
                forall|jj: int| 0 <= jj < j ==> out@[jj].y <= it.y,
            decreases out@.len() - j,
        {
            j += 1;
        }
        out.insert(j, it);
        proof {
            lemma_ins_pos_from_scan(out0, it.y, j as int);
            assert(out@ == out0.insert(j as int, it));
            out0.insert_ensures(j as int, it);
            let ghost pre = items@.subrange(0, i as int);
            let ghost pre1 = items@.subrange(0, i as int + 1);
            assert(pre1.drop_last() =~= pre);
            assert(pre1.last() == it);
            assert(out@ == spec_sort_by_y(pre1));
            assert(spec_sorted_by_y(out@)) by {
                assert forall|a: int, b: int| 0 <= a < b < out@.len() implies out@[a].y
                    <= out@[b].y by {
                    if b < j {
                        assert(out@[a] == out0[a] && out@[b] == out0[b]);
                    } else if a < j && b == j {
                        assert(out@[a] == out0[a]);
                    } else if a < j && b > j {
                        assert(out@[a] == out0[a] && out@[b] == out0[b - 1]);
                        if b - 1 >= j {
                            assert(out0[j as int].y > it.y);
                            assert(out0[a].y <= out0[b - 1].y);
                        }
                    } else if a == j {
                        assert(out@[b] == out0[b - 1]);
                        assert(out0[b - 1].y >= out0[j as int].y);
                        assert(out0[j as int].y > it.y);
                    } else {
                        assert(out@[a] == out0[a - 1] && out@[b] == out0[b - 1]);
                    }
                }
            }
            assert(out@.to_multiset() =~= pre1.to_multiset()) by {
                out0.to_multiset_ensures();
                out@.to_multiset_ensures();
                pre.to_multiset_ensures();
                pre1.to_multiset_ensures();
                assert(out@.remove(j as int) =~= out0);
                assert(out@.remove(j as int).to_multiset() =~= out@.to_multiset().remove(
                    out@[j as int],
                ));
                assert(out@[j as int] == it);
                assert(out@.contains(it));
                assert(out@.to_multiset().count(it) >= 1);
                assert(pre1.drop_last() =~= pre);
                assert(pre1 =~= pre.push(it));
                assert(pre1.to_multiset() =~= pre.to_multiset().insert(it));
                assert(out@.to_multiset() =~= out0.to_multiset().insert(it));
            }
        }
        i += 1;
    }
    proof {
        assert(items@.subrange(0, items@.len() as int) =~= items@);
    }
    out
}

/// First supplied pixel asset of an icon-type, if any.
fn find_icon<'a>(icons: &'a Vec<LoadedIcon>, t: i32) -> (r: Option<&'a LoadedIcon>)
    ensures
        match r {
            Some(ic) => exists|i: int|
                0 <= i < icons@.len() && (#[trigger] icons@[i]).icon_type == t && *ic == icons@[i]
                    && (forall|k2: int|
                    0 <= k2 < i ==> (#[trigger] icons@[k2]).icon_type != t),
            None => forall|i: int| 0 <= i < icons@.len() ==> (#[trigger] icons@[i]).icon_type != t,
        },
{
    let mut i: usize = 0;
    while i < icons.len()
        invariant
            i <= icons@.len(),
            forall|k: int| 0 <= k < i ==> (#[trigger] icons@[k]).icon_type != t,
        decreases icons@.len() - i,
    {
        if icons[i].icon_type == t {
            return Some(&icons[i]);
        }
        i += 1;
    }
    None
}

/// What compose_region guarantees of one emitted icon reference: it names
/// the item's variant, and its position pins the icon's center to the item's
/// normalized position scaled into the terrain's pixel space, using the
/// dimensions of the icon-type's registered base asset.
pub open spec fn spec_use_ok(
    u: IconUse,
    item: MapItem,
    terrain_w: u32,
    terrain_h: u32,
    bases: Seq<BaseAsset>,
) -> bool {
    &&& u.variant_id@ == spec_variant_id(item.icon_type, item.team_id)
    &&& exists|b: int|
        0 <= b < bases.len() && (#[trigger] bases[b]).icon_type == item.icon_type && u.x
            == spec_icon_tl(terrain_w as int, item.x as int, bases[b].width as int) && u.y
            == spec_icon_tl(terrain_h as int, item.y as int, bases[b].height as int)
}

/// Every base asset added beyond `n0` was downsampled, by the fixed icon
/// resample factor, from the first supplied pixel asset of its icon-type.
pub open spec fn spec_new_bases_from(bases: Seq<BaseAsset>, n0: int, icons: Seq<LoadedIcon>) -> bool {
    forall|b: int|
        n0 <= b < bases.len() ==> exists|i: int|
            0 <= i < icons.len() && (#[trigger] icons[i]).icon_type == (
            #[trigger] bases[b]).icon_type && (forall|k2: int|
                0 <= k2 < i ==> (#[trigger] icons[k2]).icon_type != bases[b].icon_type)
                && bases[b].width == spec_scaled_dim(
                icons[i].width as int,
                ICON_SCALE_NUM as int,
                ICON_SCALE_DEN as int,
            ) && bases[b].height == spec_scaled_dim(
                icons[i].height as int,
                ICON_SCALE_NUM as int,
                ICON_SCALE_DEN as int,
            ) && bases[b].png@ == icons[i].png@
}

/// Every base asset at index `n0` or beyond belongs to an icon-type that
/// some item of the list references: bases come into being on first
/// reference only, never speculatively.
pub open spec fn spec_new_bases_referenced(
    bases: Seq<BaseAsset>,
    n0: int,
    items: Seq<MapItem>,
) -> bool {
    forall|b: int|
        n0 <= b < bases.len() ==> exists|k: int|
            0 <= k < items.len() && (#[trigger] items[k]).icon_type == (
            #[trigger] bases[b]).icon_type
}

/// The variants that one placed item's reference requires the atlas to hold:
/// the neutral variant always, and all three faction variants when the item
/// is owned by either side.
pub open spec fn spec_item_variants_present(atlas: IconAtlas, item: MapItem) -> bool {
    &&& atlas.spec_has_variant(item.icon_type, TeamId::Nobody)
    &&& item.team_id != TeamId::Nobody ==> atlas.spec_has_variant(item.icon_type, TeamId::Wardens)
        && atlas.spec_has_variant(item.icon_type, TeamId::Colonials)
}

/// Composes one region's local scene: the terrain at the origin, then each
/// item's icon variant in the given (already sorted) order, the icon's
/// center pinned to the item's position. Registers missing base assets and
/// variants in the atlas on first reference.
pub fn compose_region(
    name: String,
    items: Vec<MapItem>,
    terrain_png: Vec<u8>,
    terrain_w: u32,
    terrain_h: u32,
    atlas: &mut IconAtlas,
    icons: &Vec<LoadedIcon>,
) -> (r: Result<ComposedRegion, ComposeError>)
    requires
        old(atlas).wf(),
        terrain_w <= 1000000,
        terrain_h <= 1000000,
        forall|k: int| 0 <= k < items@.len() ==> (#[trigger] items@[k]).valid(),
        forall|i: int|
            0 <= i < icons@.len() ==> (#[trigger] icons@[i]).width <= 1000000 && icons@[i].height
                <= 1000000,
    ensures
        final(atlas).wf(),
        old(atlas).bases@.is_prefix_of(final(atlas).bases@),
        old(atlas).variants@.is_prefix_of(final(atlas).variants@),
        spec_new_bases_from(final(atlas).bases@, old(atlas).bases@.len() as int, icons@),
        spec_new_bases_referenced(final(atlas).bases@, old(atlas).bases@.len() as int, items@),
        match r {
            Ok(c) => {
                &&& forall|k: int|
                    0 <= k < items@.len() ==> spec_item_variants_present(
                        *final(atlas),
                        #[trigger] items@[k],
                    )
                &&& c.name@ == name@
                &&& c.terrain_w == terrain_w
                &&& c.terrain_h == terrain_h
                &&& c.terrain_png@ == terrain_png@
                &&& c.icon_uses@.len() == items@.len()
                &&& forall|k: int|
                    0 <= k < items@.len() ==> spec_use_ok(
                        #[trigger] c.icon_uses@[k],
                        items@[k],
                        terrain_w,
                        terrain_h,
                        final(atlas).bases@,
                    )
            },
            Err(e) => {
                &&& e matches ComposeError::UnknownIconType { code } ==> exists|k: int|
                    0 <= k < items@.len() && (#[trigger] items@[k]).icon_type == code
                        && !spec_is_known_icon(code)
                &&& e matches ComposeError::MissingIconAsset { code } ==> exists|k: int|
                    0 <= k < items@.len() && (#[trigger] items@[k]).icon_type == code && (forall|
                        i: int,
                    |
                        0 <= i < icons@.len() ==> (#[trigger] icons@[i]).icon_type != code)
                &&& !(e matches ComposeError::UnknownRegion { .. })
                &&& !(e matches ComposeError::TerrainSizeMismatch { .. })
            },
        },
        (forall|k: int|
            0 <= k < items@.len() ==> spec_is_known_icon((#[trigger] items@[k]).icon_type) && (
            old(atlas).spec_has_base(items@[k].icon_type) || exists|j: int|
                0 <= j < icons@.len() && (#[trigger] icons@[j]).icon_type
                    == items@[k].icon_type)) ==> r is Ok,
{
    let ghost bases0 = old(atlas).bases@;
    let ghost vars0 = old(atlas).variants@;
    proof {
        assert(bases0.is_prefix_of(atlas.bases@)) by {
            assert(atlas.bases@.subrange(0, bases0.len() as int) =~= bases0);
        }
        assert(vars0.is_prefix_of(atlas.variants@)) by {
            assert(atlas.variants@.subrange(0, vars0.len() as int) =~= vars0);
        }
    }
    let mut uses: Vec<IconUse> = Vec::new();
    let mut k: usize = 0;
    while k < items.len()
        invariant
            bases0 == old(atlas).bases@,
            vars0 == old(atlas).variants@,
            vars0.is_prefix_of(atlas.variants@),
            forall|q: int|
                0 <= q < k ==> spec_item_variants_present(*atlas, #[trigger] items@[q]),
            k <= items@.len(),
            atlas.wf(),
            terrain_w <= 1000000,
            terrain_h <= 1000000,
            forall|q: int| 0 <= q < items@.len() ==> (#[trigger] items@[q]).valid(),
            forall|i: int|
                0 <= i < icons@.len() ==> (#[trigger] icons@[i]).width <= 1000000
                    && icons@[i].height <= 1000000,
            bases0.is_prefix_of(atlas.bases@),
            spec_new_bases_from(atlas.bases@, bases0.len() as int, icons@),
            spec_new_bases_referenced(atlas.bases@, bases0.len() as int, items@),
            uses@.len() == k,
            forall|q: int|
                0 <= q < k ==> spec_use_ok(
                    #[trigger] uses@[q],
                    items@[q],
                    terrain_w,
                    terrain_h,
                    atlas.bases@,
                ),
        decreases items@.len() - k,
    {
        let ghost atlas_before = *atlas;
        let item = items[k];
        let t = item.icon_type;
        if try_icon_file_name(t).is_none() {
            return Err(ComposeError::UnknownIconType { code: t });
        }
        if !atlas.has_base(t) {
            match find_icon(icons, t) {
                None => {
                    proof {
                        if old(atlas).spec_has_base(t) {
                            let w = choose|w: int|
                                0 <= w < bases0.len() && (#[trigger] bases0[w]).icon_type == t;
                            assert(bases0 =~= atlas.bases@.subrange(0, bases0.len() as int));
                            assert(atlas.bases@[w].icon_type == t);
                        }
                    }
                    return Err(ComposeError::MissingIconAsset { code: t });
                },
                Some(ic) => {
                    let w = scaled_dim(ic.width, ICON_SCALE_NUM, ICON_SCALE_DEN);
                    let h = scaled_dim(ic.height, ICON_SCALE_NUM, ICON_SCALE_DEN);
                    let png = vstd::slice::slice_to_vec(ic.png.as_slice());
                    atlas.add_base(BaseAsset { icon_type: t, width: w, height: h, png });
                    proof {
                        let n = atlas.bases@.len() - 1;
                        assert(bases0.is_prefix_of(atlas.bases@)) by {
                            assert(atlas.bases@.subrange(0, bases0.len() as int)
                                =~= atlas_before.bases@.subrange(0, bases0.len() as int));
                        }
                        assert forall|b: int|
                            bases0.len() <= b < atlas.bases@.len() implies exists|i: int|
                            0 <= i < icons@.len() && (#[trigger] icons@[i]).icon_type == (
                            #[trigger] atlas.bases@[b]).icon_type && (forall|k2: int|
                                0 <= k2 < i ==> (#[trigger] icons@[k2]).icon_type
                                    != atlas.bases@[b].icon_type) && atlas.bases@[b].width
                            == spec_scaled_dim(
                            icons@[i].width as int,
                            ICON_SCALE_NUM as int,
                            ICON_SCALE_DEN as int,
                        ) && atlas.bases@[b].height == spec_scaled_dim(
                            icons@[i].height as int,
                            ICON_SCALE_NUM as int,
                            ICON_SCALE_DEN as int,
                        ) && atlas.bases@[b].png@ == icons@[i].png@ by {
                            if b < n {
                                assert(atlas.bases@[b] == atlas_before.bases@[b]);
                                assert(spec_new_bases_from(
                                    atlas_before.bases@,
                                    bases0.len() as int,
                                    icons@,
                                ));
                            } else {
                                let i = choose|i: int|
                                    0 <= i < icons@.len() && (#[trigger] icons@[i]).icon_type == t
                                        && *ic == icons@[i] && (forall|k2: int|
                                        0 <= k2 < i ==> (#[trigger] icons@[k2]).icon_type != t);
                                assert(atlas.bases@[b].icon_type == icons@[i].icon_type);
                            }
                        }
                        assert forall|b: int|
                            bases0.len() <= b < atlas.bases@.len() implies exists|q: int|
                            0 <= q < items@.len() && (#[trigger] items@[q]).icon_type == (
                            #[trigger] atlas.bases@[b]).icon_type by {
                            if b < n {
                                assert(atlas.bases@[b] == atlas_before.bases@[b]);
                                assert(spec_new_bases_referenced(
                                    atlas_before.bases@,
                                    bases0.len() as int,
                                    items@,
                                ));
                            } else {
                                assert(items@[k as int].icon_type == atlas.bases@[b].icon_type);
                            }
                        }
                    }
                },
            }
        }
        proof {
            assert(atlas.spec_has_base(t));
        }
        let ghost w = choose|w: int|
            0 <= w < atlas.bases@.len() && (#[trigger] atlas.bases@[w]).icon_type == t;
        atlas.ensure_variants(t, item.team_id);
        proof {
            assert(atlas.bases@[w].icon_type == t);
            assert(atlas.spec_has_base(t));
        }
        let dims = match atlas.base_dims(t) {
            Some(d) => d,
            None => vstd::pervasive::unreached(),
        };
        proof {
            assert(dims.0 <= 1000000 && dims.1 <= 1000000) by {
                let b = choose|b: int|
                    0 <= b < atlas.bases@.len() && (#[trigger] atlas.bases@[b]).icon_type == t
                        && dims.0 == atlas.bases@[b].width && dims.1 == atlas.bases@[b].height;
                assert(atlas.wf());
            }
        }
        let (ux, uy) = icon_top_left(terrain_w, terrain_h, item.x, item.y, dims.0, dims.1);
        let vid = icon_variant_id(t, item.team_id);
        uses.push(IconUse { variant_id: vid, x: ux, y: uy });
        proof {
            assert(atlas_before.variants@.is_prefix_of(atlas.variants@));
            assert(vars0.is_prefix_of(atlas.variants@)) by {
                assert forall|j: int| 0 <= j < vars0.len() implies vars0[j]
                    == atlas.variants@[j] by {
                    assert(vars0[j] == atlas_before.variants@.subrange(
                        0,
                        vars0.len() as int,
                    )[j]);
                    assert(atlas_before.variants@[j] == atlas.variants@.subrange(
                        0,
                        atlas_before.variants@.len() as int,
                    )[j]);
                }
                assert(vars0 =~= atlas.variants@.subrange(0, vars0.len() as int));
            }
            assert forall|q: int| 0 <= q < k + 1 implies spec_item_variants_present(
                *atlas,
                #[trigger] items@[q],
            ) by {
                if q < k {
                    assert(spec_item_variants_present(atlas_before, items@[q]));
                    lemma_variant_persists(
                        atlas_before,
                        *atlas,
                        items@[q].icon_type,
                        TeamId::Nobody,
                    );
                    if items@[q].team_id != TeamId::Nobody {
                        lemma_variant_persists(
                            atlas_before,
                            *atlas,
                            items@[q].icon_type,
                            TeamId::Wardens,
                        );
                        lemma_variant_persists(
                            atlas_before,
                            *atlas,
                            items@[q].icon_type,
                            TeamId::Colonials,
                        );
                    }
                } else {
                    assert(atlas.spec_has_variant(t, TeamId::Nobody));
                    if item.team_id != TeamId::Nobody {
                        assert(atlas.spec_has_variant(t, TeamId::Wardens));
                        assert(atlas.spec_has_variant(t, TeamId::Colonials));
                    }
                }
            }
            assert forall|q: int| 0 <= q < k + 1 implies spec_use_ok(
                #[trigger] uses@[q],
                items@[q],
                terrain_w,
                terrain_h,
                atlas.bases@,
            ) by {
                if q < k {
                    assert(spec_use_ok(
                        uses@[q],
                        items@[q],
                        terrain_w,
                        terrain_h,
                        atlas_before.bases@,
                    ));
                    let b = choose|b: int|
                        0 <= b < atlas_before.bases@.len() && (
                        #[trigger] atlas_before.bases@[b]).icon_type == items@[q].icon_type
                            && uses@[q].x == spec_icon_tl(
                            terrain_w as int,
                            items@[q].x as int,
                            atlas_before.bases@[b].width as int,
                        ) && uses@[q].y == spec_icon_tl(
                            terrain_h as int,
                            items@[q].y as int,
                            atlas_before.bases@[b].height as int,
                        );
                    assert(atlas.bases@[b] == atlas_before.bases@[b]);
                } else {
                    let b = choose|b: int|
                        0 <= b < atlas.bases@.len() && (#[trigger] atlas.bases@[b]).icon_type == t
                            && dims.0 == atlas.bases@[b].width && dims.1
                            == atlas.bases@[b].height;
                    assert(atlas.bases@[b].icon_type == items@[q].icon_type);
                }
            }
        }
        k += 1;
    }
    Ok(
        ComposedRegion {
            name,
            terrain_png,
            terrain_w,
            terrain_h,
            icon_uses: uses,
        },
    )
}


/// Larger of two integers.
pub open spec fn spec_max(a: int, b: int) -> int {
    if a >= b {
        a
    } else {
        b
    }
}

/// Pixel placement of a region's composed scene: the lattice transform of
/// the region's axial coordinate, scaled by the hex short diameter `d`.
pub open spec fn spec_region_placement(name: Seq<char>, d: int) -> (int, int) {
    let rc = spec_hex_coords(name)->Some_0;
    (
        spec_hex_offset_x_micro(rc.0 as int, rc.1 as int, d) / (MICRO as int),
        spec_hex_offset_y_micro(rc.0 as int, rc.1 as int, d) / (MICRO as int),
    )
}

/// Places one composed scene on the global lattice. A region name outside
/// the closed table is a fatal error.
pub fn place_on_lattice(name: &str, d: u32) -> (r: Result<Placement, ComposeError>)
    requires
        d <= 20000000,
    ensures
        spec_is_known_region(name@) ==> (r matches Ok(p) && (p.x as int, p.y as int)
            == spec_region_placement(name@, d as int) && p.x <= 200000000000000 && p.y
            <= 200000000000000),
        !spec_is_known_region(name@) ==> (r matches Err(e) && (e matches
            ComposeError::UnknownRegion { name: n } && n@ == name@)),
{
    match try_hex_coords(name) {
        None => Err(ComposeError::UnknownRegion { name: String::from_str(name) }),
        Some(rc) => {
            let (x, y) = hex_offset_px(rc, d);
            Ok(Placement { x, y })
        },
    }
}

/// Canvas bounds: the running maximum, over all placed scenes, of the
/// placement offset plus the composed scene's dimensions.
pub open spec fn spec_bounds(ps: Seq<Placement>, cw: int, ch: int) -> (int, int)
    decreases ps.len(),
{
    if ps.len() == 0 {
        (0int, 0int)
    } else {
        let rest = spec_bounds(ps.drop_last(), cw, ch);
        (
            spec_max(rest.0, ps.last().x + cw),
            spec_max(rest.1, ps.last().y + ch),
        )
    }
}

fn vec_contains_i32(v: &Vec<i32>, t: i32) -> (r: bool)
    ensures
        r == v@.contains(t),
{
    let mut i: usize = 0;
    while i < v.len()
        invariant
            i <= v@.len(),
            forall|k: int| 0 <= k < i ==> v@[k] != t,
        decreases v@.len() - i,
    {
        if v[i] == t {
            return true;
        }
        i += 1;
    }
    false
}

/// Lists the distinct icon-type codes that the regions' items reference, in
/// first-encounter order, so that each base pixel asset is loaded exactly
/// once. An unknown code is a fatal error.
pub fn plan_icon_loads(regions: &Vec<RegionInput>) -> (r: Result<Vec<i32>, ComposeError>)
    ensures
        match r {
            Ok(v) => {
                &&& forall|a: int, b: int| 0 <= a < b < v@.len() ==> v@[a] != v@[b]
                &&& forall|a: int| 0 <= a < v@.len() ==> spec_is_known_icon(#[trigger] v@[a])
                &&& forall|a: int|
                    0 <= a < v@.len() ==> spec_type_referenced(
                        #[trigger] v@[a],
                        regions@,
                        regions@.len() as int,
                    )
                &&& forall|i: int, k: int|
                    0 <= i < regions@.len() && 0 <= k < (#[trigger] regions@[i]).map.map_items@.len()
                        ==> v@.contains((#[trigger] regions@[i].map.map_items@[k]).icon_type)
            },
            Err(e) => e matches ComposeError::UnknownIconType { code } && !spec_is_known_icon(code)
                && exists|i: int, k: int|
                0 <= i < regions@.len() && 0 <= k < (#[trigger] regions@[i]).map.map_items@.len()
                    && (#[trigger] regions@[i].map.map_items@[k]).icon_type == code,
        },
        (forall|i: int, k: int|
            0 <= i < regions@.len() && 0 <= k < (#[trigger] regions@[i]).map.map_items@.len()
                ==> spec_is_known_icon((#[trigger] regions@[i].map.map_items@[k]).icon_type))
            ==> r is Ok,
{
    let mut out: Vec<i32> = Vec::new();
    let mut i: usize = 0;
    while i < regions.len()
        invariant
            i <= regions@.len(),
            forall|a: int, b: int| 0 <= a < b < out@.len() ==> out@[a] != out@[b],
            forall|a: int| 0 <= a < out@.len() ==> spec_is_known_icon(#[trigger] out@[a]),
            forall|a: int|
                0 <= a < out@.len() ==> spec_type_referenced(
                    #[trigger] out@[a],
                    regions@,
                    regions@.len() as int,
                ),
            forall|p: int, k: int|
                0 <= p < i && 0 <= k < (#[trigger] regions@[p]).map.map_items@.len()
                    ==> out@.contains((#[trigger] regions@[p].map.map_items@[k]).icon_type),
        decreases regions@.len() - i,
    {
        let items = &regions[i].map.map_items;
        let mut k: usize = 0;
        while k < items.len()
            invariant
                i < regions@.len(),
                k <= items@.len(),
                items@ == regions@[i as int].map.map_items@,
                forall|a: int, b: int| 0 <= a < b < out@.len() ==> out@[a] != out@[b],
                forall|a: int| 0 <= a < out@.len() ==> spec_is_known_icon(#[trigger] out@[a]),
                forall|a: int|
                    0 <= a < out@.len() ==> spec_type_referenced(
                        #[trigger] out@[a],
                        regions@,
                        regions@.len() as int,
                    ),
                forall|p: int, q: int|
                    0 <= p < i && 0 <= q < (#[trigger] regions@[p]).map.map_items@.len()
                        ==> out@.contains((#[trigger] regions@[p].map.map_items@[q]).icon_type),
                forall|q: int| 0 <= q < k ==> out@.contains((#[trigger] items@[q]).icon_type),
            decreases items@.len() - k,
        {
            let t = items[k].icon_type;
            if try_icon_file_name(t).is_none() {
                return Err(ComposeError::UnknownIconType { code: t });
            }
            let ghost out0 = out@;
            if !vec_contains_i32(&out, t) {
                out.push(t);
                proof {
                    assert(items@[k as int].icon_type == t);
                    assert(spec_type_referenced(t, regions@, regions@.len() as int));
                    assert forall|a: int| 0 <= a < out@.len() implies spec_type_referenced(
                        #[trigger] out@[a],
                        regions@,
                        regions@.len() as int,
                    ) by {
                        if a < out@.len() - 1 {
                            assert(out@[a] == out0[a]);
                        }
                    }
                }
            }
            proof {
                assert(out@.contains(t)) by {
                    if out0.contains(t) {
                        let w = choose|w: int| 0 <= w < out0.len() && out0[w] == t;
                        assert(out@[w] == t);
                    } else {
                        assert(out@[out@.len() - 1] == t);
                    }
                }
                assert forall|p: int, q: int|
                    0 <= p < i && 0 <= q < (#[trigger] regions@[p]).map.map_items@.len() implies out@.contains(
                    (#[trigger] regions@[p].map.map_items@[q]).icon_type,
                ) by {
                    let e = regions@[p].map.map_items@[q].icon_type;
                    let w = choose|w: int| 0 <= w < out0.len() && out0[w] == e;
                    assert(out@[w] == e);
                }
                assert forall|q: int| 0 <= q < k + 1 implies out@.contains(
                    (#[trigger] items@[q]).icon_type,
                ) by {
                    if q < k {
                        let e = items@[q].icon_type;
                        let w = choose|w: int| 0 <= w < out0.len() && out0[w] == e;
                        assert(out@[w] == e);
                    }
                }
            }
            k += 1;
        }
        i += 1;
    }
    Ok(out)
}

/// Some item of the first `upto` regions references the icon-type.
pub open spec fn spec_type_referenced(t: i32, regions: Seq<RegionInput>, upto: int) -> bool {
    exists|p: int, q: int|
        0 <= p < upto && 0 <= q < regions[p].map.map_items@.len() && (
        #[trigger] regions[p].map.map_items@[q]).icon_type == t
}

/// Every base asset of the atlas belongs to an icon-type that some item of
/// the first `upto` regions references.
pub open spec fn spec_bases_all_referenced(
    bases: Seq<BaseAsset>,
    regions: Seq<RegionInput>,
    upto: int,
) -> bool {
    forall|b: int|
        0 <= b < bases.len() ==> spec_type_referenced(
            (#[trigger] bases[b]).icon_type,
            regions,
            upto,
        )
}

/// What build_scene guarantees of one composed region entry: the region's
/// fields carried through, and one icon reference per item, in the order of
/// the stable sort of the items by ascending y.
pub open spec fn spec_region_ok(c: ComposedRegion, reg: RegionInput, bases: Seq<BaseAsset>) -> bool {
    &&& c.name@ == reg.name@
    &&& c.terrain_w == reg.terrain_w
    &&& c.terrain_h == reg.terrain_h
    &&& c.terrain_png@ == reg.terrain_png@
    &&& c.icon_uses@.len() == reg.map.map_items@.len()
    &&& spec_sort_by_y(reg.map.map_items@).to_multiset() == reg.map.map_items@.to_multiset()
    &&& spec_sorted_by_y(spec_sort_by_y(reg.map.map_items@))
    &&& spec_sort_by_y(reg.map.map_items@).len() == reg.map.map_items@.len()
    &&& forall|k: int|
        0 <= k < reg.map.map_items@.len() ==> spec_use_ok(
            #[trigger] c.icon_uses@[k],
            spec_sort_by_y(reg.map.map_items@)[k],
            reg.terrain_w,
            reg.terrain_h,
            bases,
        )
}

/// Composes every region's local scene, builds the shared icon atlas and
/// filter table, places each scene on the global hex lattice, and computes
/// the canvas bounds. The whole scene is a function of the inputs and the
/// static tables alone.
pub fn build_scene(regions: Vec<RegionInput>, icons: Vec<LoadedIcon>, scale_percent: u32) -> (r:
    Result<SceneDoc, ComposeError>)
    requires
        1 <= scale_percent <= 1000,
        forall|i: int|
            0 <= i < regions@.len() ==> (#[trigger] regions@[i]).map.valid()
                && regions@[i].terrain_w <= 1000000 && regions@[i].terrain_h <= 1000000,
        forall|i: int|
            0 <= i < icons@.len() ==> (#[trigger] icons@[i]).width <= 1000000 && icons@[i].height
                <= 1000000,
    ensures
        match r {
            Ok(doc) => {
                &&& doc.filters@.len() == 7
                &&& forall|k: int|
                    0 <= k < 7 ==> (#[trigger] doc.filters@[k]).id@ == spec_filter_id(
                        spec_filter_order(k),
                    ) && doc.filters@[k].matrix@ == spec_filter_matrix(spec_filter_order(k))
                &&& doc.atlas.wf()
                &&& doc.scale_percent == scale_percent
                &&& doc.regions@.len() == regions@.len()
                &&& doc.placements@.len() == regions@.len()
                &&& forall|i: int|
                    0 <= i < regions@.len() ==> spec_region_ok(
                        #[trigger] doc.regions@[i],
                        regions@[i],
                        doc.atlas.bases@,
                    )
                &&& forall|i: int|
                    0 <= i < regions@.len() ==> (#[trigger] regions@[i]).terrain_w
                        == regions@[0].terrain_w && regions@[i].terrain_h == regions@[0].terrain_h
                &&& forall|i: int|
                    0 <= i < regions@.len() ==> ((#[trigger] doc.placements@[i]).x as int,
                    doc.placements@[i].y as int) == spec_region_placement(
                        regions@[i].name@,
                        spec_composed_h(regions@[0].terrain_h as int, scale_percent as int),
                    )
                &&& spec_bases_all_referenced(
                    doc.atlas.bases@,
                    regions@,
                    regions@.len() as int,
                )
                &&& forall|i: int, k: int|
                    0 <= i < regions@.len() && 0 <= k < (#[trigger] regions@[i]).map.map_items@.len()
                        ==> spec_item_variants_present(
                        doc.atlas,
                        #[trigger] regions@[i].map.map_items@[k],
                    )
                &&& regions@.len() > 0 ==> (doc.width as int, doc.height as int) == spec_bounds(
                    doc.placements@,
                    spec_composed_w(regions@[0].terrain_w as int, scale_percent as int),
                    spec_composed_h(regions@[0].terrain_h as int, scale_percent as int),
                )
                &&& regions@.len() == 0 ==> doc.width == 0 && doc.height == 0
            },
            Err(e) => {
                &&& e matches ComposeError::UnknownRegion { name } ==> exists|i: int|
                    0 <= i < regions@.len() && (#[trigger] regions@[i]).name@ == name@
                        && !spec_is_known_region(name@)
                &&& e matches ComposeError::TerrainSizeMismatch { name } ==> exists|i: int|
                    0 <= i < regions@.len() && (#[trigger] regions@[i]).name@ == name@
                        && !(regions@[i].terrain_w == regions@[0].terrain_w
                        && regions@[i].terrain_h == regions@[0].terrain_h)
                &&& e matches ComposeError::UnknownIconType { code } ==> !spec_is_known_icon(code)
                    && exists|i: int, k: int|
                    0 <= i < regions@.len() && 0 <= k < (#[trigger] regions@[i]).map.map_items@.len()
                        && (#[trigger] regions@[i].map.map_items@[k]).icon_type == code
                &&& e matches ComposeError::MissingIconAsset { code } ==> (forall|j: int|
                    0 <= j < icons@.len() ==> (#[trigger] icons@[j]).icon_type != code) && exists|
                    i: int,
                    k: int,
                |
                    0 <= i < regions@.len() && 0 <= k < (#[trigger] regions@[i]).map.map_items@.len()
                        && (#[trigger] regions@[i].map.map_items@[k]).icon_type == code
            },
        },
        ((forall|i: int|
            0 <= i < regions@.len() ==> spec_is_known_region((#[trigger] regions@[i]).name@))
            && (forall|i: int|
            0 <= i < regions@.len() ==> (#[trigger] regions@[i]).terrain_w
                == regions@[0].terrain_w && regions@[i].terrain_h == regions@[0].terrain_h) && (
        forall|i: int, k: int|
            0 <= i < regions@.len() && 0 <= k < (#[trigger] regions@[i]).map.map_items@.len()
                ==> spec_is_known_icon((#[trigger] regions@[i].map.map_items@[k]).icon_type) && (
                exists|j: int|
                    0 <= j < icons@.len() && (#[trigger] icons@[j]).icon_type
                        == regions@[i].map.map_items@[k].icon_type))) ==> r is Ok,
{
    let filters = build_filters();
    let mut atlas = IconAtlas::new();
    let mut composed: Vec<ComposedRegion> = Vec::new();
    let mut placements: Vec<Placement> = Vec::new();
    let mut width: u64 = 0;
    let mut height: u64 = 0;
    let tw0: u32 = if regions.len() > 0 {
        regions[0].terrain_w
    } else {
        0
    };
    let th0: u32 = if regions.len() > 0 {
        regions[0].terrain_h
    } else {
        0
    };
    let (cw, ch) = composed_dims(tw0, th0, scale_percent);
    proof {
        assert(spec_composed_w(tw0 as int, scale_percent as int) <= 20000000
            && spec_composed_h(th0 as int, scale_percent as int) <= 20000000)
            by (nonlinear_arith)
            requires
                tw0 <= 1000000,
                th0 <= 1000000,
                scale_percent <= 1000,
        ;
    }
    let mut i: usize = 0;
    while i < regions.len()
        invariant
            i <= regions@.len(),
            1 <= scale_percent <= 1000,
            forall|p: int|
                0 <= p < regions@.len() ==> (#[trigger] regions@[p]).map.valid()
                    && regions@[p].terrain_w <= 1000000 && regions@[p].terrain_h <= 1000000,
            forall|p: int|
                0 <= p < icons@.len() ==> (#[trigger] icons@[p]).width <= 1000000
                    && icons@[p].height <= 1000000,
            regions@.len() > 0 ==> tw0 == regions@[0].terrain_w && th0 == regions@[0].terrain_h,
            cw == spec_composed_w(tw0 as int, scale_percent as int),
            ch == spec_composed_h(th0 as int, scale_percent as int),
            cw <= 20000000,
            ch <= 20000000,
            atlas.wf(),
            composed@.len() == i,
            placements@.len() == i,
            forall|p: int|
                0 <= p < i ==> spec_region_ok(
                    #[trigger] composed@[p],
                    regions@[p],
                    atlas.bases@,
                ),
            forall|p: int|
                0 <= p < i ==> (#[trigger] regions@[p]).terrain_w == tw0 && regions@[p].terrain_h
                    == th0,
            spec_bases_all_referenced(atlas.bases@, regions@, i as int),
            forall|p: int, q: int|
                0 <= p < i && 0 <= q < (#[trigger] regions@[p]).map.map_items@.len()
                    ==> spec_item_variants_present(
                    atlas,
                    #[trigger] regions@[p].map.map_items@[q],
                ),
            forall|p: int|
                0 <= p < i ==> ((#[trigger] placements@[p]).x as int, placements@[p].y as int)
                    == spec_region_placement(regions@[p].name@, ch as int),
            (width as int, height as int) == spec_bounds(placements@, cw as int, ch as int),
        decreases regions@.len() - i,
    {
        let ghost atlas_before = atlas;
        let ghost placements0 = placements@;
        let reg = &regions[i];
        if reg.terrain_w != tw0 || reg.terrain_h != th0 {
            return Err(
                ComposeError::TerrainSizeMismatch { name: String::from_str(reg.name.as_str()) },
            );
        }
        let sorted = sort_items_by_y(&reg.map.map_items);
        proof {
            broadcast use group_to_multiset_ensures;

            sorted@.to_multiset_ensures();
            reg.map.map_items@.to_multiset_ensures();
            assert forall|k: int| 0 <= k < sorted@.len() implies (#[trigger] sorted@[k]).valid() by {
                let item = sorted@[k];
                assert(sorted@.contains(item));
                assert(sorted@.to_multiset().count(item) > 0);
                assert(reg.map.map_items@.contains(item));
                let w = choose|w: int|
                    0 <= w < reg.map.map_items@.len() && reg.map.map_items@[w] == item;
                assert(regions@[i as int].map.valid());
                assert(regions@[i as int].map.map_items@[w].valid());
            }
        }
        let c = match compose_region(
            String::from_str(reg.name.as_str()),
            sorted,
            vstd::slice::slice_to_vec(reg.terrain_png.as_slice()),
            reg.terrain_w,
            reg.terrain_h,
            &mut atlas,
            &icons,
        ) {
            Ok(c) => c,
            Err(e) => {
                proof {
                    broadcast use group_to_multiset_ensures;

                    sorted@.to_multiset_ensures();
                    reg.map.map_items@.to_multiset_ensures();
                    match e {
                        ComposeError::UnknownIconType { code } => {
                            let k = choose|k: int|
                                0 <= k < sorted@.len() && (#[trigger] sorted@[k]).icon_type == code
                                    && !spec_is_known_icon(code);
                            let item = sorted@[k];
                            assert(sorted@.contains(item));
                            assert(sorted@.to_multiset().count(item) > 0);
                            assert(reg.map.map_items@.contains(item));
                            let w = choose|w: int|
                                0 <= w < reg.map.map_items@.len() && reg.map.map_items@[w] == item;
                            assert(regions@[i as int].map.map_items@[w].icon_type == code);
                        },
                        ComposeError::MissingIconAsset { code } => {
                            let k = choose|k: int|
                                0 <= k < sorted@.len() && (#[trigger] sorted@[k]).icon_type == code
                                    && (forall|j: int|
                                    0 <= j < icons@.len() ==> (#[trigger] icons@[j]).icon_type
                                        != code);
                            let item = sorted@[k];
                            assert(sorted@.contains(item));
                            assert(sorted@.to_multiset().count(item) > 0);
                            assert(reg.map.map_items@.contains(item));
                            let w = choose|w: int|
                                0 <= w < reg.map.map_items@.len() && reg.map.map_items@[w] == item;
                            assert(regions@[i as int].map.map_items@[w].icon_type == code);
                        },
                        _ => {},
                    }
                }
                return Err(e);
            },
        };
        let pl = match place_on_lattice(reg.name.as_str(), ch) {
            Ok(p) => p,
            Err(e) => {
                return Err(e);
            },
        };
        composed.push(c);
        placements.push(pl);
        let bx = pl.x + (cw as u64);
        let by = pl.y + (ch as u64);
        if bx > width {
            width = bx;
        }
        if by > height {
            height = by;
        }
        proof {
            broadcast use group_to_multiset_ensures;

            sorted@.to_multiset_ensures();
            reg.map.map_items@.to_multiset_ensures();
            assert(atlas_before.bases@ =~= atlas.bases@.subrange(
                0,
                atlas_before.bases@.len() as int,
            ));
            assert forall|b: int| 0 <= b < atlas.bases@.len() implies spec_type_referenced(
                (#[trigger] atlas.bases@[b]).icon_type,
                regions@,
                i as int + 1,
            ) by {
                if b < atlas_before.bases@.len() {
                    assert(atlas.bases@[b] == atlas_before.bases@[b]);
                    assert(spec_type_referenced(
                        atlas_before.bases@[b].icon_type,
                        regions@,
                        i as int,
                    ));
                    let (p0, q0) = choose|p0: int, q0: int|
                        0 <= p0 < i && 0 <= q0 < regions@[p0].map.map_items@.len() && (
                        #[trigger] regions@[p0].map.map_items@[q0]).icon_type
                            == atlas_before.bases@[b].icon_type;
                    assert(regions@[p0].map.map_items@[q0].icon_type
                        == atlas.bases@[b].icon_type);
                } else {
                    assert(spec_new_bases_referenced(
                        atlas.bases@,
                        atlas_before.bases@.len() as int,
                        sorted@,
                    ));
                    let kk = choose|kk: int|
                        0 <= kk < sorted@.len() && (#[trigger] sorted@[kk]).icon_type
                            == atlas.bases@[b].icon_type;
                    let itm = sorted@[kk];
                    assert(sorted@.contains(itm));
                    assert(sorted@.to_multiset().count(itm) > 0);
                    assert(reg.map.map_items@.contains(itm));
                    let q = choose|q: int|
                        0 <= q < reg.map.map_items@.len() && reg.map.map_items@[q] == itm;
                    assert(regions@[i as int].map.map_items@[q].icon_type
                        == atlas.bases@[b].icon_type);
                }
            }
            assert(spec_bases_all_referenced(atlas.bases@, regions@, i as int + 1));
            assert forall|p: int, q: int|
                0 <= p < i + 1 && 0 <= q < (#[trigger] regions@[p]).map.map_items@.len() implies spec_item_variants_present(
                atlas,
                #[trigger] regions@[p].map.map_items@[q],
            ) by {
                if p < i {
                    assert(spec_item_variants_present(
                        atlas_before,
                        regions@[p].map.map_items@[q],
                    ));
                    lemma_variant_persists(
                        atlas_before,
                        atlas,
                        regions@[p].map.map_items@[q].icon_type,
                        TeamId::Nobody,
                    );
                    if regions@[p].map.map_items@[q].team_id != TeamId::Nobody {
                        lemma_variant_persists(
                            atlas_before,
                            atlas,
                            regions@[p].map.map_items@[q].icon_type,
                            TeamId::Wardens,
                        );
                        lemma_variant_persists(
                            atlas_before,
                            atlas,
                            regions@[p].map.map_items@[q].icon_type,
                            TeamId::Colonials,
                        );
                    }
                } else {
                    let itm = regions@[i as int].map.map_items@[q];
                    assert(reg.map.map_items@.contains(itm));
                    assert(reg.map.map_items@.to_multiset().count(itm) > 0);
                    assert(sorted@.contains(itm));
                    let kk = choose|kk: int| 0 <= kk < sorted@.len() && sorted@[kk] == itm;
                    assert(spec_item_variants_present(atlas, sorted@[kk]));
                }
            }
            assert(placements@.drop_last() =~= placements0);
            assert forall|p: int| 0 <= p < i + 1 implies spec_region_ok(
                #[trigger] composed@[p],
                regions@[p],
                atlas.bases@,
            ) by {
                if p < i {
                    assert(spec_region_ok(composed@[p], regions@[p], atlas_before.bases@));
                    let sorted_p = spec_sort_by_y(regions@[p].map.map_items@);
                    assert forall|k: int|
                        0 <= k < regions@[p].map.map_items@.len() implies spec_use_ok(
                        #[trigger] composed@[p].icon_uses@[k],
                        sorted_p[k],
                        regions@[p].terrain_w,
                        regions@[p].terrain_h,
                        atlas.bases@,
                    ) by {
                        let b = choose|b: int|
                            0 <= b < atlas_before.bases@.len() && (
                            #[trigger] atlas_before.bases@[b]).icon_type == sorted_p[k].icon_type
                                && composed@[p].icon_uses@[k].x == spec_icon_tl(
                                regions@[p].terrain_w as int,
                                sorted_p[k].x as int,
                                atlas_before.bases@[b].width as int,
                            ) && composed@[p].icon_uses@[k].y == spec_icon_tl(
                                regions@[p].terrain_h as int,
                                sorted_p[k].y as int,
                                atlas_before.bases@[b].height as int,
                            );
                        assert(atlas_before.bases@ =~= atlas.bases@.subrange(
                            0,
                            atlas_before.bases@.len() as int,
                        ));
                        assert(atlas.bases@[b] == atlas_before.bases@[b]);
                    }
                } else {
                    assert(composed@[p] == c);
                    assert(sorted@ == spec_sort_by_y(regions@[p].map.map_items@));
                    assert(sorted@.to_multiset() == regions@[p].map.map_items@.to_multiset()
                        && spec_sorted_by_y(sorted@) && sorted@.len()
                        == regions@[p].map.map_items@.len());
                }
            }
        }
        i += 1;
    }
    Ok(
        SceneDoc {
            filters,
            atlas,
            regions: composed,
            placements,
            scale_percent,
            width,
            height,
        },
    )
}

/// LAW: a composed region is a pure function of its inputs. Any two composed
/// entries that both satisfy the composition contract for the same region and
/// the same supplied pixel assets — against atlases whose bases are unique
/// per icon-type and all downsampled from the first supplied asset — carry
/// identical icon references: same variant ids, same pixel positions.
pub proof fn lemma_icon_uses_deterministic(
    reg: RegionInput,
    icons: Seq<LoadedIcon>,
    c1: ComposedRegion,
    c2: ComposedRegion,
    b1: Seq<BaseAsset>,
    b2: Seq<BaseAsset>,
)
    requires
        spec_region_ok(c1, reg, b1),
        spec_region_ok(c2, reg, b2),
        forall|i: int, j: int| 0 <= i < j < b1.len() ==> (#[trigger] b1[i]).icon_type != (#[trigger] b1[j]).icon_type,
        forall|i: int, j: int| 0 <= i < j < b2.len() ==> (#[trigger] b2[i]).icon_type != (#[trigger] b2[j]).icon_type,
        spec_new_bases_from(b1, 0, icons),
        spec_new_bases_from(b2, 0, icons),
    ensures
        forall|k: int|
            0 <= k < reg.map.map_items@.len() ==> (#[trigger] c1.icon_uses@[k]).variant_id@
                == c2.icon_uses@[k].variant_id@ && c1.icon_uses@[k].x == c2.icon_uses@[k].x
                && c1.icon_uses@[k].y == c2.icon_uses@[k].y,
{
    let sorted = spec_sort_by_y(reg.map.map_items@);
    assert forall|k: int| 0 <= k < reg.map.map_items@.len() implies (
    #[trigger] c1.icon_uses@[k]).variant_id@ == c2.icon_uses@[k].variant_id@
        && c1.icon_uses@[k].x == c2.icon_uses@[k].x && c1.icon_uses@[k].y
        == c2.icon_uses@[k].y by {
        let item = sorted[k];
        let t = item.icon_type;
        assert(spec_use_ok(c1.icon_uses@[k], item, reg.terrain_w, reg.terrain_h, b1));
        assert(spec_use_ok(c2.icon_uses@[k], item, reg.terrain_w, reg.terrain_h, b2));
        let w1 = choose|w1: int|
            0 <= w1 < b1.len() && (#[trigger] b1[w1]).icon_type == t && c1.icon_uses@[k].x
                == spec_icon_tl(reg.terrain_w as int, item.x as int, b1[w1].width as int)
                && c1.icon_uses@[k].y == spec_icon_tl(
                reg.terrain_h as int,
                item.y as int,
                b1[w1].height as int,
            );
        let w2 = choose|w2: int|
            0 <= w2 < b2.len() && (#[trigger] b2[w2]).icon_type == t && c2.icon_uses@[k].x
                == spec_icon_tl(reg.terrain_w as int, item.x as int, b2[w2].width as int)
                && c2.icon_uses@[k].y == spec_icon_tl(
                reg.terrain_h as int,
                item.y as int,
                b2[w2].height as int,
            );
        let i1 = choose|i1: int|
            0 <= i1 < icons.len() && (#[trigger] icons[i1]).icon_type == b1[w1].icon_type && (
            forall|k2: int| 0 <= k2 < i1 ==> (#[trigger] icons[k2]).icon_type != b1[w1].icon_type)
                && b1[w1].width == spec_scaled_dim(
                icons[i1].width as int,
                ICON_SCALE_NUM as int,
                ICON_SCALE_DEN as int,
            ) && b1[w1].height == spec_scaled_dim(
                icons[i1].height as int,
                ICON_SCALE_NUM as int,
                ICON_SCALE_DEN as int,
            ) && b1[w1].png@ == icons[i1].png@;
        let i2 = choose|i2: int|
            0 <= i2 < icons.len() && (#[trigger] icons[i2]).icon_type == b2[w2].icon_type && (
            forall|k2: int| 0 <= k2 < i2 ==> (#[trigger] icons[k2]).icon_type != b2[w2].icon_type)
                && b2[w2].width == spec_scaled_dim(
                icons[i2].width as int,
                ICON_SCALE_NUM as int,
                ICON_SCALE_DEN as int,
            ) && b2[w2].height == spec_scaled_dim(
                icons[i2].height as int,
                ICON_SCALE_NUM as int,
                ICON_SCALE_DEN as int,
            ) && b2[w2].png@ == icons[i2].png@;
        assert(i1 == i2) by {
            if i1 < i2 {
                assert(icons[i1].icon_type != t);
            } else if i2 < i1 {
                assert(icons[i2].icon_type != t);
            }
        }
        assert(b1[w1].width == b2[w2].width && b1[w1].height == b2[w2].height);
    }
}

/// LAW: composition is a pure function of the cached inputs and the static
/// tables. Any two placement lists that both satisfy the lattice transform
/// for the same region names and the same hex diameter are identical, so
/// running composition twice against identical inputs yields identical
/// placement coordinates.
pub proof fn lemma_composition_deterministic(
    names: Seq<Seq<char>>,
    d: int,
    p1: Seq<Placement>,
    p2: Seq<Placement>,
)
    requires
        p1.len() == names.len(),
        p2.len() == names.len(),
        forall|i: int|
            0 <= i < names.len() ==> ((#[trigger] p1[i]).x as int, p1[i].y as int)
                == spec_region_placement(names[i], d),
        forall|i: int|
            0 <= i < names.len() ==> ((#[trigger] p2[i]).x as int, p2[i].y as int)
                == spec_region_placement(names[i], d),
    ensures
        p1 == p2,
{
    assert forall|i: int| 0 <= i < p1.len() implies p1[i] == p2[i] by {
        assert((p1[i].x as int, p1[i].y as int) == (p2[i].x as int, p2[i].y as int));
    }
    assert(p1 =~= p2);
}

} // verus!
