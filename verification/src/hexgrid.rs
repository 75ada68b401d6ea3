use vstd::prelude::*;

use crate::schema::MICRO;
use crate::strutil::str_eq;

verus! {

/// cos 30°, in millionths.
pub const COS30_MICRO: u64 = 866025;

/// sin 30°, in millionths.
pub const SIN30_MICRO: u64 = 500000;

/// Axial lattice coordinate (row, column) of each of the 37 fixed region
/// names, or `None` for a name outside the closed table. The table is closed
/// on purpose: an unrecognized region name is a fatal error, never guessed.
pub open spec fn spec_hex_coords(name: Seq<char>) -> Option<(u32, u32)> {
    if name == "BasinSionnachHex"@ {
        Some((0u32, 0u32))
    } else if name == "HowlCountyHex"@ {
        Some((0u32, 1u32))
    } else if name == "ClansheadValleyHex"@ {
        Some((0u32, 2u32))
    } else if name == "MorgensCrossingHex"@ {
        Some((0u32, 3u32))
    } else if name == "GodcroftsHex"@ {
        Some((0u32, 4u32))
    } else if name == "SpeakingWoodsHex"@ {
        Some((1u32, 0u32))
    } else if name == "ReachingTrailHex"@ {
        Some((1u32, 1u32))
    } else if name == "ViperPitHex"@ {
        Some((1u32, 2u32))
    } else if name == "WeatheredExpanseHex"@ {
        Some((1u32, 3u32))
    } else if name == "StlicanShelfHex"@ {
        Some((1u32, 4u32))
    } else if name == "TempestIslandHex"@ {
        Some((1u32, 5u32))
    } else if name == "CallumsCapeHex"@ {
        Some((2u32, 0u32))
    } else if name == "MooringCountyHex"@ {
        Some((2u32, 1u32))
    } else if name == "CallahansPassageHex"@ {
        Some((2u32, 2u32))
    } else if name == "MarbanHollow"@ {
        Some((2u32, 3u32))
    } else if name == "ClahstraHex"@ {
        Some((2u32, 4u32))
    } else if name == "EndlessShoreHex"@ {
        Some((2u32, 5u32))
    } else if name == "TheFingersHex"@ {
        Some((2u32, 6u32))
    } else if name == "NevishLineHex"@ {
        Some((3u32, 0u32))
    } else if name == "StonecradleHex"@ {
        Some((3u32, 1u32))
    } else if name == "LinnMercyHex"@ {
        Some((3u32, 2u32))
    } else if name == "DeadLandsHex"@ {
        Some((3u32, 3u32))
    } else if name == "DrownedValeHex"@ {
        Some((3u32, 4u32))
    } else if name == "AllodsBightHex"@ {
        Some((3u32, 5u32))
    } else if name == "ReaversPassHex"@ {
        Some((3u32, 6u32))
    } else if name == "OarbreakerHex"@ {
        Some((4u32, 0u32))
    } else if name == "FarranacCoastHex"@ {
        Some((4u32, 1u32))
    } else if name == "KingsCageHex"@ {
        Some((4u32, 2u32))
    } else if name == "LochMorHex"@ {
        Some((4u32, 3u32))
    } else if name == "UmbralWildwoodHex"@ {
        Some((4u32, 4u32))
    } else if name == "ShackledChasmHex"@ {
        Some((4u32, 5u32))
    } else if name == "TerminusHex"@ {
        Some((4u32, 6u32))
    } else if name == "FishermansRowHex"@ {
        Some((5u32, 1u32))
    } else if name == "WestgateHex"@ {
        Some((5u32, 2u32))
    } else if name == "SableportHex"@ {
        Some((5u32, 3u32))
    } else if name == "HeartlandsHex"@ {
        Some((5u32, 4u32))
    } else if name == "GreatMarchHex"@ {
        Some((5u32, 5u32))
    } else if name == "AcrithiaHex"@ {
        Some((5u32, 6u32))
    } else if name == "StemaLandingHex"@ {
        Some((6u32, 2u32))
    } else if name == "OriginHex"@ {
        Some((6u32, 3u32))
    } else if name == "AshFieldsHex"@ {
        Some((6u32, 4u32))
    } else if name == "RedRiverHex"@ {
        Some((6u32, 5u32))
    } else if name == "KalokaiHex"@ {
        Some((6u32, 6u32))
    } else {
        None
    }
}

/// A region name of the closed lattice table.
pub open spec fn spec_is_known_region(name: Seq<char>) -> bool {
    spec_hex_coords(name) is Some
}

/// Every coordinate of the table sits within seven rows and columns, and the
/// lattice bias keeps every horizontal offset non-negative.
pub open spec fn spec_coords_in_range(rc: (u32, u32)) -> bool {
    rc.0 <= 6 && rc.1 <= 6 && rc.0 <= rc.1 + 4
}

/// Axial lattice coordinate of a region name, `None` outside the table.
pub fn try_hex_coords(name: &str) -> (r: Option<(u32, u32)>)
    ensures
        r == spec_hex_coords(name@),
        r matches Some(rc) ==> spec_coords_in_range(rc),
{
    if str_eq(name, "BasinSionnachHex") {
        Some((0, 0))
    } else if str_eq(name, "HowlCountyHex") {
        Some((0, 1))
    } else if str_eq(name, "ClansheadValleyHex") {
        Some((0, 2))
    } else if str_eq(name, "MorgensCrossingHex") {
        Some((0, 3))
    } else if str_eq(name, "GodcroftsHex") {
        Some((0, 4))
    } else if str_eq(name, "SpeakingWoodsHex") {
        Some((1, 0))
    } else if str_eq(name, "ReachingTrailHex") {
        Some((1, 1))
    } else if str_eq(name, "ViperPitHex") {
        Some((1, 2))
    } else if str_eq(name, "WeatheredExpanseHex") {
        Some((1, 3))
    } else if str_eq(name, "StlicanShelfHex") {
        Some((1, 4))
    } else if str_eq(name, "TempestIslandHex") {
        Some((1, 5))
    } else if str_eq(name, "CallumsCapeHex") {
        Some((2, 0))
    } else if str_eq(name, "MooringCountyHex") {
        Some((2, 1))
    } else if str_eq(name, "CallahansPassageHex") {
        Some((2, 2))
    } else if str_eq(name, "MarbanHollow") {
        Some((2, 3))
    } else if str_eq(name, "ClahstraHex") {
        Some((2, 4))
    } else if str_eq(name, "EndlessShoreHex") {
        Some((2, 5))
    } else if str_eq(name, "TheFingersHex") {
        Some((2, 6))
    } else if str_eq(name, "NevishLineHex") {
        Some((3, 0))
    } else if str_eq(name, "StonecradleHex") {
        Some((3, 1))
    } else if str_eq(name, "LinnMercyHex") {
        Some((3, 2))
    } else if str_eq(name, "DeadLandsHex") {
        Some((3, 3))
    } else if str_eq(name, "DrownedValeHex") {
        Some((3, 4))
    } else if str_eq(name, "AllodsBightHex") {
        Some((3, 5))
    } else if str_eq(name, "ReaversPassHex") {
        Some((3, 6))
    } else if str_eq(name, "OarbreakerHex") {
        Some((4, 0))
    } else if str_eq(name, "FarranacCoastHex") {
        Some((4, 1))
    } else if str_eq(name, "KingsCageHex") {
        Some((4, 2))
    } else if str_eq(name, "LochMorHex") {
        Some((4, 3))
    } else if str_eq(name, "UmbralWildwoodHex") {
        Some((4, 4))
    } else if str_eq(name, "ShackledChasmHex") {
        Some((4, 5))
    } else if str_eq(name, "TerminusHex") {
        Some((4, 6))
    } else if str_eq(name, "FishermansRowHex") {
        Some((5, 1))
    } else if str_eq(name, "WestgateHex") {
        Some((5, 2))
    } else if str_eq(name, "SableportHex") {
        Some((5, 3))
    } else if str_eq(name, "HeartlandsHex") {
        Some((5, 4))
    } else if str_eq(name, "GreatMarchHex") {
        Some((5, 5))
    } else if str_eq(name, "AcrithiaHex") {
        Some((5, 6))
    } else if str_eq(name, "StemaLandingHex") {
        Some((6, 2))
    } else if str_eq(name, "OriginHex") {
        Some((6, 3))
    } else if str_eq(name, "AshFieldsHex") {
        Some((6, 4))
    } else if str_eq(name, "RedRiverHex") {
        Some((6, 5))
    } else if str_eq(name, "KalokaiHex") {
        Some((6, 6))
    } else {
        None
    }
}

/// Axial lattice coordinate of a known region name.
pub fn get_hex_coords(name: &str) -> (r: (u32, u32))
    requires
        spec_is_known_region(name@),
    ensures
        Some(r) == spec_hex_coords(name@),
        spec_coords_in_range(r),
{
    match try_hex_coords(name) {
        Some(rc) => rc,
        None => vstd::pervasive::unreached(),
    }
}

/// Horizontal pixel offset of a hex at axial coordinate `(r, c)`, in
/// millionths of a pixel: the global bias of four short diameters plus the
/// 30°-rotated basis, `d · (4 + c − r) · cos 30°`.
pub open spec fn spec_hex_offset_x_micro(r: int, c: int, d: int) -> int {
    (4 + c - r) * COS30_MICRO * d
}

/// Vertical pixel offset of a hex at axial coordinate `(r, c)`, in millionths
/// of a pixel: `d · (r + c) · sin 30°`; the vertical bias is zero.
pub open spec fn spec_hex_offset_y_micro(r: int, c: int, d: int) -> int {
    (r + c) * SIN30_MICRO * d
}

/// Pixel offset of a hex's composed scene on the global lattice, using the
/// hex's short diameter `d` (the composed scene's pixel height) as the
/// lattice unit. Whole pixels; the fractional part is dropped.
pub fn hex_offset_px(rc: (u32, u32), d: u32) -> (o: (u64, u64))
    requires
        spec_coords_in_range(rc),
        d <= 20000000,
    ensures
        o.0 == spec_hex_offset_x_micro(rc.0 as int, rc.1 as int, d as int) / (MICRO as int),
        o.1 == spec_hex_offset_y_micro(rc.0 as int, rc.1 as int, d as int) / (MICRO as int),
        o.0 <= 200000000000000,
        o.1 <= 200000000000000,
{
    proof {
        assert((4 + rc.1 - rc.0) * (COS30_MICRO as int) * d <= 10 * 866025 * 20000000)
            by (nonlinear_arith)
            requires
                rc.0 <= 6,
                rc.1 <= 6,
                rc.0 <= rc.1 + 4,
                d <= 20000000,
        ;
        assert((rc.0 + rc.1) * (SIN30_MICRO as int) * d <= 12 * 500000 * 20000000)
            by (nonlinear_arith)
            requires
                rc.0 <= 6,
                rc.1 <= 6,
                d <= 20000000,
        ;
        assert((4 + rc.1 - rc.0) * (COS30_MICRO as int) * d >= 0) by (nonlinear_arith)
            requires
                rc.0 <= rc.1 + 4,
                d >= 0,
        ;
    }
    let fx: u64 = (4 + rc.1 as u64 - rc.0 as u64) * COS30_MICRO * (d as u64);
    let fy: u64 = (rc.0 as u64 + rc.1 as u64) * SIN30_MICRO * (d as u64);
    let ox: u64 = fx / (MICRO as u64);
    let oy: u64 = fy / (MICRO as u64);
    proof {
        assert(ox <= fx && oy <= fy) by (nonlinear_arith)
            requires
                ox == fx as int / (MICRO as int),
                oy == fy as int / (MICRO as int),
                fx >= 0,
                fy >= 0,
                MICRO == 1000000,
        ;
    }
    (ox, oy)
}

/// Top-left pixel of an icon whose center is pinned to a normalized position
/// inside a terrain of the given pixel dimension:
/// `dim · pos − icon_dim / 2`, floored, and clamped at the canvas edge.
pub open spec fn spec_icon_tl(dim: int, pos_micro: int, icon_dim: int) -> int {
    let micro = dim * pos_micro - icon_dim * (MICRO as int / 2);
    if micro < 0 {
        0
    } else {
        micro / (MICRO as int)
    }
}

/// Top-left pixel position of one icon inside its region's local scene.
pub fn icon_top_left(
    terrain_w: u32,
    terrain_h: u32,
    x_micro: u32,
    y_micro: u32,
    icon_w: u32,
    icon_h: u32,
) -> (o: (u32, u32))
    requires
        terrain_w <= 1000000,
        terrain_h <= 1000000,
        x_micro <= MICRO,
        y_micro <= MICRO,
        icon_w <= 1000000,
        icon_h <= 1000000,
    ensures
        o.0 == spec_icon_tl(terrain_w as int, x_micro as int, icon_w as int),
        o.1 == spec_icon_tl(terrain_h as int, y_micro as int, icon_h as int),
{
    proof {
        assert(0 <= terrain_w * x_micro <= 1000000 * 1000000) by (nonlinear_arith)
            requires
                terrain_w <= 1000000,
                x_micro <= 1000000,
        ;
        assert(0 <= terrain_h * y_micro <= 1000000 * 1000000) by (nonlinear_arith)
            requires
                terrain_h <= 1000000,
                y_micro <= 1000000,
        ;
    }
    let tx: i64 = (terrain_w as i64) * (x_micro as i64) - (icon_w as i64) * 500000;
    let ty: i64 = (terrain_h as i64) * (y_micro as i64) - (icon_h as i64) * 500000;
    let ox: u32 = if tx < 0 {
        0
    } else {
        (tx / 1000000) as u32
    };
    let oy: u32 = if ty < 0 {
        0
    } else {
        (ty / 1000000) as u32
    };
    (ox, oy)
}

/// Pixel width of a composed local scene: the terrain scaled by the global
/// presentation factor (in percent), plus two pixels of seam padding.
pub open spec fn spec_composed_w(terrain_w: int, scale_percent: int) -> int {
    terrain_w * scale_percent / 100 + 2
}

/// Pixel height of a composed local scene: the terrain scaled by the global
/// presentation factor (in percent), plus one pixel of seam padding. This is
/// also the hex lattice's short diameter.
pub open spec fn spec_composed_h(terrain_h: int, scale_percent: int) -> int {
    terrain_h * scale_percent / 100 + 1
}

/// Pixel dimensions of a composed local scene.
pub fn composed_dims(terrain_w: u32, terrain_h: u32, scale_percent: u32) -> (o: (u32, u32))
    requires
        terrain_w <= 1000000,
        terrain_h <= 1000000,
        1 <= scale_percent <= 1000,
    ensures
        o.0 == spec_composed_w(terrain_w as int, scale_percent as int),
        o.1 == spec_composed_h(terrain_h as int, scale_percent as int),
{
    proof {
        assert(0 <= terrain_w * scale_percent <= 1000000 * 1000) by (nonlinear_arith)
            requires
                terrain_w <= 1000000,
                scale_percent <= 1000,
        ;
        assert(0 <= terrain_h * scale_percent <= 1000000 * 1000) by (nonlinear_arith)
            requires
                terrain_h <= 1000000,
                scale_percent <= 1000,
        ;
    }
    let w: u64 = (terrain_w as u64) * (scale_percent as u64) / 100 + 2;
    let h: u64 = (terrain_h as u64) * (scale_percent as u64) / 100 + 1;
    (w as u32, h as u32)
}

/// Rounded scaling of a pixel dimension by the ratio `num / den`:
/// `round(orig · num / den)`, with halves rounding up.
pub open spec fn spec_scaled_dim(orig: int, num: int, den: int) -> int {
    (2 * orig * num + den) / (2 * den)
}

/// Resamples a pixel dimension by the ratio `num / den`, rounding to the
/// nearest whole pixel.
pub fn scaled_dim(orig: u32, num: u32, den: u32) -> (r: u32)
    requires
        orig <= 1000000,
        1 <= num <= 1000,
        1 <= den <= 1000,
    ensures
        r == spec_scaled_dim(orig as int, num as int, den as int),
        r <= 1000000 * (num as int) / (den as int) + 1,
{
    proof {
        assert(0 <= 2 * orig * num <= 2 * 1000000 * 1000) by (nonlinear_arith)
            requires
                orig <= 1000000,
                num <= 1000,
        ;
    }
    let r: u64 = (2 * (orig as u64) * (num as u64) + (den as u64)) / (2 * (den as u64));
    proof {
        assert(r <= 1000000 * (num as int) / (den as int) + 1) by (nonlinear_arith)
            requires
                orig <= 1000000,
                1 <= num <= 1000,
                1 <= den <= 1000,
                r == (2 * (orig as int) * (num as int) + den) / (2 * (den as int)),
        ;
    }
    r as u32
}

} // verus!
