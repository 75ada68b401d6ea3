use vstd::prelude::*;
use vstd::string::StringExecFns;

use crate::icons::{filter_id, filter_rgb, spec_filter_id, spec_filter_rgb, TintFilter};
use crate::strutil::{digit_str_mod10, spec_digit_char};

verus! {

/// Seven-digit fixed-point fraction `0.XXXXXXX` of a value in millionths of
/// ten, i.e. of `v / 10_000_000` for `v < 10_000_000`.
pub open spec fn spec_frac7(v: int) -> Seq<char> {
    "0."@ + seq![
        spec_digit_char(v / 1000000 % 10),
        spec_digit_char(v / 100000 % 10),
        spec_digit_char(v / 10000 % 10),
        spec_digit_char(v / 1000 % 10),
        spec_digit_char(v / 100 % 10),
        spec_digit_char(v / 10 % 10),
        spec_digit_char(v % 10),
    ]
}

/// One matrix coefficient of a colorization filter: the 8-bit channel value
/// scaled to `0 ..= 1`, rendered with seven decimal places (halves round up),
/// or plainly `1` for a full channel.
pub open spec fn spec_color_coeff(v: int) -> Seq<char> {
    if v == 255 {
        "1"@
    } else {
        spec_frac7((20000000 * v + 255) / 510)
    }
}

/// The `feColorMatrix` value table of a tint: a linear RGB recombination that
/// maps white to the tint color and keeps the alpha channel.
pub open spec fn spec_filter_matrix(f: TintFilter) -> Seq<char> {
    let rgb = spec_filter_rgb(f);
    spec_color_coeff(rgb.0) + " 0 0 0 0\n0 "@ + spec_color_coeff(rgb.1) + " 0 0 0\n0 0 "@
        + spec_color_coeff(rgb.2) + " 0 0\n0 0 0 1 0"@
}

/// Renders `v / 10_000_000` with exactly seven decimal places.
pub fn frac7(v: u32) -> (r: String)
    requires
        v < 10000000,
    ensures
        r@ == spec_frac7(v as int),
{
    let mut s = String::from_str("0.");
    s.append(digit_str_mod10(v / 1000000));
    s.append(digit_str_mod10(v / 100000));
    s.append(digit_str_mod10(v / 10000));
    s.append(digit_str_mod10(v / 1000));
    s.append(digit_str_mod10(v / 100));
    s.append(digit_str_mod10(v / 10));
    s.append(digit_str_mod10(v));
    proof {
        assert(s@ =~= spec_frac7(v as int));
    }
    s
}

/// Renders one matrix coefficient of a colorization filter.
pub fn color_coeff(v: u8) -> (r: String)
    ensures
        r@ == spec_color_coeff(v as int),
{
    if v == 255 {
        String::from_str("1")
    } else {
        let scaled: u32 = ((20000000u64 * (v as u64) + 255) / 510) as u32;
        proof {
            assert((20000000 * (v as int) + 255) / 510 < 10000000) by (nonlinear_arith)
                requires
                    v < 255,
            ;
        }
        frac7(scaled)
    }
}

/// One reusable colorization filter definition: its document id and its
/// `feColorMatrix` value table.
pub struct FilterDef {
    pub id: String,
    pub matrix: String,
}

/// The filter a `FilterDef` renders, in declaration order.
pub open spec fn spec_filter_order(k: int) -> TintFilter {
    if k == 0 {
        TintFilter::Collie
    } else if k == 1 {
        TintFilter::Warden
    } else if k == 2 {
        TintFilter::Salvage
    } else if k == 3 {
        TintFilter::Sulfur
    } else if k == 4 {
        TintFilter::Coal
    } else if k == 5 {
        TintFilter::Oil
    } else {
        TintFilter::Components
    }
}

fn one_filter(f: TintFilter) -> (r: FilterDef)
    ensures
        r.id@ == spec_filter_id(f),
        r.matrix@ == spec_filter_matrix(f),
{
    let rgb = filter_rgb(f);
    let mut m = color_coeff(rgb.0);
    m.append(" 0 0 0 0\n0 ");
    m.append(color_coeff(rgb.1).as_str());
    m.append(" 0 0 0\n0 0 ");
    m.append(color_coeff(rgb.2).as_str());
    m.append(" 0 0\n0 0 0 1 0");
    proof {
        assert(m@ =~= spec_filter_matrix(f));
    }
    FilterDef { id: String::from_str(filter_id(f)), matrix: m }
}

/// Builds the closed list of colorization filters: the two faction tints and
/// the five resource-readability tints, each defined exactly once.
pub fn build_filters() -> (r: Vec<FilterDef>)
    ensures
        r@.len() == 7,
        forall|k: int|
            0 <= k < 7 ==> (#[trigger] r@[k]).id@ == spec_filter_id(spec_filter_order(k))
                && r@[k].matrix@ == spec_filter_matrix(spec_filter_order(k)),
{
    let mut v: Vec<FilterDef> = Vec::new();
    v.push(one_filter(TintFilter::Collie));
    v.push(one_filter(TintFilter::Warden));
    v.push(one_filter(TintFilter::Salvage));
    v.push(one_filter(TintFilter::Sulfur));
    v.push(one_filter(TintFilter::Coal));
    v.push(one_filter(TintFilter::Oil));
    v.push(one_filter(TintFilter::Components));
    v
}

} // verus!
