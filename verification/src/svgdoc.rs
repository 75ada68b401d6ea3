use vstd::prelude::*;
use vstd::string::StringExecFns;

use crate::compose::SceneDoc;
use crate::icons::{icon_base_id, icon_variant_id, filter_id};
use crate::strutil::{digit_str_mod10, spec_dec_nat, spec_digit_char, u32_to_dec, u64_to_dec};

verus! {

/// The svg crate's generic element node; opaque to the verifier, carried
/// through while the document tree is assembled.
#[verifier::external_type_specification]
#[verifier::external_body]
pub struct ExElement(svg::node::element::Element);

/// Tag name of an svg element.
pub uninterp spec fn el_tag(el: svg::node::element::Element) -> Seq<char>;

/// Attribute map of an svg element: attribute name to attribute text.
pub uninterp spec fn el_attrs(el: svg::node::element::Element) -> Map<Seq<char>, Seq<char>>;

/// Number of child nodes of an svg element.
pub uninterp spec fn el_child_count(el: svg::node::element::Element) -> nat;

/// Relies on svg's `Element::new`: creates an element with the given tag name
/// and no attributes or children.
#[verifier::external_body]
fn el_new(name: &str) -> (r: svg::node::element::Element)
    ensures
        el_tag(r) == name@,
        el_attrs(r) =~= Map::empty(),
        el_child_count(r) == 0,
{
    svg::node::element::Element::new(name)
}

/// Relies on svg's `Node::assign`: sets one attribute to a string value, an
/// insert into the element's attribute map; tag and children stay untouched.
#[verifier::external_body]
fn el_assign_str(el: &mut svg::node::element::Element, name: &str, value: &str)
    ensures
        el_tag(*final(el)) == el_tag(*old(el)),
        el_attrs(*final(el)) =~= el_attrs(*old(el)).insert(name@, value@),
        el_child_count(*final(el)) == el_child_count(*old(el)),
{
    svg::node::Node::assign(el, name, value);
}

/// Sets one attribute to a number, rendered in decimal.
fn el_assign_u32(el: &mut svg::node::element::Element, name: &str, value: u32)
    ensures
        el_tag(*final(el)) == el_tag(*old(el)),
        el_attrs(*final(el)) =~= el_attrs(*old(el)).insert(name@, spec_dec_nat(value as nat)),
        el_child_count(*final(el)) == el_child_count(*old(el)),
{
    el_assign_str(el, name, u32_to_dec(value).as_str());
}

/// Sets one attribute to a number, rendered in decimal.
fn el_assign_u64(el: &mut svg::node::element::Element, name: &str, value: u64)
    ensures
        el_tag(*final(el)) == el_tag(*old(el)),
        el_attrs(*final(el)) =~= el_attrs(*old(el)).insert(name@, spec_dec_nat(value as nat)),
        el_child_count(*final(el)) == el_child_count(*old(el)),
{
    el_assign_str(el, name, u64_to_dec(value).as_str());
}

/// Relies on svg's `Node::append`: appends one child element; tag and
/// attributes stay untouched.
#[verifier::external_body]
fn el_append(el: &mut svg::node::element::Element, child: svg::node::element::Element)
    ensures
        el_tag(*final(el)) == el_tag(*old(el)),
        el_attrs(*final(el)) =~= el_attrs(*old(el)),
        el_child_count(*final(el)) == el_child_count(*old(el)) + 1,
{
    svg::node::Node::append(el, child);
}

/// The base64 text of a byte string under the standard alphabet with padding:
/// a function of the bytes alone.
pub uninterp spec fn base64_of(bytes: Seq<u8>) -> Seq<char>;

/// Relies on base64's standard engine `encode`: standard alphabet, padded, so
/// the output takes four characters for every started group of three bytes.
/// Its internal size computation cannot overflow for any byte string that
/// fits within Rust's allocation bound.
#[verifier::external_body]
fn base64_encode(bytes: &Vec<u8>) -> (r: String)
    ensures
        r@ == base64_of(bytes@),
        r@.len() == 4 * ((bytes@.len() + 2) / 3),
{
    base64::engine::Engine::encode(&base64::engine::general_purpose::STANDARD, bytes.as_slice())
}

/// Embedded raster reference: a data URI carrying the raster as base64.
pub open spec fn spec_png_href(png: Seq<u8>) -> Seq<char> {
    "data:image/png;base64,"@ + base64_of(png)
}

/// Embedded raster reference for one encoded raster.
pub fn png_href(png: &Vec<u8>) -> (r: String)
    ensures
        r@ == spec_png_href(png@),
{
    let mut s = String::from_str("data:image/png;base64,");
    s.append(base64_encode(png).as_str());
    s
}

/// Document id of one region's composed local scene.
pub open spec fn spec_composed_hex_id(name: Seq<char>) -> Seq<char> {
    "composed-hex-"@ + name
}

/// Document id of one region's composed local scene.
pub fn composed_hex_id(name: &str) -> (r: String)
    ensures
        r@ == spec_composed_hex_id(name@),
{
    let mut s = String::from_str("composed-hex-");
    s.append(name);
    s
}

/// Document id of one region's terrain raster.
pub open spec fn spec_terrain_id(name: Seq<char>) -> Seq<char> {
    "terrain-"@ + name
}

/// Document id of one region's terrain raster.
pub fn terrain_id(name: &str) -> (r: String)
    ensures
        r@ == spec_terrain_id(name@),
{
    let mut s = String::from_str("terrain-");
    s.append(name);
    s
}

/// A same-document reference, `#id`.
pub fn hash_ref(id: &str) -> (r: String)
    ensures
        r@ == "#"@ + id@,
{
    let mut s = String::from_str("#");
    s.append(id);
    s
}

/// A filter reference, `url(#id)`.
pub fn url_ref(id: &str) -> (r: String)
    ensures
        r@ == "url(#"@ + id@ + ")"@,
{
    let mut s = String::from_str("url(#");
    s.append(id);
    s.append(")");
    s
}

/// Decimal rendering of a percentage as a scale factor: `100` renders as
/// `1`, `150` as `1.50`.
pub open spec fn spec_scale_decimal(p: int) -> Seq<char> {
    if p % 100 == 0 {
        spec_dec_nat((p / 100) as nat)
    } else {
        spec_dec_nat((p / 100) as nat) + "."@ + seq![
            spec_digit_char(p / 10 % 10),
            spec_digit_char(p % 10),
        ]
    }
}

/// The transform attribute of a composed scene: `scale(...)`.
pub fn scale_transform(p: u32) -> (r: String)
    requires
        1 <= p <= 1000,
    ensures
        r@ == "scale("@ + spec_scale_decimal(p as int) + ")"@,
{
    let mut s = String::from_str("scale(");
    s.append(u32_to_dec(p / 100).as_str());
    if p % 100 != 0 {
        s.append(".");
        s.append(digit_str_mod10(p / 10));
        s.append(digit_str_mod10(p));
        proof {
            reveal_strlit(".");
            assert("."@ =~= seq!['.']);
        }
    }
    s.append(")");
    proof {
        assert(s@ =~= "scale("@ + spec_scale_decimal(p as int) + ")"@);
    }
    s
}

/// Serializes the composed scene into one self-contained vector document:
/// one definitions section holding the colorization filters, the composed
/// local scenes, the shared base pixel assets and the terrain rasters — each
/// exactly once, as the scene's well-formed lists hold no duplicate keys —
/// followed by one top-level placement list referencing the composed scenes
/// by their global offsets. All raster content is embedded as data URIs.
///
/// The returned element is the document root: an `svg` element carrying the
/// namespace and the decimal canvas bounds, with one child per placed region
/// plus the definitions section.
pub fn scene_to_svg(doc: &SceneDoc) -> (r: svg::node::element::Element)
    requires
        doc.atlas.wf(),
        1 <= doc.scale_percent <= 1000,
        doc.placements@.len() == doc.regions@.len(),
    ensures
        el_tag(r) == "svg"@,
        el_attrs(r).contains_key("xmlns"@) && el_attrs(r)["xmlns"@]
            == "http://www.w3.org/2000/svg"@,
        el_attrs(r).contains_key("width"@) && el_attrs(r)["width"@] == spec_dec_nat(
            doc.width as nat,
        ),
        el_attrs(r).contains_key("height"@) && el_attrs(r)["height"@] == spec_dec_nat(
            doc.height as nat,
        ),
        el_child_count(r) == doc.regions@.len() + 1,
{
    // Colorization filters and icon variants.
    let mut icons_group = el_new("g");
    el_assign_str(&mut icons_group, "id", "icons-group");
    let mut fi: usize = 0;
    while fi < doc.filters.len()
        decreases doc.filters@.len() - fi,
    {
        let mut matrix = el_new("feColorMatrix");
        el_assign_str(&mut matrix, "in", "SourceGraphic");
        el_assign_str(&mut matrix, "type", "matrix");
        el_assign_str(&mut matrix, "values", doc.filters[fi].matrix.as_str());
        let mut filter = el_new("filter");
        el_assign_str(&mut filter, "color-interpolation-filters", "sRGB");
        el_append(&mut filter, matrix);
        el_assign_str(&mut filter, "id", doc.filters[fi].id.as_str());
        el_append(&mut icons_group, filter);
        fi += 1;
    }
    let mut vi: usize = 0;
    while vi < doc.atlas.variants.len()
        invariant
            doc.atlas.wf(),
        decreases doc.atlas.variants@.len() - vi,
    {
        let v = &doc.atlas.variants[vi];
        proof {
            assert(doc.atlas.spec_has_base(v.icon_type));
            let b = choose|b: int|
                0 <= b < doc.atlas.bases@.len() && (#[trigger] doc.atlas.bases@[b]).icon_type
                    == v.icon_type;
            assert(crate::icons::spec_is_known_icon(v.icon_type));
        }
        let mut u = el_new("use");
        el_assign_str(&mut u, "id", icon_variant_id(v.icon_type, v.team).as_str());
        el_assign_str(&mut u, "href", hash_ref(icon_base_id(v.icon_type).as_str()).as_str());
        match v.filter {
            Some(f) => {
                el_assign_str(&mut u, "filter", url_ref(filter_id(f)).as_str());
            },
            None => {},
        }
        el_append(&mut icons_group, u);
        vi += 1;
    }
    // Composed local scenes, one per region.
    let mut composed_group = el_new("g");
    let mut ri: usize = 0;
    while ri < doc.regions.len()
        invariant
            1 <= doc.scale_percent <= 1000,
        decreases doc.regions@.len() - ri,
    {
        let region = &doc.regions[ri];
        let mut g = el_new("g");
        el_assign_str(&mut g, "id", composed_hex_id(region.name.as_str()).as_str());
        el_assign_str(&mut g, "transform", scale_transform(doc.scale_percent).as_str());
        let mut tn_use = el_new("use");
        el_assign_str(
            &mut tn_use,
            "href",
            hash_ref(terrain_id(region.name.as_str()).as_str()).as_str(),
        );
        el_append(&mut g, tn_use);
        let mut ui: usize = 0;
        while ui < region.icon_uses.len()
            decreases region.icon_uses@.len() - ui,
        {
            let iu = &region.icon_uses[ui];
            let mut u = el_new("use");
            el_assign_str(&mut u, "href", hash_ref(iu.variant_id.as_str()).as_str());
            el_assign_u32(&mut u, "x", iu.x);
            el_assign_u32(&mut u, "y", iu.y);
            el_append(&mut g, u);
            ui += 1;
        }
        el_append(&mut composed_group, g);
        ri += 1;
    }
    // Shared base pixel assets, embedded once each.
    let mut base_group = el_new("g");
    el_assign_str(&mut base_group, "id", "icons-base-group");
    let mut bi: usize = 0;
    while bi < doc.atlas.bases.len()
        invariant
            doc.atlas.wf(),
        decreases doc.atlas.bases@.len() - bi,
    {
        let b = &doc.atlas.bases[bi];
        let mut img = el_new("image");
        el_assign_str(&mut img, "id", icon_base_id(b.icon_type).as_str());
        el_assign_u32(&mut img, "width", b.width);
        el_assign_u32(&mut img, "height", b.height);
        el_assign_str(&mut img, "href", png_href(&b.png).as_str());
        el_append(&mut base_group, img);
        bi += 1;
    }
    // Terrain rasters, embedded once each.
    let mut terrain_group = el_new("g");
    el_assign_str(&mut terrain_group, "id", "terrain-group");
    let mut ti: usize = 0;
    while ti < doc.regions.len()
        decreases doc.regions@.len() - ti,
    {
        let region = &doc.regions[ti];
        let mut img = el_new("image");
        el_assign_str(&mut img, "id", terrain_id(region.name.as_str()).as_str());
        el_assign_u32(&mut img, "width", region.terrain_w);
        el_assign_u32(&mut img, "height", region.terrain_h);
        el_assign_str(&mut img, "href", png_href(&region.terrain_png).as_str());
        el_append(&mut terrain_group, img);
        ti += 1;
    }
    // One definitions section, then the global placement list.
    let mut defs = el_new("defs");
    el_append(&mut defs, icons_group);
    el_append(&mut defs, composed_group);
    el_append(&mut defs, base_group);
    el_append(&mut defs, terrain_group);
    let mut canvas = el_new("svg");
    el_assign_str(&mut canvas, "xmlns", "http://www.w3.org/2000/svg");
    let ghost attrs0 = el_attrs(canvas);
    let mut pi: usize = 0;
    while pi < doc.regions.len()
        invariant
            pi <= doc.regions@.len(),
            doc.placements@.len() == doc.regions@.len(),
            el_tag(canvas) == "svg"@,
            el_attrs(canvas) == attrs0,
            el_child_count(canvas) == pi,
        decreases doc.regions@.len() - pi,
    {
        let mut u = el_new("use");
        el_assign_str(
            &mut u,
            "href",
            hash_ref(composed_hex_id(doc.regions[pi].name.as_str()).as_str()).as_str(),
        );
        el_assign_u64(&mut u, "x", doc.placements[pi].x);
        el_assign_u64(&mut u, "y", doc.placements[pi].y);
        el_append(&mut canvas, u);
        pi += 1;
    }
    el_append(&mut canvas, defs);
    el_assign_u64(&mut canvas, "width", doc.width);
    el_assign_u64(&mut canvas, "height", doc.height);
    proof {
        reveal_strlit("xmlns");
        reveal_strlit("width");
        reveal_strlit("height");
        assert("xmlns"@ != "width"@) by {
            assert("xmlns"@[0] != "width"@[0]);
        }
        assert("xmlns"@ != "height"@);
        assert("width"@ != "height"@);
    }
    canvas
}

} // verus!
