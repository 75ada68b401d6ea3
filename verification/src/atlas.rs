use vstd::prelude::*;

use crate::icons::{filter_for, spec_filter_for, spec_is_known_icon, TintFilter};
use crate::schema::TeamId;

verus! {

/// One shared base pixel asset of an icon-type: the downsampled pixel data
/// (an encoded raster) and its pixel dimensions after downsampling.
pub struct BaseAsset {
    pub icon_type: i32,
    pub width: u32,
    pub height: u32,
    pub png: Vec<u8>,
}

/// One colorized variant: a reference to the shared base asset of its
/// icon-type, with the colorization filter to apply over it, if any. Never a
/// copy of pixel data.
pub struct IconVariant {
    pub icon_type: i32,
    pub team: TeamId,
    pub filter: Option<TintFilter>,
}

/// The icon atlas of one run: base pixel assets, deduplicated per icon-type,
/// and the colorized variants that reference them.
pub struct IconAtlas {
    pub bases: Vec<BaseAsset>,
    pub variants: Vec<IconVariant>,
}

/// Which variants the first reference of an icon-type must bring into being:
/// a faction-less reference needs only the neutral variant; a reference owned
/// by either side brings all three faction variants at once, because other
/// regions' instances of the same icon-type may be owned differently.
pub open spec fn spec_required_team(trigger: TeamId, tm: TeamId) -> bool {
    if trigger == TeamId::Nobody {
        tm == TeamId::Nobody
    } else {
        true
    }
}

/// How `ensure_variants` grows an atlas: bases untouched, and the variant
/// keys are exactly the old ones plus those the trigger faction requires for
/// the referenced icon-type.
pub open spec fn spec_variants_extended(
    pre: IconAtlas,
    post: IconAtlas,
    t: i32,
    trigger: TeamId,
) -> bool {
    &&& post.bases@ == pre.bases@
    &&& forall|t2: i32, tm: TeamId|
        #[trigger] post.spec_has_variant(t2, tm) <==> (pre.spec_has_variant(t2, tm) || (t2 == t
            && spec_required_team(trigger, tm)))
}

impl IconAtlas {
    /// The atlas holds a base pixel asset for the icon-type.
    pub open spec fn spec_has_base(&self, t: i32) -> bool {
        exists|i: int| 0 <= i < self.bases@.len() && (#[trigger] self.bases@[i]).icon_type == t
    }

    /// The atlas holds the variant keyed by `(t, team)`.
    pub open spec fn spec_has_variant(&self, t: i32, team: TeamId) -> bool {
        exists|i: int|
            0 <= i < self.variants@.len() && (#[trigger] self.variants@[i]).icon_type == t
                && self.variants@[i].team == team
    }

    /// Number of variants present for one icon-type; by well-formedness each
    /// of the three keys occurs at most once.
    pub open spec fn spec_variant_count(&self, t: i32) -> int {
        (if self.spec_has_variant(t, TeamId::Nobody) {
            1int
        } else {
            0int
        }) + (if self.spec_has_variant(t, TeamId::Wardens) {
            1int
        } else {
            0int
        }) + (if self.spec_has_variant(t, TeamId::Colonials) {
            1int
        } else {
            0int
        })
    }

    /// Well-formedness: one base per icon-type; one variant per
    /// (icon-type, faction) key; every variant references an existing base
    /// and carries exactly the filter its key calls for; every base belongs
    /// to a known icon-type.
    pub open spec fn wf(&self) -> bool {
        &&& forall|i: int, j: int|
            0 <= i < j < self.bases@.len() ==> (#[trigger] self.bases@[i]).icon_type != (
            #[trigger] self.bases@[j]).icon_type
        &&& forall|i: int, j: int|
            0 <= i < j < self.variants@.len() ==> !((#[trigger] self.variants@[i]).icon_type == (
            #[trigger] self.variants@[j]).icon_type && self.variants@[i].team
                == self.variants@[j].team)
        &&& forall|i: int|
            0 <= i < self.variants@.len() ==> self.spec_has_base(
                (#[trigger] self.variants@[i]).icon_type,
            )
        &&& forall|i: int|
            0 <= i < self.variants@.len() ==> (#[trigger] self.variants@[i]).filter
                == spec_filter_for(self.variants@[i].icon_type, self.variants@[i].team)
        &&& forall|i: int|
            0 <= i < self.bases@.len() ==> spec_is_known_icon(
                (#[trigger] self.bases@[i]).icon_type,
            )
        &&& forall|i: int|
            0 <= i < self.bases@.len() ==> (#[trigger] self.bases@[i]).width <= 1000000
                && self.bases@[i].height <= 1000000
    }

    /// An empty atlas.
    pub fn new() -> (r: IconAtlas)
        ensures
            r.wf(),
            r.bases@.len() == 0,
            r.variants@.len() == 0,
    {
        IconAtlas { bases: Vec::new(), variants: Vec::new() }
    }

    /// Whether the base pixel asset of an icon-type was already registered.
    pub fn has_base(&self, t: i32) -> (r: bool)
        ensures
            r == self.spec_has_base(t),
    {
        let mut i: usize = 0;
        while i < self.bases.len()
            invariant
                i <= self.bases@.len(),
                forall|k: int| 0 <= k < i ==> (#[trigger] self.bases@[k]).icon_type != t,
            decreases self.bases@.len() - i,
        {
            if self.bases[i].icon_type == t {
                return true;
            }
            i += 1;
        }
        false
    }

    /// Pixel dimensions of the registered base asset of an icon-type.
    pub fn base_dims(&self, t: i32) -> (r: Option<(u32, u32)>)
        ensures
            match r {
                Some(d) => exists|i: int|
                    0 <= i < self.bases@.len() && (#[trigger] self.bases@[i]).icon_type == t && d.0
                        == self.bases@[i].width && d.1 == self.bases@[i].height,
                None => !self.spec_has_base(t),
            },
    {
        let mut i: usize = 0;
        while i < self.bases.len()
            invariant
                i <= self.bases@.len(),
                forall|k: int| 0 <= k < i ==> (#[trigger] self.bases@[k]).icon_type != t,
            decreases self.bases@.len() - i,
        {
            if self.bases[i].icon_type == t {
                return Some((self.bases[i].width, self.bases[i].height));
            }
            i += 1;
        }
        None
    }

    /// Registers the base pixel asset of an icon-type that has none yet:
    /// the one load-and-downsample per icon-type happens right before this.
    pub fn add_base(&mut self, b: BaseAsset)
        requires
            old(self).wf(),
            !old(self).spec_has_base(b.icon_type),
            spec_is_known_icon(b.icon_type),
            b.width <= 1000000,
            b.height <= 1000000,
        ensures
            final(self).wf(),
            final(self).bases@ == old(self).bases@.push(b),
            final(self).variants@ == old(self).variants@,
            forall|t: i32| #[trigger]
                final(self).spec_has_base(t) <==> (old(self).spec_has_base(t) || t == b.icon_type),
    {
        self.bases.push(b);
        proof {
            assert forall|t: i32| #[trigger]
                self.spec_has_base(t) <==> (old(self).spec_has_base(t) || t == b.icon_type) by {
                if old(self).spec_has_base(t) {
                    let i = choose|i: int|
                        0 <= i < old(self).bases@.len() && (#[trigger] old(self).bases@[i]).icon_type
                            == t;
                    assert(self.bases@[i].icon_type == t);
                }
                if t == b.icon_type {
                    assert(self.bases@[self.bases@.len() - 1].icon_type == t);
                }
                if self.spec_has_base(t) {
                    let i = choose|i: int|
                        0 <= i < self.bases@.len() && (#[trigger] self.bases@[i]).icon_type == t;
                    if i < old(self).bases@.len() {
                        assert(old(self).bases@[i].icon_type == t);
                    }
                }
            }
        }
    }

    /// Whether the variant keyed by `(t, team)` was already registered.
    pub fn has_variant(&self, t: i32, team: TeamId) -> (r: bool)
        ensures
            r == self.spec_has_variant(t, team),
    {
        let mut i: usize = 0;
        while i < self.variants.len()
            invariant
                i <= self.variants@.len(),
                forall|k: int|
                    0 <= k < i ==> !((#[trigger] self.variants@[k]).icon_type == t
                        && self.variants@[k].team == team),
            decreases self.variants@.len() - i,
        {
            if self.variants[i].icon_type == t && self.variants[i].team == team {
                return true;
            }
            i += 1;
        }
        false
    }

    /// Registers the variant keyed by `(t, tm)` unless it already exists.
    fn push_variant_if_missing(&mut self, t: i32, tm: TeamId)
        requires
            old(self).wf(),
            old(self).spec_has_base(t),
            spec_is_known_icon(t),
        ensures
            final(self).wf(),
            final(self).bases@ == old(self).bases@,
            old(self).variants@.is_prefix_of(final(self).variants@),
            forall|t2: i32, tm2: TeamId| #[trigger]
                final(self).spec_has_variant(t2, tm2) <==> (old(self).spec_has_variant(t2, tm2) || (t2
                    == t && tm2 == tm)),
    {
        let present = self.has_variant(t, tm);
        if !present {
            let f = filter_for(t, tm);
            self.variants.push(IconVariant { icon_type: t, team: tm, filter: f });
            proof {
                let n = self.variants@.len() - 1;
                assert forall|i: int, j: int| 0 <= i < j < self.variants@.len() implies !((
                #[trigger] self.variants@[i]).icon_type == (
                #[trigger] self.variants@[j]).icon_type && self.variants@[i].team
                    == self.variants@[j].team) by {
                    if j == n {
                        if self.variants@[i].icon_type == t && self.variants@[i].team == tm {
                            assert(old(self).variants@[i].icon_type == t && old(
                                self,
                            ).variants@[i].team == tm);
                            assert(old(self).spec_has_variant(t, tm));
                        }
                    }
                }
                assert forall|i: int| 0 <= i < self.variants@.len() implies self.spec_has_base(
                    (#[trigger] self.variants@[i]).icon_type,
                ) by {
                    if i < n {
                        assert(old(self).spec_has_base(old(self).variants@[i].icon_type));
                        let w = choose|w: int|
                            0 <= w < old(self).bases@.len() && (#[trigger] old(
                                self,
                            ).bases@[w]).icon_type == old(self).variants@[i].icon_type;
                        assert(self.bases@[w].icon_type == self.variants@[i].icon_type);
                    } else {
                        let w = choose|w: int|
                            0 <= w < old(self).bases@.len() && (#[trigger] old(
                                self,
                            ).bases@[w]).icon_type == t;
                        assert(self.bases@[w].icon_type == self.variants@[i].icon_type);
                    }
                }
            }
        }
        proof {
            assert forall|t2: i32, tm2: TeamId| #[trigger]
                self.spec_has_variant(t2, tm2) <==> (old(self).spec_has_variant(t2, tm2) || (t2
                    == t && tm2 == tm)) by {
                if old(self).spec_has_variant(t2, tm2) {
                    let i = choose|i: int|
                        0 <= i < old(self).variants@.len() && (#[trigger] old(
                            self,
                        ).variants@[i]).icon_type == t2 && old(self).variants@[i].team == tm2;
                    assert(self.variants@[i].icon_type == t2 && self.variants@[i].team == tm2);
                }
                if !present && t2 == t && tm2 == tm {
                    assert(self.variants@[self.variants@.len() - 1].icon_type == t2
                        && self.variants@[self.variants@.len() - 1].team == tm2);
                }
                if self.spec_has_variant(t2, tm2) {
                    let i = choose|i: int|
                        0 <= i < self.variants@.len() && (#[trigger] self.variants@[i]).icon_type
                            == t2 && self.variants@[i].team == tm2;
                    if i < old(self).variants@.len() {
                        assert(old(self).variants@[i].icon_type == t2 && old(
                            self,
                        ).variants@[i].team == tm2);
                    }
                }
            }
        }
    }

    /// Brings into being every variant the first (or any later) reference of
    /// an icon-type requires: the neutral variant alone for a faction-less
    /// reference, all three faction variants for an owned one.
    pub fn ensure_variants(&mut self, t: i32, trigger: TeamId)
        requires
            old(self).wf(),
            old(self).spec_has_base(t),
            spec_is_known_icon(t),
        ensures
            final(self).wf(),
            old(self).variants@.is_prefix_of(final(self).variants@),
            spec_variants_extended(*old(self), *final(self), t, trigger),
    {
        match trigger {
            TeamId::Nobody => {
                self.push_variant_if_missing(t, TeamId::Nobody);
            },
            _ => {
                self.push_variant_if_missing(t, TeamId::Nobody);
                self.push_variant_if_missing(t, TeamId::Wardens);
                self.push_variant_if_missing(t, TeamId::Colonials);
            },
        }
    }
}

/// LAW: for every icon-type, the atlas holds at most one base pixel asset —
/// any two base entries of one icon-type are the same entry. Together with
/// `add_base`'s precondition, a base is created on first reference only.
pub proof fn lemma_base_unique(atlas: IconAtlas, i: int, j: int)
    requires
        atlas.wf(),
        0 <= i < atlas.bases@.len(),
        0 <= j < atlas.bases@.len(),
        atlas.bases@[i].icon_type == atlas.bases@[j].icon_type,
    ensures
        i == j,
{
}

/// LAW: after the first reference of an icon-type, the number of its variants
/// is exact — three when the triggering instance is owned by either faction,
/// no matter which; one when it is faction-less.
pub proof fn lemma_first_reference_variant_count(
    pre: IconAtlas,
    post: IconAtlas,
    t: i32,
    trigger: TeamId,
)
    requires
        spec_variants_extended(pre, post, t, trigger),
        forall|tm: TeamId| !(#[trigger] pre.spec_has_variant(t, tm)),
    ensures
        trigger != TeamId::Nobody ==> post.spec_variant_count(t) == 3,
        trigger == TeamId::Nobody ==> post.spec_variant_count(t) == 1,
{
    assert(post.spec_has_variant(t, TeamId::Nobody) == (pre.spec_has_variant(t, TeamId::Nobody)
        || spec_required_team(trigger, TeamId::Nobody)));
    assert(post.spec_has_variant(t, TeamId::Wardens) == (pre.spec_has_variant(t, TeamId::Wardens)
        || spec_required_team(trigger, TeamId::Wardens)));
    assert(post.spec_has_variant(t, TeamId::Colonials) == (pre.spec_has_variant(
        t,
        TeamId::Colonials,
    ) || spec_required_team(trigger, TeamId::Colonials)));
}

/// A variant present in an atlas stays present in any atlas whose variant
/// list extends the first one's.
pub proof fn lemma_variant_persists(pre: IconAtlas, post: IconAtlas, t: i32, tm: TeamId)
    requires
        pre.variants@.is_prefix_of(post.variants@),
        pre.spec_has_variant(t, tm),
    ensures
        post.spec_has_variant(t, tm),
{
    let i = choose|i: int|
        0 <= i < pre.variants@.len() && (#[trigger] pre.variants@[i]).icon_type == t
            && pre.variants@[i].team == tm;
    assert(pre.variants@[i] == post.variants@.subrange(0, pre.variants@.len() as int)[i]);
    assert(post.variants@[i].icon_type == t && post.variants@[i].team == tm);
}

/// LAW: an icon-type never has more than three variants — one per faction
/// key — and never fewer than none.
pub proof fn lemma_variant_count_bounded(atlas: IconAtlas, t: i32)
    ensures
        0 <= atlas.spec_variant_count(t) <= 3,
{
}

/// LAW: a later reference of an icon-type never disturbs the variants of any
/// other icon-type, and never removes one of its own.
pub proof fn lemma_reference_monotone(
    pre: IconAtlas,
    post: IconAtlas,
    t: i32,
    trigger: TeamId,
    t2: i32,
    tm: TeamId,
)
    requires
        spec_variants_extended(pre, post, t, trigger),
    ensures
        pre.spec_has_variant(t2, tm) ==> post.spec_has_variant(t2, tm),
        t2 != t ==> (post.spec_has_variant(t2, tm) <==> pre.spec_has_variant(t2, tm)),
{
}

} // verus!
