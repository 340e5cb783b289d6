//! The loaded animation asset: the immutable artifact derived from one
//! sprite sheet.
//!
//! It keeps the per-frame durations, the common frame dimensions, and a
//! table from tag name to derived [`Timeline`].  The table preserves the
//! declaration order of the tags; on duplicate tag names a later definition
//! silently replaces an earlier one, which lookup realises by searching from
//! the most recent entry backwards.

use vstd::prelude::*;

use crate::sheet::ParsedSheet;
use crate::timeline::{sum_range, EmptyTagError, Timeline};

verus! {

/// One entry of the animation table: a tag name and the timeline derived
/// from that tag.
#[derive(Clone, Debug, PartialEq)]
pub struct NamedTimeline {
    /// The tag name under which the timeline is looked up.
    pub name: String,
    /// The derived timeline.
    pub timeline: Timeline,
}

/// The timeline registered under `name`, with later entries replacing
/// earlier ones on duplicate names.
pub open spec fn lookup_spec(s: Seq<NamedTimeline>, name: Seq<char>) -> Option<Timeline>
    decreases s.len(),
{
    if s.len() == 0 {
        None
    } else if s.last().name@ == name {
        Some(s.last().timeline)
    } else {
        lookup_spec(s.drop_last(), name)
    }
}

/// A successful lookup returns one of the table's own entries, so whatever
/// holds of every entry holds of the result.
pub proof fn lemma_lookup_in_table(s: Seq<NamedTimeline>, name: Seq<char>)
    ensures
        match lookup_spec(s, name) {
            Some(tl) => exists|i: int| 0 <= i < s.len() && (#[trigger] s[i]).timeline == tl,
            None => true,
        },
    decreases s.len(),
{
    if s.len() > 0 && s.last().name@ != name {
        lemma_lookup_in_table(s.drop_last(), name);
    }
}

/// The loaded, immutable animation asset: frame dimensions, per-frame
/// display durations, and the tag-name → timeline table.
///
/// The packed atlas image and the per-frame atlas regions live with the
/// host's renderer; a frame index produced here selects the region of the
/// same index in that table.
#[derive(Clone, Debug, PartialEq)]
pub struct AnimationAsset {
    /// Width in pixels of one frame.
    pub frame_width: u32,
    /// Height in pixels of one frame.
    pub frame_height: u32,
    /// Display durations of all frames of the sheet, in frame order.
    pub durations: Vec<u32>,
    /// The animation table, in tag declaration order.
    pub anims: Vec<NamedTimeline>,
}

impl AnimationAsset {
    /// Well-formedness: every timeline of the table is well-formed and
    /// references only frames of this sheet, so every frame index it can
    /// produce has an entry in the host's atlas region table.
    pub open spec fn wf(self) -> bool {
        forall|i: int|
            0 <= i < self.anims@.len() ==> {
                &&& (#[trigger] self.anims@[i]).timeline.wf()
                &&& self.anims@[i].timeline.to < self.durations@.len()
            }
    }

    /// Look up the timeline registered under `name`.  On duplicate tag
    /// names the latest registration wins.
    pub fn get(&self, name: &String) -> (r: Option<&Timeline>)
        ensures
            match r {
                Some(tl) => lookup_spec(self.anims@, name@) == Some(*tl),
                None => lookup_spec(self.anims@, name@) is None,
            },
    {
        proof {
            assert(self.anims@.subrange(0, self.anims@.len() as int) =~= self.anims@);
        }
        let mut j = self.anims.len();
        while j > 0
            invariant
                j <= self.anims@.len(),
                lookup_spec(self.anims@, name@) == lookup_spec(
                    self.anims@.subrange(0, j as int),
                    name@,
                ),
            decreases j,
        {
            j = j - 1;
            proof {
                assert(self.anims@.subrange(0, j + 1).drop_last() =~= self.anims@.subrange(
                    0,
                    j as int,
                ));
                assert(self.anims@.subrange(0, j + 1).last() == self.anims@[j as int]);
            }
            if self.anims[j].name == *name {
                return Some(&self.anims[j].timeline);
            }
        }
        None
    }
}

/// Build the animation table of a decoded sheet: for each tag, in order,
/// derive its timeline from the frame durations of the sheet.
///
/// Fails with [`EmptyTagError`] exactly when some tag's durations sum to
/// zero — such a tag could never be sampled, so it is rejected here at build
/// time, and sampling itself stays total.
pub fn build_asset(sheet: &ParsedSheet) -> (r: Result<AnimationAsset, EmptyTagError>)
    requires
        sheet.wf(),
    ensures
        match r {
            Ok(a) => {
                &&& a.wf()
                &&& a.frame_width == sheet.width
                &&& a.frame_height == sheet.height
                &&& a.durations@ == sheet.durations@
                &&& a.anims@.len() == sheet.tags@.len()
                &&& (forall|i: int|
                    0 <= i < sheet.tags@.len() ==> {
                        let e = #[trigger] a.anims@[i];
                        let t = sheet.tags@[i];
                        &&& e.name@ == t.name@
                        &&& e.timeline.wf()
                        &&& e.timeline.from == t.from
                        &&& e.timeline.to == t.to
                        &&& e.timeline.total_ms == sum_range(
                            sheet.durations@,
                            t.from as int,
                            t.to + 1,
                        )
                        &&& (forall|k: int|
                            0 <= k < e.timeline.intervals() ==> #[trigger] e.timeline.width(k)
                                == sheet.durations@[t.from + k])
                    })
            },
            Err(_) => true,
        },
        (r is Err) <==> (exists|i: int|
            0 <= i < sheet.tags@.len() && sum_range(
                sheet.durations@,
                (#[trigger] sheet.tags@[i]).from as int,
                sheet.tags@[i].to + 1,
            ) == 0),
{
    let mut durations: Vec<u32> = Vec::new();
    let mut d: usize = 0;
    while d < sheet.durations.len()
        invariant
            d <= sheet.durations@.len(),
            durations@.len() == d,
            forall|j: int| 0 <= j < d ==> #[trigger] durations@[j] == sheet.durations@[j],
        decreases sheet.durations@.len() - d,
    {
        durations.push(sheet.durations[d]);
        d = d + 1;
    }
    proof {
        assert(durations@ =~= sheet.durations@);
    }
    let mut anims: Vec<NamedTimeline> = Vec::new();
    let mut i: usize = 0;
    while i < sheet.tags.len()
        invariant
            sheet.wf(),
            durations@ == sheet.durations@,
            i <= sheet.tags@.len(),
            anims@.len() == i,
            forall|j: int|
                0 <= j < i ==> {
                    let e = #[trigger] anims@[j];
                    let t = sheet.tags@[j];
                    &&& e.name@ == t.name@
                    &&& e.timeline.wf()
                    &&& e.timeline.from == t.from
                    &&& e.timeline.to == t.to
                    &&& e.timeline.total_ms == sum_range(
                        sheet.durations@,
                        t.from as int,
                        t.to + 1,
                    )
                    &&& (forall|k: int|
                        0 <= k < e.timeline.intervals() ==> #[trigger] e.timeline.width(k)
                            == sheet.durations@[t.from + k])
                },
        decreases sheet.tags@.len() - i,
    {
        let t_from = sheet.tags[i].from;
        let t_to = sheet.tags[i].to;
        match Timeline::build(&durations, t_from, t_to) {
            Ok(tl) => {
                let name = sheet.tags[i].name.clone();
                anims.push(NamedTimeline { name, timeline: tl });
            },
            Err(e) => {
                return Err(e);
            },
        }
        i = i + 1;
    }
    let a = AnimationAsset {
        frame_width: sheet.width,
        frame_height: sheet.height,
        durations,
        anims,
    };
    proof {
        assert forall|j: int| 0 <= j < sheet.tags@.len() implies sum_range(
            sheet.durations@,
            (#[trigger] sheet.tags@[j]).from as int,
            sheet.tags@[j].to + 1,
        ) > 0 by {
            assert(a.anims@[j].timeline.wf());
        }
    }
    Ok(a)
}

/// Law: sampling never fails.  Every timeline an asset can hand out is
/// defined at every fraction of its loop — some interval contains the
/// fraction, and by [`Timeline::lemma_interval_unique`] exactly one — so a
/// degenerate tag is rejected when the table is built, never at sample
/// time, and the per-tick sampler is a total function from progress and
/// selected tag to a frame index.
pub proof fn lemma_sampling_total(a: AnimationAsset, name: Seq<char>, num: int, den: int)
    requires
        a.wf(),
        0 < den,
        0 <= num < den,
    ensures
        match lookup_spec(a.anims@, name) {
            Some(tl) => exists|k: int| 0 <= k < tl.intervals() && tl.contains(k, num, den),
            None => true,
        },
{
    lemma_lookup_in_table(a.anims@, name);
    match lookup_spec(a.anims@, name) {
        Some(tl) => {
            assert(tl.wf());
            tl.lemma_interval_exists(num, den);
        },
        None => {},
    }
}

} // verus!
