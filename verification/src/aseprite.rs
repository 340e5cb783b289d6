//! The container parser: turning a decoded sprite-sheet file into the plain
//! [`ParsedSheet`] model, with bounds-checked tags.
//!
//! Byte-level decoding is the outside `asefile` crate's job and happens at
//! the host's loading edge, where a crash of the decoder on hostile bytes
//! can be contained; what arrives here is the decoded file value.  Its
//! content is modelled by uninterpreted functions — frame durations, canvas
//! dimensions and declared tags — and each accessor used here is a small
//! trusted wrapper whose contract speaks over that model and whose
//! precondition keeps it off the decoder's out-of-range panics.  Everything
//! past the accessors, that is assembling the sheet and validating the tag
//! ranges against the frame count, is verified: see [`build_sheet`] for the
//! exact contract.

use vstd::prelude::*;

use crate::sheet::{ParsedSheet, Tag};

verus! {

#[verifier::external_type_specification]
#[verifier::external_body]
pub struct ExAsepriteFile(asefile::AsepriteFile);

/// The display durations in milliseconds of a decoded file's frames, in
/// frame order.
pub uninterp spec fn ase_durations(f: asefile::AsepriteFile) -> Seq<u32>;

/// The canvas width in pixels of a decoded file; every frame has it.
pub uninterp spec fn ase_width(f: asefile::AsepriteFile) -> nat;

/// The canvas height in pixels of a decoded file; every frame has it.
pub uninterp spec fn ase_height(f: asefile::AsepriteFile) -> nat;

/// The tags of a decoded file, in declaration order, each as its name and
/// its inclusive frame-index range `(name, from, to)`.
pub uninterp spec fn ase_tags(f: asefile::AsepriteFile) -> Seq<(Seq<char>, u32, u32)>;

/// Why a sprite-sheet container failed to become a sheet.
#[derive(Clone, Debug, PartialEq)]
pub enum ParseError {
    /// The decoder rejected the bytes — bad magic number, unsupported
    /// feature, truncated input, or a crash of the decoder contained at the
    /// loading edge; the string is the description.  Raised by the host's
    /// loader, which runs the decoder.
    Decode(String),
    /// The tag at `index` references frames that do not exist: its range is
    /// not a valid inclusive range within the frame list.
    TagOutOfBounds {
        /// Position of the offending tag in declaration order.
        index: usize,
    },
}

/// Tag `i` of the decoded file references only existing frames.
pub open spec fn tag_in_bounds(f: asefile::AsepriteFile, i: int) -> bool {
    &&& ase_tags(f)[i].1 <= ase_tags(f)[i].2
    &&& (ase_tags(f)[i].2 as int) < ase_durations(f).len()
}

/// Relies on `asefile::AsepriteFile::num_frames`: the number of decoded
/// frames, each of which has a display duration.
#[verifier::external_body]
fn ase_frame_count(f: &asefile::AsepriteFile) -> (n: u32)
    ensures
        n as int == ase_durations(*f).len(),
{
    f.num_frames()
}

/// Relies on `asefile::Frame::duration`: the display duration in
/// milliseconds of frame `i`.  `asefile` panics on an out-of-range frame
/// index, which the precondition rules out.
#[verifier::external_body]
fn ase_frame_duration(f: &asefile::AsepriteFile, i: u32) -> (d: u32)
    requires
        (i as int) < ase_durations(*f).len(),
    ensures
        d == ase_durations(*f)[i as int],
{
    f.frame(i).duration()
}

/// Relies on `asefile::AsepriteFile::width`, a 16-bit header field, so at
/// most 65535.
#[verifier::external_body]
fn ase_width_px(f: &asefile::AsepriteFile) -> (w: usize)
    ensures
        w == ase_width(*f),
        w <= 0xFFFF,
{
    f.width()
}

/// Relies on `asefile::AsepriteFile::height`, a 16-bit header field, so at
/// most 65535.
#[verifier::external_body]
fn ase_height_px(f: &asefile::AsepriteFile) -> (h: usize)
    ensures
        h == ase_height(*f),
        h <= 0xFFFF,
{
    f.height()
}

/// Relies on `asefile::AsepriteFile::num_tags`.
#[verifier::external_body]
fn ase_tag_count(f: &asefile::AsepriteFile) -> (n: u32)
    ensures
        n as int == ase_tags(*f).len(),
{
    f.num_tags()
}

/// Relies on `asefile::Tag::name`: the name of tag `i`.  `asefile` panics
/// on an out-of-range tag index, which the precondition rules out.
#[verifier::external_body]
fn ase_tag_name(f: &asefile::AsepriteFile, i: u32) -> (s: String)
    requires
        (i as int) < ase_tags(*f).len(),
    ensures
        s@ == ase_tags(*f)[i as int].0,
{
    f.tag(i).name().to_owned()
}

/// Relies on `asefile::Tag::from_frame`: the first frame index of tag `i`.
/// `asefile` panics on an out-of-range tag index, which the precondition
/// rules out.
#[verifier::external_body]
fn ase_tag_from(f: &asefile::AsepriteFile, i: u32) -> (r: u32)
    requires
        (i as int) < ase_tags(*f).len(),
    ensures
        r == ase_tags(*f)[i as int].1,
{
    f.tag(i).from_frame()
}

/// Relies on `asefile::Tag::to_frame`: the last frame index of tag `i`
/// (inclusive).  `asefile` panics on an out-of-range tag index, which the
/// precondition rules out.
#[verifier::external_body]
fn ase_tag_to(f: &asefile::AsepriteFile, i: u32) -> (r: u32)
    requires
        (i as int) < ase_tags(*f).len(),
    ensures
        r == ase_tags(*f)[i as int].2,
{
    f.tag(i).to_frame()
}

/// The file extensions the sprite-sheet loader answers for.
pub fn extensions() -> (r: [&'static str; 2])
    ensures
        r@[0]@ == "ase"@,
        r@[1]@ == "aseprite"@,
{
    ["ase", "aseprite"]
}

/// Parse a decoded file into the plain sheet model, validating every tag's
/// frame range against the frame count.
///
/// The container format does not itself guarantee that tags reference
/// existing frames — the range is two raw 16-bit fields — so this check is
/// what makes the sheet's well-formedness hold.  Succeeds if and only if
/// every tag is in bounds; otherwise reports the first tag that is not.
pub fn build_sheet(f: &asefile::AsepriteFile) -> (r: Result<ParsedSheet, ParseError>)
    ensures
        match r {
            Ok(s) => {
                &&& s.wf()
                &&& s.width == ase_width(*f)
                &&& s.height == ase_height(*f)
                &&& s.durations@ == ase_durations(*f)
                &&& s.tags@.len() == ase_tags(*f).len()
                &&& (forall|i: int|
                    0 <= i < s.tags@.len() ==> {
                        &&& (#[trigger] s.tags@[i]).name@ == ase_tags(*f)[i].0
                        &&& s.tags@[i].from == ase_tags(*f)[i].1
                        &&& s.tags@[i].to == ase_tags(*f)[i].2
                    })
                &&& (forall|i: int| 0 <= i < ase_tags(*f).len() ==> tag_in_bounds(*f, i))
            },
            Err(e) => e matches ParseError::TagOutOfBounds { index } && {
                &&& index < ase_tags(*f).len()
                &&& !tag_in_bounds(*f, index as int)
                &&& (forall|j: int| 0 <= j < index ==> tag_in_bounds(*f, j))
            },
        },
        (r is Err) <==> (exists|i: int| 0 <= i < ase_tags(*f).len() && !tag_in_bounds(*f, i)),
{
    let n = ase_frame_count(f);
    let width_px = ase_width_px(f);
    let height_px = ase_height_px(f);
    let width = width_px as u32;
    let height = height_px as u32;
    let mut durations: Vec<u32> = Vec::new();
    let mut i: u32 = 0;
    while i < n
        invariant
            n as int == ase_durations(*f).len(),
            i <= n,
            durations@.len() == i,
            forall|j: int| 0 <= j < i ==> #[trigger] durations@[j] == ase_durations(*f)[j],
        decreases n - i,
    {
        let d = ase_frame_duration(f, i);
        durations.push(d);
        i = i + 1;
    }
    proof {
        assert(durations@ =~= ase_durations(*f));
    }
    let tag_n = ase_tag_count(f);
    let mut tags: Vec<Tag> = Vec::new();
    let mut t: u32 = 0;
    while t < tag_n
        invariant
            n as int == ase_durations(*f).len(),
            tag_n as int == ase_tags(*f).len(),
            t <= tag_n,
            tags@.len() == t,
            forall|j: int|
                0 <= j < t ==> {
                    &&& (#[trigger] tags@[j]).name@ == ase_tags(*f)[j].0
                    &&& tags@[j].from == ase_tags(*f)[j].1
                    &&& tags@[j].to == ase_tags(*f)[j].2
                    &&& tag_in_bounds(*f, j)
                },
        decreases tag_n - t,
    {
        let from = ase_tag_from(f, t);
        let to = ase_tag_to(f, t);
        if !(from <= to && to < n) {
            proof {
                assert(!tag_in_bounds(*f, t as int));
                assert forall|j: int| 0 <= j < t implies tag_in_bounds(*f, j) by {
                    assert(tags@[j].from == ase_tags(*f)[j].1);
                }
            }
            return Err(ParseError::TagOutOfBounds { index: t as usize });
        }
        let name = ase_tag_name(f, t);
        tags.push(Tag { name, from: from as usize, to: to as usize });
        t = t + 1;
    }
    proof {
        assert forall|j: int| 0 <= j < ase_tags(*f).len() implies tag_in_bounds(*f, j) by {
            assert(tags@[j].from == ase_tags(*f)[j].1);
        }
    }
    Ok(ParsedSheet { width, height, durations, tags })
}

} // verus!
