//! The order in which the video and audio pickers list catalog records.
//!
//! Pickers hold records by their index in the catalog, so the catalog
//! itself is never reordered.

use vstd::prelude::*;
use crate::classify::video_only;
use crate::classify::audio_only;
use crate::infojson::Format;

verus! {

/// Picker policy: `true` lists muxed records (audio and video together) in
/// both pickers, `false` lists only video-only records in the video picker
/// and only audio-only records in the audio picker.
pub const MUXED_IN_PICKERS: bool = true;

/// Which of the two record pickers.
#[derive(Debug, Clone, Copy, PartialEq, Eq, Structural)]
pub enum Picker {
    /// Records with video, widest first.
    Video,
    /// Records with audio, highest sample rate first.
    Audio,
}

/// Whether the picker lists the record.
pub open spec fn pickable(kind: Picker, f: Format) -> bool {
    match kind {
        Picker::Video => if MUXED_IN_PICKERS { f.vcodec is Some } else { video_only(f) },
        Picker::Audio => if MUXED_IN_PICKERS { f.acodec is Some } else { audio_only(f) },
    }
}

/// An optional quantity as a sort key: absent ranks below every value.
pub open spec fn rank(o: Option<i64>) -> int {
    match o {
        Some(x) => x as int,
        None => i64::MIN as int - 1,
    }
}

/// The key that the picker sorts on, in descending order.
pub open spec fn sort_key(kind: Picker, f: Format) -> int {
    match kind {
        Picker::Video => rank(f.width),
        Picker::Audio => rank(f.asr),
    }
}

/// Record `a` of the catalog is listed before record `b`: its key is
/// larger, or the keys are equal and `a` comes first in the catalog.
pub open spec fn listed_before(kind: Picker, c: Seq<Format>, a: int, b: int) -> bool {
    sort_key(kind, c[a]) > sort_key(kind, c[b]) || (sort_key(kind, c[a]) == sort_key(kind, c[b])
        && a < b)
}

/// `r` lists exactly the pickable records of `c`, by index, each once, in
/// descending key order with ties in catalog order.
pub open spec fn is_picker_order(kind: Picker, c: Seq<Format>, r: Seq<usize>) -> bool {
    &&& forall|i: int| 0 <= i < r.len() ==> #[trigger] r[i] < c.len() && pickable(kind, c[r[i] as int])
    &&& forall|k: int| 0 <= k < c.len() && #[trigger] pickable(kind, c[k]) ==> r.contains(k as usize)
    &&& forall|i: int, j: int|
        0 <= i < j < r.len() ==> #[trigger] listed_before(kind, c, r[i] as int, r[j] as int)
}

fn rank_below(a: Option<i64>, b: Option<i64>) -> (r: bool)
    ensures
        r == (rank(a) < rank(b)),
{
    match (a, b) {
        (_, None) => false,
        (None, Some(_)) => true,
        (Some(x), Some(y)) => x < y,
    }
}

fn is_pickable(kind: Picker, f: &Format) -> (r: bool)
    ensures
        r == pickable(kind, *f),
{
    match kind {
        Picker::Video => if MUXED_IN_PICKERS {
            f.vcodec.is_some()
        } else {
            f.vcodec.is_some() && f.acodec.is_none()
        },
        Picker::Audio => if MUXED_IN_PICKERS {
            f.acodec.is_some()
        } else {
            f.acodec.is_some() && f.vcodec.is_none()
        },
    }
}

fn key_below(kind: Picker, f: &Format, g: &Format) -> (r: bool)
    ensures
        r == (sort_key(kind, *f) < sort_key(kind, *g)),
{
    match kind {
        Picker::Video => rank_below(f.width, g.width),
        Picker::Audio => rank_below(f.asr, g.asr),
    }
}

/// The indices of the records that the picker lists, in the order it lists
/// them: a stable sort of the pickable records on a descending key.
pub fn picker_order(formats: &Vec<Format>, kind: Picker) -> (r: Vec<usize>)
    ensures
        is_picker_order(kind, formats@, r@),
{
    let ghost c = formats@;
    let mut r: Vec<usize> = Vec::new();
    let mut k: usize = 0;
    while k < formats.len()
        invariant
            c == formats@,
            k <= c.len(),
            forall|i: int| 0 <= i < r@.len() ==> #[trigger] r@[i] < k && pickable(kind, c[r@[i] as int]),
            forall|m: int| 0 <= m < k && #[trigger] pickable(kind, c[m]) ==> r@.contains(m as usize),
            forall|i: int, j: int|
                0 <= i < j < r@.len() ==> #[trigger] listed_before(kind, c, r@[i] as int, r@[j] as int),
        decreases c.len() - k,
    {
        if is_pickable(kind, &formats[k]) {
            let mut p: usize = 0;
            while p < r.len() && !key_below(kind, &formats[r[p]], &formats[k])
                invariant
                    c == formats@,
                    k < c.len(),
                    p <= r@.len(),
                    forall|i: int| 0 <= i < r@.len() ==> #[trigger] r@[i] < k,
                    forall|i: int| 0 <= i < p ==> sort_key(kind, c[#[trigger] r@[i] as int]) >= sort_key(kind, c[k as int]),
                decreases r@.len() - p,
            {
                p = p + 1;
            }
            let ghost old_r = r@;
            r.insert(p, k);
            assert forall|i: int, j: int| 0 <= i < j < r@.len() implies #[trigger] listed_before(kind, c, r@[i] as int, r@[j] as int) by {
                if j < p {
                    assert(listed_before(kind, c, old_r[i] as int, old_r[j] as int));
                } else if j == p {
                    assert(r@[i] == old_r[i]);
                } else if i < p {
                    assert(listed_before(kind, c, old_r[i] as int, old_r[j - 1] as int));
                } else if i == p {
                    assert(r@[j] == old_r[j - 1]);
                    if j - 1 > p {
                        assert(listed_before(kind, c, old_r[p as int] as int, old_r[j - 1] as int));
                    }
                } else {
                    assert(listed_before(kind, c, old_r[i - 1] as int, old_r[j - 1] as int));
                }
            }
            assert forall|m: int| 0 <= m < k + 1 && #[trigger] pickable(kind, c[m]) implies r@.contains(m as usize) by {
                if m < k {
                    assert(old_r.contains(m as usize));
                    let w = choose|w: int| 0 <= w < old_r.len() && old_r[w] == m as usize;
                    if w < p {
                        assert(r@[w] == m as usize);
                    } else {
                        assert(r@[w + 1] == m as usize);
                    }
                } else {
                    assert(r@[p as int] == k);
                }
            }
            assert forall|i: int| 0 <= i < r@.len() implies #[trigger] r@[i] < k + 1 && pickable(kind, c[r@[i] as int]) by {
                if i < p {
                    assert(r@[i] == old_r[i]);
                } else if i > p {
                    assert(r@[i] == old_r[i - 1]);
                }
            }
        }
        k = k + 1;
    }
    r
}

/// The video picker's records, widest first.
pub fn video_choices(formats: &Vec<Format>) -> (r: Vec<usize>)
    ensures
        is_picker_order(Picker::Video, formats@, r@),
{
    picker_order(formats, Picker::Video)
}

/// The audio picker's records, highest sample rate first.
pub fn audio_choices(formats: &Vec<Format>) -> (r: Vec<usize>)
    ensures
        is_picker_order(Picker::Audio, formats@, r@),
{
    picker_order(formats, Picker::Audio)
}

} // verus!
