//! Predicates that sort catalog records into audio-only, video-only and
//! muxed variants, and that recognize music.

use vstd::prelude::*;
use crate::infojson::{Format, InfoJson};
use crate::text::{eq_ascii_fold, eq_ignore_ascii_case};

verus! {

/// The record carries audio and no video.
pub open spec fn audio_only(f: Format) -> bool {
    f.acodec is Some && f.vcodec is None
}

/// The record carries video and no audio.
pub open spec fn video_only(f: Format) -> bool {
    f.vcodec is Some && f.acodec is None
}

/// Some record of the catalog is audio-only.
pub open spec fn has_audio_only(c: Seq<Format>) -> bool {
    exists|i: int| 0 <= i < c.len() && #[trigger] audio_only(c[i])
}

/// Some record of the catalog is video-only.
pub open spec fn has_video_only(c: Seq<Format>) -> bool {
    exists|i: int| 0 <= i < c.len() && #[trigger] video_only(c[i])
}

/// The category that marks music.
pub open spec fn music_word() -> Seq<char> {
    seq!['m', 'u', 's', 'i', 'c']
}

/// One of the item's categories is "music", in any ASCII case.
pub open spec fn music_like(info: InfoJson) -> bool {
    match info.categories {
        Some(cats) => names_music(cats@),
        None => false,
    }
}

/// One of the categories is "music", in any ASCII case.
pub open spec fn names_music(cats: Seq<String>) -> bool {
    exists|i: int| 0 <= i < cats.len() && #[trigger] eq_ascii_fold(cats[i]@, music_word())
}

pub fn is_audio_only(f: &Format) -> (r: bool)
    ensures
        r == audio_only(*f),
{
    f.acodec.is_some() && f.vcodec.is_none()
}

pub fn is_video_only(f: &Format) -> (r: bool)
    ensures
        r == video_only(*f),
{
    f.vcodec.is_some() && f.acodec.is_none()
}

pub fn has_audio_only_variant(formats: &Vec<Format>) -> (r: bool)
    ensures
        r == has_audio_only(formats@),
{
    let mut i: usize = 0;
    while i < formats.len()
        invariant
            i <= formats@.len(),
            forall|k: int| 0 <= k < i ==> !#[trigger] audio_only(formats@[k]),
        decreases formats@.len() - i,
    {
        if is_audio_only(&formats[i]) {
            return true;
        }
        i = i + 1;
    }
    false
}

pub fn has_video_only_variant(formats: &Vec<Format>) -> (r: bool)
    ensures
        r == has_video_only(formats@),
{
    let mut i: usize = 0;
    while i < formats.len()
        invariant
            i <= formats@.len(),
            forall|k: int| 0 <= k < i ==> !#[trigger] video_only(formats@[k]),
        decreases formats@.len() - i,
    {
        if is_video_only(&formats[i]) {
            return true;
        }
        i = i + 1;
    }
    false
}

pub fn is_music_like(info: &InfoJson) -> (r: bool)
    ensures
        r == music_like(*info),
{
    match &info.categories {
        Some(cats) => {
            proof {
                reveal_strlit("music");
            }
            assert("music"@ == music_word());
            let mut i: usize = 0;
            while i < cats.len()
                invariant
                    i <= cats@.len(),
                    info.categories == Some(*cats),
                    "music"@ == music_word(),
                    forall|k: int| 0 <= k < i ==> !#[trigger] eq_ascii_fold(cats@[k]@, music_word()),
                decreases cats@.len() - i,
            {
                if eq_ignore_ascii_case(cats[i].as_str(), "music") {
                    assert(eq_ascii_fold(cats@[i as int]@, music_word()));
                    return true;
                }
                i = i + 1;
            }
            false
        },
        None => false,
    }
}

} // verus!
