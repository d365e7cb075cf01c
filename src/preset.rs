//! The preset menu: which presets a catalog offers, in which order, and
//! where the cursor starts.

use vstd::prelude::*;
use crate::classify::{audio_only, video_only, has_audio_only, has_video_only, music_like, has_audio_only_variant, has_video_only_variant, is_music_like};
use crate::infojson::{Format, InfoJson};

verus! {

/// A named strategy for choosing the formats to download.
#[derive(Debug, Clone, Copy, PartialEq, Eq, Structural)]
pub enum Preset {
    /// A selector typed in by hand.
    Manual,
    /// A video record and, where it has no audio, an audio record, picked from the catalog.
    Custom,
    /// The downloader's own best choice of video and audio.
    Best,
    /// The best audio-only stream.
    BestAudio,
    /// The best video-only stream.
    BestVideo,
}

/// The presets offered, in menu order: manual, custom and best always; then
/// best audio when an audio-only variant exists and best video when a
/// video-only one does, audio first for music and video first otherwise.
pub open spec fn preset_order(audio_only: bool, video_only: bool, music: bool) -> Seq<Preset> {
    let head = seq![Preset::Manual, Preset::Custom, Preset::Best];
    let a = if audio_only { seq![Preset::BestAudio] } else { Seq::<Preset>::empty() };
    let v = if video_only { seq![Preset::BestVideo] } else { Seq::<Preset>::empty() };
    if music { head + a + v } else { head + v + a }
}

/// Where the menu's cursor starts: on best audio for music that offers it,
/// on best otherwise.
pub open spec fn default_cursor(audio_only: bool, music: bool) -> usize {
    if music && audio_only { 3 } else { 2 }
}

/// The presets that a catalog offers, in any order.
pub open spec fn offerable(c: Seq<Format>) -> Set<Preset> {
    preset_order(has_audio_only(c), has_video_only(c), false).to_set()
}

/// Adding a record to a catalog never takes a preset off the menu, whether
/// or not either catalog is music.
pub proof fn lemma_offerable_monotonic(c: Seq<Format>, f: Format, music: bool, richer_music: bool)
    ensures
        offerable(c).subset_of(offerable(c.push(f))),
        forall|p: Preset|
            preset_order(has_audio_only(c), has_video_only(c), music).contains(p)
                ==> #[trigger] preset_order(has_audio_only(c.push(f)), has_video_only(c.push(f)), richer_music).contains(p),
{
    let d = c.push(f);
    if has_audio_only(c) {
        let i = choose|i: int| 0 <= i < c.len() && #[trigger] audio_only(c[i]);
        assert(d[i] == c[i]);
    }
    if has_video_only(c) {
        let i = choose|i: int| 0 <= i < c.len() && #[trigger] video_only(c[i]);
        assert(d[i] == c[i]);
    }
    lemma_order_is_permutation(has_audio_only(c), has_video_only(c), music);
    lemma_order_is_permutation(has_audio_only(d), has_video_only(d), richer_music);
}

/// Music changes the menu's order, never its contents: best audio is on it
/// exactly when an audio-only variant exists, best video exactly when a
/// video-only one does, and manual, custom and best always.
pub proof fn lemma_order_is_permutation(audio_only: bool, video_only: bool, music: bool)
    ensures
        preset_order(audio_only, video_only, music).to_set() == preset_order(audio_only, video_only, !music).to_set(),
        forall|p: Preset| #[trigger] preset_order(audio_only, video_only, music).contains(p) <==> match p {
            Preset::BestAudio => audio_only,
            Preset::BestVideo => video_only,
            _ => true,
        },
{
    let s = preset_order(audio_only, video_only, music);
    let t = preset_order(audio_only, video_only, !music);
    assert forall|p: Preset| #[trigger] s.contains(p) <==> match p {
        Preset::BestAudio => audio_only,
        Preset::BestVideo => video_only,
        _ => true,
    } by {
        match p {
            Preset::Manual => assert(s[0] == p),
            Preset::Custom => assert(s[1] == p),
            Preset::Best => assert(s[2] == p),
            Preset::BestAudio => {
                if audio_only {
                    if music || !video_only { assert(s[3] == p); } else { assert(s[4] == p); }
                }
            },
            Preset::BestVideo => {
                if video_only {
                    if !music || !audio_only { assert(s[3] == p); } else { assert(s[4] == p); }
                }
            },
        }
    }
    assert forall|p: Preset| #[trigger] t.contains(p) <==> match p {
        Preset::BestAudio => audio_only,
        Preset::BestVideo => video_only,
        _ => true,
    } by {
        match p {
            Preset::Manual => assert(t[0] == p),
            Preset::Custom => assert(t[1] == p),
            Preset::Best => assert(t[2] == p),
            Preset::BestAudio => {
                if audio_only {
                    if !music || !video_only { assert(t[3] == p); } else { assert(t[4] == p); }
                }
            },
            Preset::BestVideo => {
                if video_only {
                    if music || !audio_only { assert(t[3] == p); } else { assert(t[4] == p); }
                }
            },
        }
    }
    assert(s.to_set() =~= t.to_set());
}

/// The ordered preset menu and its starting cursor, from the classifier's flags.
pub fn resolve_presets(has_audio_only_variant: bool, has_video_only_variant: bool, music: bool) -> (r: (Vec<Preset>, usize))
    ensures
        r.0@ == preset_order(has_audio_only_variant, has_video_only_variant, music),
        r.1 == default_cursor(has_audio_only_variant, music),
        r.1 < r.0@.len(),
        r.0@[r.1 as int] == (if music && has_audio_only_variant { Preset::BestAudio } else { Preset::Best }),
{
    let mut v: Vec<Preset> = Vec::new();
    v.push(Preset::Manual);
    v.push(Preset::Custom);
    v.push(Preset::Best);
    if music {
        if has_audio_only_variant {
            v.push(Preset::BestAudio);
        }
        if has_video_only_variant {
            v.push(Preset::BestVideo);
        }
    } else {
        if has_video_only_variant {
            v.push(Preset::BestVideo);
        }
        if has_audio_only_variant {
            v.push(Preset::BestAudio);
        }
    }
    let cursor: usize = if music && has_audio_only_variant { 3 } else { 2 };
    assert(v@ =~= preset_order(has_audio_only_variant, has_video_only_variant, music));
    (v, cursor)
}

/// The preset menu of a media item and its starting cursor.
pub fn offered_presets(info: &InfoJson) -> (r: (Vec<Preset>, usize))
    ensures
        r.0@ == preset_order(has_audio_only(info.formats@), has_video_only(info.formats@), music_like(*info)),
        r.1 == default_cursor(has_audio_only(info.formats@), music_like(*info)),
{
    let a = has_audio_only_variant(&info.formats);
    let v = has_video_only_variant(&info.formats);
    let m = is_music_like(info);
    resolve_presets(a, v, m)
}

} // verus!
