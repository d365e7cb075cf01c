//! The selection flow: a sequence of prompts (preset, video pick, audio
//! pick or typed selector, title, thumbnail, chapters, subtitles, sponsor
//! segments) that ends in a `SelectionResult`, or is cancelled.
//!
//! The flow does no I/O itself. `Flow::prompt` says what to ask next and
//! `Flow::advance` takes the answer and gives the next state, so whoever
//! runs the prompts drives the flow one step at a time.

use vstd::prelude::*;
use crate::classify::{has_audio_only, has_video_only, music_like};
use crate::command::{texts, SelectionResult};
use crate::infojson::{InfoJson, Subtitles};
use crate::picker::{is_picker_order, pickable, video_choices, audio_choices, Picker};
use crate::preset::{default_cursor, offered_presets, preset_order, Preset};
use crate::text::{eq_ascii_fold, eq_ignore_ascii_case};

verus! {

/// The prompt the flow waits on.
#[derive(Debug, Clone, Copy, PartialEq, Eq, Structural)]
pub enum Stage {
    Preset,
    Video,
    Audio,
    ManualFormat,
    Title,
    Thumbnail,
    Chapters,
    Subtitles,
    Sponsor,
    Complete,
}

/// An answer to a prompt, or its cancellation.
pub enum Answer {
    /// The user interrupted the prompt.
    Cancelled,
    /// A preset from the menu.
    Preset(Preset),
    /// A catalog record, by index.
    Pick(usize),
    /// Free text.
    Text(String),
    /// Yes or no.
    Confirm(bool),
    /// Subtitle languages, by index into the descriptor's subtitle list.
    Languages(Vec<usize>),
}

/// Why the flow ended without a selection.
#[derive(Debug, Clone, Copy, PartialEq, Eq, Structural)]
pub enum FlowError {
    /// The user cancelled a prompt: nothing is to be downloaded.
    Aborted,
    /// An answer that the current prompt does not take.
    Selection,
}

/// What the flow asks next, with the prompt's choices and default.
pub enum Prompt {
    /// The preset menu and the entry the cursor starts on.
    Preset { menu: Vec<Preset>, cursor: usize },
    /// The video picker's records, by catalog index, in order.
    Video { choices: Vec<usize> },
    /// The audio picker's records, by catalog index, in order.
    Audio { choices: Vec<usize> },
    /// A typed stream selector.
    ManualFormat,
    /// The output title, starting from `initial`.
    Title { initial: String },
    /// Whether to embed the thumbnail.
    Thumbnail { default: bool },
    /// Whether to embed chapters.
    Chapters { default: bool },
    /// Which subtitle languages to embed, by index into the subtitle list.
    Subtitles { languages: Vec<usize> },
    /// Whether to cut sponsor segments out (default no; this re-encodes).
    Sponsor,
    /// Nothing: the selection is complete.
    Done,
}

/// The state of a selection in progress.
pub struct Flow {
    pub stage: Stage,
    pub preset: Preset,
    pub formats: Vec<String>,
    pub title: String,
    pub embed_thumbnail: bool,
    pub embed_chapters: bool,
    pub embed_subtitles: Option<Vec<String>>,
    pub sponsorblock_remove: bool,
}

/// The selector token that a preset stands for, where it is one.
pub open spec fn preset_token(p: Preset) -> Option<Seq<char>> {
    match p {
        Preset::Best => Some("bv*+ba/b"@),
        Preset::BestAudio => Some("bestaudio"@),
        Preset::BestVideo => Some("bestvideo"@),
        _ => None,
    }
}

/// The stage that follows the choice of a preset.
pub open spec fn stage_after_preset(p: Preset) -> Stage {
    match p {
        Preset::Custom => Stage::Video,
        Preset::Manual => Stage::ManualFormat,
        _ => Stage::Title,
    }
}

/// The extractor that sponsor segment removal works with.
pub open spec fn youtube_word() -> Seq<char> {
    seq!['y', 'o', 'u', 't', 'u', 'b', 'e']
}

/// The descriptor has a subtitle language with ordinary (not live caption) tracks.
pub open spec fn has_normal_subtitles(info: InfoJson) -> bool {
    match info.subtitles {
        Some(s) => exists|i: int| 0 <= i < s@.len() && (#[trigger] s@[i]).1 is Normal,
        None => false,
    }
}

/// The descriptor comes from the extractor that sponsor segment removal supports.
pub open spec fn sponsor_supported(info: InfoJson) -> bool {
    eq_ascii_fold(info.extractor_key@, youtube_word())
}

/// The first stage asked from the sponsor prompt on.
pub open spec fn from_sponsor(p: Preset, info: InfoJson) -> Stage {
    if p != Preset::BestAudio && sponsor_supported(info) { Stage::Sponsor } else { Stage::Complete }
}

/// The first stage asked from the subtitle prompt on.
pub open spec fn from_subtitles(p: Preset, info: InfoJson) -> Stage {
    if p != Preset::BestAudio && has_normal_subtitles(info) {
        Stage::Subtitles
    } else {
        from_sponsor(p, info)
    }
}

/// The first stage asked from the chapters prompt on.
pub open spec fn from_chapters(p: Preset, info: InfoJson) -> Stage {
    if p != Preset::BestAudio { Stage::Chapters } else { from_subtitles(p, info) }
}

/// The subtitle list of the descriptor, empty when it has none.
pub open spec fn subtitle_list(info: InfoJson) -> Seq<(String, Subtitles)> {
    match info.subtitles {
        Some(s) => s@,
        None => Seq::empty(),
    }
}

/// The indices below `n` of the languages with ordinary tracks, in order.
pub open spec fn normal_indices(subs: Seq<(String, Subtitles)>, n: nat) -> Seq<usize>
    decreases n,
{
    if n == 0 {
        Seq::empty()
    } else {
        normal_indices(subs, (n - 1) as nat) + if subs[n - 1].1 is Normal {
            seq![(n - 1) as usize]
        } else {
            Seq::empty()
        }
    }
}

/// The language codes picked by index.
pub open spec fn picked_languages(subs: Seq<(String, Subtitles)>, picks: Seq<usize>) -> Seq<Seq<char>> {
    picks.map_values(|k: usize| subs[k as int].0@)
}

/// The subtitle languages as texts, if any.
pub open spec fn opt_texts(o: Option<Vec<String>>) -> Option<Seq<Seq<char>>> {
    match o {
        Some(v) => Some(texts(v@)),
        None => None,
    }
}

/// The preset the menu offers for this descriptor.
pub open spec fn on_menu(info: InfoJson, p: Preset) -> bool {
    preset_order(has_audio_only(info.formats@), has_video_only(info.formats@), music_like(info)).contains(p)
}

/// The answer is one that the current prompt takes.
pub open spec fn accepts(f: Flow, info: InfoJson, a: Answer) -> bool {
    match f.stage {
        Stage::Preset => a matches Answer::Preset(p) && on_menu(info, p),
        Stage::Video => a matches Answer::Pick(i) && i < info.formats@.len() && pickable(
            Picker::Video,
            info.formats@[i as int],
        ),
        Stage::Audio => a matches Answer::Pick(i) && i < info.formats@.len() && pickable(
            Picker::Audio,
            info.formats@[i as int],
        ),
        Stage::ManualFormat | Stage::Title => a is Text,
        Stage::Thumbnail | Stage::Chapters | Stage::Sponsor => a is Confirm,
        Stage::Subtitles => a matches Answer::Languages(v) && forall|k: int|
            0 <= k < v@.len() ==> #[trigger] v@[k] < subtitle_list(info).len()
                && subtitle_list(info)[v@[k] as int].1 is Normal,
        Stage::Complete => false,
    }
}

/// The flow `n` has these fields, by their texts.
pub open spec fn flow_is(
    n: Flow,
    stage: Stage,
    preset: Preset,
    formats: Seq<Seq<char>>,
    title: Seq<char>,
    thumbnail: bool,
    chapters: bool,
    subtitles: Option<Seq<Seq<char>>>,
    sponsor: bool,
) -> bool {
    &&& n.stage == stage
    &&& n.preset == preset
    &&& texts(n.formats@) == formats
    &&& n.title@ == title
    &&& n.embed_thumbnail == thumbnail
    &&& n.embed_chapters == chapters
    &&& opt_texts(n.embed_subtitles) == subtitles
    &&& n.sponsorblock_remove == sponsor
}

/// The formats after a preset is chosen: its token, where it has one.
pub open spec fn formats_after_preset(formats: Seq<Seq<char>>, p: Preset) -> Seq<Seq<char>> {
    match preset_token(p) {
        Some(t) => formats.push(t),
        None => formats,
    }
}

/// `n` is the flow after `f` took the accepted answer `a`: the answer is
/// recorded and the flow moves to the next stage that is asked.
pub open spec fn advanced(f: Flow, info: InfoJson, a: Answer, n: Flow) -> bool {
    let fs = texts(f.formats@);
    let subs = opt_texts(f.embed_subtitles);
    match f.stage {
        Stage::Preset => match a {
            Answer::Preset(p) => flow_is(n, stage_after_preset(p), p, formats_after_preset(fs, p),
                f.title@, f.embed_thumbnail, f.embed_chapters, subs, f.sponsorblock_remove),
            _ => false,
        },
        Stage::Video => match a {
            Answer::Pick(i) => flow_is(
                n,
                if info.formats@[i as int].acodec is None { Stage::Audio } else { Stage::Title },
                f.preset, fs.push(info.formats@[i as int].format_id@), f.title@, f.embed_thumbnail,
                f.embed_chapters, subs, f.sponsorblock_remove),
            _ => false,
        },
        Stage::Audio => match a {
            Answer::Pick(i) => flow_is(n, Stage::Title, f.preset,
                fs.push(info.formats@[i as int].format_id@), f.title@, f.embed_thumbnail,
                f.embed_chapters, subs, f.sponsorblock_remove),
            _ => false,
        },
        Stage::ManualFormat => match a {
            Answer::Text(s) => flow_is(n, Stage::Title, f.preset, fs.push(s@), f.title@,
                f.embed_thumbnail, f.embed_chapters, subs, f.sponsorblock_remove),
            _ => false,
        },
        Stage::Title => match a {
            Answer::Text(s) => flow_is(n, Stage::Thumbnail, f.preset, fs, s@, f.embed_thumbnail,
                f.embed_chapters, subs, f.sponsorblock_remove),
            _ => false,
        },
        Stage::Thumbnail => match a {
            Answer::Confirm(b) => flow_is(n, from_chapters(f.preset, info), f.preset, fs, f.title@,
                b, f.embed_chapters, subs, f.sponsorblock_remove),
            _ => false,
        },
        Stage::Chapters => match a {
            Answer::Confirm(b) => flow_is(n, from_subtitles(f.preset, info), f.preset, fs, f.title@,
                f.embed_thumbnail, b, subs, f.sponsorblock_remove),
            _ => false,
        },
        Stage::Subtitles => match a {
            Answer::Languages(v) => flow_is(n, from_sponsor(f.preset, info), f.preset, fs, f.title@,
                f.embed_thumbnail, f.embed_chapters,
                if v@.len() == 0 { None } else { Some(picked_languages(subtitle_list(info), v@)) },
                f.sponsorblock_remove),
            _ => false,
        },
        Stage::Sponsor => match a {
            Answer::Confirm(b) => flow_is(n, Stage::Complete, f.preset, fs, f.title@,
                f.embed_thumbnail, f.embed_chapters, subs, b),
            _ => false,
        },
        Stage::Complete => false,
    }
}

impl Flow {
    /// How many formats have been chosen at each stage: none before the
    /// picks, one between the video and audio picks, one or two after.
    pub open spec fn inv(&self) -> bool {
        match self.stage {
            Stage::Preset | Stage::Video | Stage::ManualFormat => self.formats@.len() == 0,
            Stage::Audio => self.formats@.len() == 1,
            _ => 1 <= self.formats@.len() <= 2,
        }
    }
}

fn token_of(p: Preset) -> (r: Option<String>)
    ensures
        match preset_token(p) {
            Some(t) => r matches Some(s) && s@ == t,
            None => r is None,
        },
{
    match p {
        Preset::Best => Some(String::from_str("bv*+ba/b")),
        Preset::BestAudio => Some(String::from_str("bestaudio")),
        Preset::BestVideo => Some(String::from_str("bestvideo")),
        _ => None,
    }
}

fn push_string(v: &mut Vec<String>, s: String)
    ensures
        texts(final(v)@) == texts(old(v)@).push(s@),
        final(v)@.len() == old(v)@.len() + 1,
{
    let ghost before = v@;
    v.push(s);
    assert(texts(v@) =~= texts(before).push(s@));
}

fn has_normal_subtitle_track(info: &InfoJson) -> (r: bool)
    ensures
        r == has_normal_subtitles(*info),
{
    match &info.subtitles {
        Some(s) => {
            let mut i: usize = 0;
            while i < s.len()
                invariant
                    info.subtitles == Some(*s),
                    i <= s@.len(),
                    forall|k: int| 0 <= k < i ==> !((#[trigger] s@[k]).1 is Normal),
                decreases s@.len() - i,
            {
                if let Subtitles::Normal(_) = &s[i].1 {
                    assert(s@[i as int].1 is Normal);
                    return true;
                }
                i = i + 1;
            }
            false
        },
        None => false,
    }
}

fn is_sponsor_supported(info: &InfoJson) -> (r: bool)
    ensures
        r == sponsor_supported(*info),
{
    proof {
        reveal_strlit("youtube");
    }
    assert("youtube"@ == youtube_word());
    eq_ignore_ascii_case(info.extractor_key.as_str(), "youtube")
}

fn stage_from_sponsor(p: Preset, info: &InfoJson) -> (r: Stage)
    ensures
        r == from_sponsor(p, *info),
{
    if p != Preset::BestAudio && is_sponsor_supported(info) { Stage::Sponsor } else { Stage::Complete }
}

fn stage_from_subtitles(p: Preset, info: &InfoJson) -> (r: Stage)
    ensures
        r == from_subtitles(p, *info),
{
    if p != Preset::BestAudio && has_normal_subtitle_track(info) {
        Stage::Subtitles
    } else {
        stage_from_sponsor(p, info)
    }
}

fn stage_from_chapters(p: Preset, info: &InfoJson) -> (r: Stage)
    ensures
        r == from_chapters(p, *info),
{
    if p != Preset::BestAudio { Stage::Chapters } else { stage_from_subtitles(p, info) }
}

fn preset_on_menu(info: &InfoJson, p: Preset) -> (r: bool)
    ensures
        r == on_menu(*info, p),
{
    let (menu, _) = offered_presets(info);
    let mut i: usize = 0;
    while i < menu.len()
        invariant
            i <= menu@.len(),
            menu@ == preset_order(has_audio_only(info.formats@), has_video_only(info.formats@), music_like(*info)),
            forall|k: int| 0 <= k < i ==> menu@[k] != p,
        decreases menu@.len() - i,
    {
        if menu[i] == p {
            assert(menu@[i as int] == p);
            return true;
        }
        i = i + 1;
    }
    false
}

/// The indices of the subtitle languages with ordinary tracks, in order.
pub fn subtitle_choices(info: &InfoJson) -> (r: Vec<usize>)
    ensures
        r@ == normal_indices(subtitle_list(*info), subtitle_list(*info).len()),
{
    let mut r: Vec<usize> = Vec::new();
    match &info.subtitles {
        Some(s) => {
            let mut i: usize = 0;
            while i < s.len()
                invariant
                    subtitle_list(*info) == s@,
                    i <= s@.len(),
                    r@ == normal_indices(s@, i as nat),
                decreases s@.len() - i,
            {
                if let Subtitles::Normal(_) = &s[i].1 {
                    r.push(i);
                }
                proof {
                    assert(normal_indices(s@, (i + 1) as nat) == normal_indices(s@, i as nat) + if s@[i as int].1 is Normal {
                        seq![i as usize]
                    } else {
                        Seq::<usize>::empty()
                    });
                }
                i = i + 1;
                assert(r@ =~= normal_indices(s@, i as nat));
            }
        },
        None => {},
    }
    r
}

impl Flow {
    fn with_preset(self, p: Preset) -> (r: Flow)
        ensures
            flow_is(r, stage_after_preset(p), p, formats_after_preset(texts(self.formats@), p),
                self.title@, self.embed_thumbnail, self.embed_chapters,
                opt_texts(self.embed_subtitles), self.sponsorblock_remove),
            self.formats@.len() == 0 ==> r.inv(),
    {
        let mut f = self;
        f.preset = p;
        f.stage = match p {
            Preset::Custom => Stage::Video,
            Preset::Manual => Stage::ManualFormat,
            _ => Stage::Title,
        };
        match token_of(p) {
            Some(t) => push_string(&mut f.formats, t),
            None => {},
        }
        f
    }

    /// The flow at its start: at the preset menu, or, with a preset given
    /// beforehand, past it as if that preset had been chosen.
    pub fn start(info: &InfoJson, preset_override: Option<Preset>) -> (r: Flow)
        ensures
            r.inv(),
            is_start(preset_override, r),
    {
        let f = Flow {
            stage: Stage::Preset,
            preset: Preset::Best,
            formats: Vec::new(),
            title: String::new(),
            embed_thumbnail: false,
            embed_chapters: false,
            embed_subtitles: None,
            sponsorblock_remove: false,
        };
        assert(texts(f.formats@) =~= Seq::<Seq<char>>::empty());
        match preset_override {
            Some(p) => f.with_preset(p),
            None => f,
        }
    }

    /// Takes the answer to the current prompt. A cancelled prompt aborts
    /// the flow; an answer that the prompt does not take is an error;
    /// otherwise the answer is recorded and the flow moves on.
    pub fn advance(self, info: &InfoJson, answer: Answer) -> (r: Result<Flow, FlowError>)
        requires
            self.inv(),
        ensures
            answer is Cancelled ==> r == Err::<Flow, FlowError>(FlowError::Aborted),
            !(answer is Cancelled) ==> (r is Ok <==> accepts(self, *info, answer)),
            !(answer is Cancelled) && !accepts(self, *info, answer) ==> r == Err::<Flow, FlowError>(FlowError::Selection),
            r matches Ok(n) ==> advanced(self, *info, answer, n) && n.inv(),
    {
        if let Answer::Cancelled = answer {
            return Err(FlowError::Aborted);
        }
        let ghost f0 = self;
        let mut f = self;
        match f.stage {
            Stage::Preset => match answer {
                Answer::Preset(p) => {
                    if !preset_on_menu(info, p) {
                        return Err(FlowError::Selection);
                    }
                    Ok(f.with_preset(p))
                },
                _ => Err(FlowError::Selection),
            },
            Stage::Video => match answer {
                Answer::Pick(i) => {
                    if i >= info.formats.len() || info.formats[i].vcodec.is_none() {
                        return Err(FlowError::Selection);
                    }
                    push_string(&mut f.formats, info.formats[i].format_id.clone());
                    f.stage = if info.formats[i].acodec.is_none() { Stage::Audio } else { Stage::Title };
                    Ok(f)
                },
                _ => Err(FlowError::Selection),
            },
            Stage::Audio => match answer {
                Answer::Pick(i) => {
                    if i >= info.formats.len() || info.formats[i].acodec.is_none() {
                        return Err(FlowError::Selection);
                    }
                    push_string(&mut f.formats, info.formats[i].format_id.clone());
                    f.stage = Stage::Title;
                    Ok(f)
                },
                _ => Err(FlowError::Selection),
            },
            Stage::ManualFormat => match answer {
                Answer::Text(s) => {
                    push_string(&mut f.formats, s);
                    f.stage = Stage::Title;
                    Ok(f)
                },
                _ => Err(FlowError::Selection),
            },
            Stage::Title => match answer {
                Answer::Text(s) => {
                    f.title = s;
                    f.stage = Stage::Thumbnail;
                    Ok(f)
                },
                _ => Err(FlowError::Selection),
            },
            Stage::Thumbnail => match answer {
                Answer::Confirm(b) => {
                    f.embed_thumbnail = b;
                    f.stage = stage_from_chapters(f.preset, info);
                    Ok(f)
                },
                _ => Err(FlowError::Selection),
            },
            Stage::Chapters => match answer {
                Answer::Confirm(b) => {
                    f.embed_chapters = b;
                    f.stage = stage_from_subtitles(f.preset, info);
                    Ok(f)
                },
                _ => Err(FlowError::Selection),
            },
            Stage::Subtitles => match answer {
                Answer::Languages(v) => {
                    let langs = match pick_languages(info, &v) {
                        Some(l) => l,
                        None => return Err(FlowError::Selection),
                    };
                    f.embed_subtitles = if v.len() == 0 { None } else { Some(langs) };
                    f.stage = stage_from_sponsor(f.preset, info);
                    Ok(f)
                },
                _ => Err(FlowError::Selection),
            },
            Stage::Sponsor => match answer {
                Answer::Confirm(b) => {
                    f.sponsorblock_remove = b;
                    f.stage = Stage::Complete;
                    Ok(f)
                },
                _ => Err(FlowError::Selection),
            },
            Stage::Complete => Err(FlowError::Selection),
        }
    }
}

/// `r` describes the prompt of flow `f`: its choices, and its default given
/// whether the thumbnail helper is installed.
pub open spec fn prompt_for(f: Flow, info: InfoJson, helper_present: bool, r: Prompt) -> bool {
    match f.stage {
        Stage::Preset => r matches Prompt::Preset { menu, cursor } && menu@ == preset_order(
            has_audio_only(info.formats@),
            has_video_only(info.formats@),
            music_like(info),
        ) && cursor == default_cursor(has_audio_only(info.formats@), music_like(info)),
        Stage::Video => r matches Prompt::Video { choices } && is_picker_order(
            Picker::Video,
            info.formats@,
            choices@,
        ),
        Stage::Audio => r matches Prompt::Audio { choices } && is_picker_order(
            Picker::Audio,
            info.formats@,
            choices@,
        ),
        Stage::ManualFormat => r is ManualFormat,
        Stage::Title => r matches Prompt::Title { initial } && initial@ == info.title@,
        Stage::Thumbnail => r matches Prompt::Thumbnail { default } && default == ((f.preset
            == Preset::BestAudio || f.preset == Preset::BestVideo) && helper_present),
        Stage::Chapters => r matches Prompt::Chapters { default } && default == (f.preset
            == Preset::Best || f.preset == Preset::BestVideo),
        Stage::Subtitles => r matches Prompt::Subtitles { languages } && languages@
            == normal_indices(subtitle_list(info), subtitle_list(info).len()),
        Stage::Sponsor => r is Sponsor,
        Stage::Complete => r is Done,
    }
}

impl Flow {
    /// What to ask next. `helper_present` tells whether the host has the
    /// helper that tags thumbnails into audio files; it only changes the
    /// thumbnail prompt's default.
    pub fn prompt(&self, info: &InfoJson, helper_present: bool) -> (r: Prompt)
        ensures
            prompt_for(*self, *info, helper_present, r),
    {
        match self.stage {
            Stage::Preset => {
                let (menu, cursor) = offered_presets(info);
                Prompt::Preset { menu, cursor }
            },
            Stage::Video => Prompt::Video { choices: video_choices(&info.formats) },
            Stage::Audio => Prompt::Audio { choices: audio_choices(&info.formats) },
            Stage::ManualFormat => Prompt::ManualFormat,
            Stage::Title => Prompt::Title { initial: info.title.clone() },
            Stage::Thumbnail => Prompt::Thumbnail {
                default: (self.preset == Preset::BestAudio || self.preset == Preset::BestVideo)
                    && helper_present,
            },
            Stage::Chapters => Prompt::Chapters {
                default: self.preset == Preset::Best || self.preset == Preset::BestVideo,
            },
            Stage::Subtitles => Prompt::Subtitles { languages: subtitle_choices(info) },
            Stage::Sponsor => Prompt::Sponsor,
            Stage::Complete => Prompt::Done,
        }
    }

    /// The selection of a completed flow.
    pub fn finish(self) -> (r: SelectionResult)
        requires
            self.stage == Stage::Complete,
            self.inv(),
        ensures
            r.well_formed(),
            r.preset == self.preset,
            r.formats == self.formats,
            r.title == self.title,
            r.embed_thumbnail == self.embed_thumbnail,
            r.embed_chapters == self.embed_chapters,
            r.embed_subtitles == self.embed_subtitles,
            r.sponsorblock_remove == self.sponsorblock_remove,
    {
        SelectionResult {
            preset: self.preset,
            formats: self.formats,
            title: self.title,
            embed_thumbnail: self.embed_thumbnail,
            embed_chapters: self.embed_chapters,
            embed_subtitles: self.embed_subtitles,
            sponsorblock_remove: self.sponsorblock_remove,
        }
    }
}

/// Past the preset menu, a step keeps the preset and never returns to the menu.
proof fn lemma_advance_keeps_preset(f: Flow, info: InfoJson, a: Answer, n: Flow)
    requires
        advanced(f, info, a, n),
    ensures
        f.stage != Stage::Preset ==> n.preset == f.preset,
        n.stage != Stage::Preset,
        f.stage == Stage::Preset ==> (a matches Answer::Preset(p) && n.preset == p),
{
    match f.stage {
        Stage::Preset => {
            match a {
                Answer::Preset(p) => {
                    assert(n.stage == stage_after_preset(p));
                },
                _ => {},
            }
        },
        Stage::Thumbnail => {
            match a {
                Answer::Confirm(b) => {
                    assert(n.stage == from_chapters(f.preset, info));
                },
                _ => {},
            }
        },
        Stage::Chapters => {
            match a {
                Answer::Confirm(b) => {
                    assert(n.stage == from_subtitles(f.preset, info));
                },
                _ => {},
            }
        },
        Stage::Subtitles => {
            match a {
                Answer::Languages(v) => {
                    assert(n.stage == from_sponsor(f.preset, info));
                },
                _ => {},
            }
        },
        _ => {},
    }
}

/// `f` is the flow at its start: at the preset menu, or, with a preset
/// given beforehand, past it as if that preset had been chosen.
pub open spec fn is_start(preset_override: Option<Preset>, f: Flow) -> bool {
    match preset_override {
        None => flow_is(f, Stage::Preset, Preset::Best, Seq::empty(), Seq::empty(), false, false,
            None, false),
        Some(p) => flow_is(f, stage_after_preset(p), p, formats_after_preset(Seq::empty(), p),
            Seq::empty(), false, false, None, false),
    }
}

/// `flows` steps through `answers`: each answer is taken by the flow before
/// it, and gives the flow after it.
pub open spec fn steps_through(info: InfoJson, flows: Seq<Flow>, answers: Seq<Answer>) -> bool {
    &&& flows.len() == answers.len() + 1
    &&& forall|i: int|
        0 <= i < answers.len() ==> !(#[trigger] answers[i] is Cancelled) && accepts(
            flows[i],
            info,
            answers[i],
        ) && advanced(flows[i], info, answers[i], flows[i + 1])
}

/// `s` holds what the completed flow `f` recorded.
pub open spec fn selection_of(f: Flow, s: SelectionResult) -> bool {
    &&& s.preset == f.preset
    &&& s.formats == f.formats
    &&& s.title == f.title
    &&& s.embed_thumbnail == f.embed_thumbnail
    &&& s.embed_chapters == f.embed_chapters
    &&& s.embed_subtitles == f.embed_subtitles
    &&& s.sponsorblock_remove == f.sponsorblock_remove
}

/// Runs the flow on answers given in advance, one per prompt in order,
/// from its start until it completes. A cancelled prompt aborts it; an
/// answer that its prompt does not take, or running out of answers before
/// the flow completes, is a selection error. Answers left over after it
/// completes are ignored.
pub fn resolve_selection(info: &InfoJson, preset_override: Option<Preset>, answers: Vec<Answer>) -> (r: Result<SelectionResult, FlowError>)
    ensures
        preset_override is None && answers@.len() > 0 && answers@[0] is Cancelled ==> r
            == Err::<SelectionResult, FlowError>(FlowError::Aborted),
        r matches Ok(s) ==> s.well_formed() && exists|flows: Seq<Flow>, k: int|
            0 <= k <= answers@.len() && #[trigger] steps_through(*info, flows, answers@.take(k))
                && is_start(preset_override, flows[0]) && flows[k].stage
                == Stage::Complete && selection_of(flows[k], s),
        r == Err::<SelectionResult, FlowError>(FlowError::Aborted) ==> exists|flows: Seq<Flow>, k: int|
            0 <= k < answers@.len() && #[trigger] steps_through(*info, flows, answers@.take(k))
                && is_start(preset_override, flows[0]) && flows[k].stage
                != Stage::Complete && answers@[k] is Cancelled,
        r == Err::<SelectionResult, FlowError>(FlowError::Selection) ==> exists|flows: Seq<Flow>, k: int|
            0 <= k <= answers@.len() && #[trigger] steps_through(*info, flows, answers@.take(k))
                && is_start(preset_override, flows[0]) && flows[k].stage
                != Stage::Complete && (k == answers@.len() || (!(answers@[k] is Cancelled)
                && !accepts(flows[k], *info, answers@[k]))),
{
    let ghost orig = answers@;
    let mut rest = answers;
    let mut flow = Flow::start(info, preset_override);
    let ghost mut k: int = 0;
    let ghost mut flows: Seq<Flow> = seq![flow];
    assert(orig.take(0) =~= Seq::<Answer>::empty());
    while flow.stage != Stage::Complete
        invariant
            flow.inv(),
            orig == answers@,
            0 <= k <= orig.len(),
            rest@ == orig.subrange(k, orig.len() as int),
            is_start(preset_override, flows[0]),
            steps_through(*info, flows, orig.take(k)),
            flows[k] == flow,
            flow.stage == Stage::Preset <==> preset_override is None && k == 0,
            preset_override is None && orig.len() > 0 && orig[0] is Cancelled ==> k == 0,
        decreases rest@.len(),
    {
        if rest.len() == 0 {
            assert(k == orig.len());
            return Err(FlowError::Selection);
        }
        let a = rest.remove(0);
        assert(a == orig[k]);
        let ghost before = flow;
        let ghost answer = a;
        match flow.advance(info, a) {
            Ok(n) => {
                flow = n;
            },
            Err(e) => {
                return Err(e);
            },
        }
        proof {
            lemma_advance_keeps_preset(before, *info, answer, flow);
            let old_flows = flows;
            let old_k = k;
            flows = flows.push(flow);
            k = k + 1;
            let t = orig.take(k);
            assert(t =~= orig.take(old_k).push(answer));
            assert forall|i: int| 0 <= i < t.len() implies !(#[trigger] t[i] is Cancelled) && accepts(
                flows[i],
                *info,
                t[i],
            ) && advanced(flows[i], *info, t[i], flows[i + 1]) by {
                if i < old_k {
                    assert(orig.take(old_k)[i] == t[i]);
                    assert(flows[i] == old_flows[i]);
                    assert(flows[i + 1] == old_flows[i + 1]);
                }
            }
            assert(rest@ =~= orig.subrange(k, orig.len() as int));
        }
    }
    Ok(flow.finish())
}

/// The language codes that the indices name, or `None` where an index is
/// out of range or names a language with live captions only.
fn pick_languages(info: &InfoJson, picks: &Vec<usize>) -> (r: Option<Vec<String>>)
    ensures
        r is Some <==> forall|k: int|
            0 <= k < picks@.len() ==> #[trigger] picks@[k] < subtitle_list(*info).len()
                && subtitle_list(*info)[picks@[k] as int].1 is Normal,
        r matches Some(v) ==> texts(v@) == picked_languages(subtitle_list(*info), picks@),
{
    let mut out: Vec<String> = Vec::new();
    let mut i: usize = 0;
    while i < picks.len()
        invariant
            i <= picks@.len(),
            forall|k: int|
                0 <= k < i ==> #[trigger] picks@[k] < subtitle_list(*info).len()
                    && subtitle_list(*info)[picks@[k] as int].1 is Normal,
            texts(out@) == picked_languages(subtitle_list(*info), picks@.take(i as int)),
        decreases picks@.len() - i,
    {
        let k = picks[i];
        match &info.subtitles {
            Some(s) => {
                if k >= s.len() {
                    return None;
                }
                match &s[k].1 {
                    Subtitles::Normal(_) => {},
                    Subtitles::LiveCaption(_) => {
                        return None;
                    },
                }
                push_string(&mut out, s[k].0.clone());
            },
            None => {
                return None;
            },
        }
        proof {
            assert(picks@.take(i + 1) =~= picks@.take(i as int).push(k));
            assert(picked_languages(subtitle_list(*info), picks@.take(i + 1)) =~= picked_languages(
                subtitle_list(*info),
                picks@.take(i as int),
            ).push(subtitle_list(*info)[k as int].0@));
        }
        i = i + 1;
    }
    assert(picks@.take(picks@.len() as int) =~= picks@);
    Some(out)
}

} // verus!
