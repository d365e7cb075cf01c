//! Turns a finished selection into what the download tool is given: the
//! stream selector, the output template and the option flags.

use vstd::prelude::*;
use crate::preset::Preset;

verus! {

/// The selection held no format identifier.
#[derive(Debug, Clone, Copy, PartialEq, Eq, Structural)]
pub struct EmptySelectionError;

/// What the selection flow settles on: the preset, the chosen format
/// identifiers (a video pick and/or an audio pick, or one token), the
/// title of the output file, and the post-download options.
pub struct SelectionResult {
    pub preset: Preset,
    pub formats: Vec<String>,
    pub title: String,
    pub embed_thumbnail: bool,
    pub embed_chapters: bool,
    pub embed_subtitles: Option<Vec<String>>,
    pub sponsorblock_remove: bool,
}

impl SelectionResult {
    /// One or two format identifiers were chosen.
    pub open spec fn well_formed(&self) -> bool {
        1 <= self.formats@.len() <= 2
    }
}

/// What the download tool is told, besides where the descriptor lies.
pub struct CommandSpec {
    /// The `+`-joined stream selector.
    pub selector: String,
    /// The output file name template.
    pub output_template: String,
    /// The option flags, in order.
    pub flags: Vec<String>,
}

/// The texts of a list of strings.
pub open spec fn texts(v: Seq<String>) -> Seq<Seq<char>> {
    v.map_values(|s: String| s@)
}

/// The identifiers joined with `+`, in order.
pub open spec fn joined(ids: Seq<Seq<char>>) -> Seq<char>
    decreases ids.len(),
{
    if ids.len() <= 1 {
        if ids.len() == 0 { Seq::empty() } else { ids[0] }
    } else {
        joined(ids.drop_last()) + seq!['+'] + ids.last()
    }
}

fn join_ids(ids: &Vec<String>) -> (r: String)
    requires
        ids@.len() > 0,
    ensures
        r@ == joined(texts(ids@)),
{
    let mut out = ids[0].clone();
    proof {
        reveal_strlit("+");
        assert(texts(ids@).take(1) =~= seq![ids@[0]@]);
    }
    let mut i: usize = 1;
    while i < ids.len()
        invariant
            1 <= i <= ids@.len(),
            out@ == joined(texts(ids@).take(i as int)),
        decreases ids@.len() - i,
    {
        out.append("+");
        out.append(ids[i].as_str());
        proof {
            reveal_strlit("+");
            let t = texts(ids@).take(i + 1);
            assert(t.drop_last() =~= texts(ids@).take(i as int));
        }
        i = i + 1;
    }
    assert(texts(ids@).take(ids@.len() as int) =~= texts(ids@));
    out
}

/// The stream selector for the chosen identifiers: joined with `+`, a
/// lone identifier unchanged. No identifier at all is an error.
pub fn build_selector(ids: &Vec<String>) -> (r: Result<String, EmptySelectionError>)
    ensures
        ids@.len() == 0 <==> r is Err,
        r matches Ok(s) ==> s@ == joined(texts(ids@)),
{
    if ids.len() == 0 {
        Err(EmptySelectionError)
    } else {
        Ok(join_ids(ids))
    }
}

/// The output file name template for a title.
pub open spec fn template_for(title: Seq<char>) -> Seq<char> {
    title + ".%(ext)s"@
}

pub fn output_template(title: &String) -> (r: String)
    ensures
        r@ == template_for(title@),
{
    let mut t = title.clone();
    t.append(".%(ext)s");
    t
}

/// Two flags for each subtitle language, in order.
pub open spec fn sub_lang_flags(langs: Seq<Seq<char>>) -> Seq<Seq<char>>
    decreases langs.len(),
{
    if langs.len() == 0 {
        Seq::empty()
    } else {
        sub_lang_flags(langs.drop_last()) + seq!["--sub-lang"@, langs.last()]
    }
}

/// The flags for the post-download options: extract audio for best audio;
/// one of each present/absent pair for thumbnail, chapters and sponsor
/// segments; and, for a non-empty set of subtitle languages, the flag that
/// embeds them and one language flag each.
pub open spec fn option_flags(
    preset: Preset,
    thumbnail: bool,
    chapters: bool,
    subtitles: Option<Seq<Seq<char>>>,
    sponsor: bool,
) -> Seq<Seq<char>> {
    let x = if preset == Preset::BestAudio { seq!["-x"@] } else { Seq::empty() };
    let t = if thumbnail { "--embed-thumbnail"@ } else { "--no-embed-thumbnail"@ };
    let c = if chapters { "--embed-chapters"@ } else { "--no-embed-chapters"@ };
    let s = if sponsor { "--sponsorblock-remove=default"@ } else { "--no-sponsorblock"@ };
    let subs = match subtitles {
        Some(langs) => if langs.len() > 0 {
            seq!["--embed-subs"@] + sub_lang_flags(langs)
        } else {
            Seq::empty()
        },
        None => Seq::empty(),
    };
    x + seq![t, c, s] + subs
}

/// The subtitle languages of a selection, as texts.
pub open spec fn subtitle_texts(s: Option<Vec<String>>) -> Option<Seq<Seq<char>>> {
    match s {
        Some(v) => Some(texts(v@)),
        None => None,
    }
}

fn push_text(flags: &mut Vec<String>, s: &str)
    ensures
        texts(final(flags)@) == texts(old(flags)@).push(s@),
{
    let ghost before = flags@;
    flags.push(String::from_str(s));
    assert(texts(flags@) =~= texts(before).push(s@));
}

/// The option flags of a selection, in a fixed order.
pub fn build_option_flags(sel: &SelectionResult) -> (r: Vec<String>)
    ensures
        texts(r@) == option_flags(
            sel.preset,
            sel.embed_thumbnail,
            sel.embed_chapters,
            subtitle_texts(sel.embed_subtitles),
            sel.sponsorblock_remove,
        ),
{
    let mut flags: Vec<String> = Vec::new();
    if sel.preset == Preset::BestAudio {
        push_text(&mut flags, "-x");
    }
    if sel.embed_thumbnail {
        push_text(&mut flags, "--embed-thumbnail");
    } else {
        push_text(&mut flags, "--no-embed-thumbnail");
    }
    if sel.embed_chapters {
        push_text(&mut flags, "--embed-chapters");
    } else {
        push_text(&mut flags, "--no-embed-chapters");
    }
    if sel.sponsorblock_remove {
        push_text(&mut flags, "--sponsorblock-remove=default");
    } else {
        push_text(&mut flags, "--no-sponsorblock");
    }
    let ghost head = texts(flags@);
    match &sel.embed_subtitles {
        Some(langs) => {
            if langs.len() > 0 {
                push_text(&mut flags, "--embed-subs");
                let mut i: usize = 0;
                while i < langs.len()
                    invariant
                        i <= langs@.len(),
                        texts(flags@) == head + seq!["--embed-subs"@] + sub_lang_flags(texts(langs@).take(i as int)),
                    decreases langs@.len() - i,
                {
                    push_text(&mut flags, "--sub-lang");
                    push_text(&mut flags, langs[i].as_str());
                    proof {
                        let t = texts(langs@).take(i + 1);
                        assert(t.drop_last() =~= texts(langs@).take(i as int));
                    }
                    i = i + 1;
                }
                assert(texts(langs@).take(langs@.len() as int) =~= texts(langs@));
            }
        },
        None => {},
    }
    proof {
        let x = if sel.preset == Preset::BestAudio { seq!["-x"@] } else { Seq::<Seq<char>>::empty() };
        assert(head =~= x + seq![
            if sel.embed_thumbnail { "--embed-thumbnail"@ } else { "--no-embed-thumbnail"@ },
            if sel.embed_chapters { "--embed-chapters"@ } else { "--no-embed-chapters"@ },
            if sel.sponsorblock_remove { "--sponsorblock-remove=default"@ } else { "--no-sponsorblock"@ },
        ]);
    }
    assert(texts(flags@) =~= option_flags(
        sel.preset,
        sel.embed_thumbnail,
        sel.embed_chapters,
        subtitle_texts(sel.embed_subtitles),
        sel.sponsorblock_remove,
    ));
    flags
}

/// The selector, output template and flags for a finished selection.
pub fn assemble_command_spec(sel: &SelectionResult) -> (r: CommandSpec)
    requires
        sel.well_formed(),
    ensures
        r.selector@ == joined(texts(sel.formats@)),
        r.output_template@ == template_for(sel.title@),
        texts(r.flags@) == option_flags(
            sel.preset,
            sel.embed_thumbnail,
            sel.embed_chapters,
            subtitle_texts(sel.embed_subtitles),
            sel.sponsorblock_remove,
        ),
{
    CommandSpec {
        selector: join_ids(&sel.formats),
        output_template: output_template(&sel.title),
        flags: build_option_flags(sel),
    }
}

} // verus!
