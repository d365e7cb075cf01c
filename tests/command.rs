use ytdl_select::command::{assemble_command_spec, build_option_flags, build_selector, output_template, EmptySelectionError, SelectionResult};
use ytdl_select::preset::Preset;

fn strings(v: &[&str]) -> Vec<String> {
    v.iter().map(|s| s.to_string()).collect()
}

fn selection(preset: Preset, formats: &[&str]) -> SelectionResult {
    SelectionResult {
        preset,
        formats: strings(formats),
        title: "Song".to_string(),
        embed_thumbnail: false,
        embed_chapters: false,
        embed_subtitles: None,
        sponsorblock_remove: false,
    }
}

#[test]
fn selector_joins_with_plus() {
    assert_eq!(build_selector(&strings(&["137", "140"])), Ok("137+140".to_string()));
}

#[test]
fn selector_keeps_lone_id() {
    assert_eq!(build_selector(&strings(&["bestaudio"])), Ok("bestaudio".to_string()));
}

#[test]
fn selector_of_nothing_fails() {
    assert_eq!(build_selector(&Vec::new()), Err(EmptySelectionError));
}

#[test]
fn template_appends_extension_pattern() {
    assert_eq!(output_template(&"My clip".to_string()), "My clip.%(ext)s");
}

#[test]
fn flags_for_best_audio() {
    let s = selection(Preset::BestAudio, &["bestaudio"]);
    assert_eq!(
        build_option_flags(&s),
        strings(&["-x", "--no-embed-thumbnail", "--no-embed-chapters", "--no-sponsorblock"])
    );
}

#[test]
fn flags_with_everything_on() {
    let mut s = selection(Preset::Custom, &["137", "140"]);
    s.embed_thumbnail = true;
    s.embed_chapters = true;
    s.sponsorblock_remove = true;
    s.embed_subtitles = Some(strings(&["en", "fr"]));
    assert_eq!(
        build_option_flags(&s),
        strings(&[
            "--embed-thumbnail",
            "--embed-chapters",
            "--sponsorblock-remove=default",
            "--embed-subs",
            "--sub-lang",
            "en",
            "--sub-lang",
            "fr",
        ])
    );
}

#[test]
fn empty_subtitle_set_embeds_nothing() {
    let mut s = selection(Preset::Best, &["bv*+ba/b"]);
    s.embed_subtitles = Some(Vec::new());
    assert_eq!(
        build_option_flags(&s),
        strings(&["--no-embed-thumbnail", "--no-embed-chapters", "--no-sponsorblock"])
    );
}

#[test]
fn command_spec_of_selection() {
    let s = selection(Preset::Custom, &["137", "140"]);
    let c = assemble_command_spec(&s);
    assert_eq!(c.selector, "137+140");
    assert_eq!(c.output_template, "Song.%(ext)s");
    assert_eq!(c.flags, build_option_flags(&s));
}
