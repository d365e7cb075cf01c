use ytdl_select::command::assemble_command_spec;
use ytdl_select::flow::{resolve_selection, Answer, Flow, FlowError, Prompt, Stage};
use ytdl_select::infojson::{Format, InfoJson, LiveCaptionInfo, RawFormat, SubtitleInfo, Subtitles, Version};
use ytdl_select::preset::Preset;

fn format(id: &str, acodec: &str, vcodec: &str, width: Option<i64>) -> Format {
    Format::normalize(RawFormat {
        format_id: Some(id.to_string()),
        format_note: None,
        ext: Some("webm".to_string()),
        protocol: Some("https".to_string()),
        acodec: Some(acodec.to_string()),
        vcodec: Some(vcodec.to_string()),
        url: None,
        width,
        height: None,
        resolution: None,
        asr: None,
        filesize: None,
        container: None,
    })
    .unwrap()
}

fn descriptor(extractor_key: &str) -> InfoJson {
    InfoJson {
        id: "xyz".to_string(),
        title: "Clip".to_string(),
        formats: vec![
            format("140", "mp4a.40.2", "none", None),
            format("137", "none", "avc1", Some(1920)),
            format("18", "mp4a.40.2", "avc1", Some(640)),
        ],
        thumbnails: None,
        categories: None,
        automatic_captions: None,
        subtitles: Some(vec![
            (
                "live_chat".to_string(),
                Subtitles::LiveCaption(vec![LiveCaptionInfo {
                    ext: "json".to_string(),
                    url: "u".to_string(),
                    protocol: "youtube_live_chat".to_string(),
                }]),
            ),
            (
                "en".to_string(),
                Subtitles::Normal(vec![SubtitleInfo {
                    ext: "vtt".to_string(),
                    url: "u".to_string(),
                    name: Some("English".to_string()),
                }]),
            ),
        ]),
        extractor: "youtube".to_string(),
        extractor_key: extractor_key.to_string(),
        webpage_url: "https://example.com/watch".to_string(),
        version: Version {
            version: "1".to_string(),
            release_git_head: "0".to_string(),
            repository: "r".to_string(),
        },
    }
}

#[test]
fn cancel_at_preset_prompt_aborts() {
    let info = descriptor("Youtube");
    assert_eq!(resolve_selection(&info, None, vec![Answer::Cancelled]).err(), Some(FlowError::Aborted));
}

#[test]
fn cancel_later_also_aborts() {
    let info = descriptor("Youtube");
    let answers = vec![Answer::Preset(Preset::Best), Answer::Text("t".to_string()), Answer::Cancelled];
    assert_eq!(resolve_selection(&info, None, answers).err(), Some(FlowError::Aborted));
}

#[test]
fn custom_walkthrough_picks_video_then_audio() {
    let info = descriptor("Youtube");
    let mut flow = Flow::start(&info, None);
    match flow.prompt(&info, false) {
        Prompt::Preset { menu, cursor } => {
            assert_eq!(
                menu,
                vec![Preset::Manual, Preset::Custom, Preset::Best, Preset::BestVideo, Preset::BestAudio]
            );
            assert_eq!(cursor, 2);
        }
        _ => panic!("expected the preset menu"),
    }
    flow = flow.advance(&info, Answer::Preset(Preset::Custom)).unwrap();
    match flow.prompt(&info, false) {
        Prompt::Video { choices } => assert_eq!(choices, vec![1, 2]),
        _ => panic!("expected the video picker"),
    }
    flow = flow.advance(&info, Answer::Pick(1)).unwrap();
    assert_eq!(flow.stage, Stage::Audio);
    match flow.prompt(&info, false) {
        Prompt::Audio { choices } => assert_eq!(choices, vec![0, 2]),
        _ => panic!("expected the audio picker"),
    }
    flow = flow.advance(&info, Answer::Pick(0)).unwrap();
    match flow.prompt(&info, false) {
        Prompt::Title { initial } => assert_eq!(initial, "Clip"),
        _ => panic!("expected the title prompt"),
    }
    flow = flow.advance(&info, Answer::Text("My clip".to_string())).unwrap();
    match flow.prompt(&info, true) {
        Prompt::Thumbnail { default } => assert!(!default),
        _ => panic!("expected the thumbnail prompt"),
    }
    flow = flow.advance(&info, Answer::Confirm(true)).unwrap();
    match flow.prompt(&info, false) {
        Prompt::Chapters { default } => assert!(!default),
        _ => panic!("expected the chapters prompt"),
    }
    flow = flow.advance(&info, Answer::Confirm(true)).unwrap();
    match flow.prompt(&info, false) {
        Prompt::Subtitles { languages } => assert_eq!(languages, vec![1]),
        _ => panic!("expected the subtitle prompt"),
    }
    flow = flow.advance(&info, Answer::Languages(vec![1])).unwrap();
    assert_eq!(flow.stage, Stage::Sponsor);
    flow = flow.advance(&info, Answer::Confirm(false)).unwrap();
    assert_eq!(flow.stage, Stage::Complete);
    let sel = flow.finish();
    assert_eq!(sel.formats, vec!["137".to_string(), "140".to_string()]);
    assert_eq!(sel.embed_subtitles, Some(vec!["en".to_string()]));
    let spec = assemble_command_spec(&sel);
    assert_eq!(spec.selector, "137+140");
    assert_eq!(spec.output_template, "My clip.%(ext)s");
    assert_eq!(
        spec.flags,
        vec![
            "--embed-thumbnail".to_string(),
            "--embed-chapters".to_string(),
            "--no-sponsorblock".to_string(),
            "--embed-subs".to_string(),
            "--sub-lang".to_string(),
            "en".to_string(),
        ]
    );
}

#[test]
fn muxed_video_pick_skips_audio() {
    let info = descriptor("Generic");
    let answers = vec![
        Answer::Preset(Preset::Custom),
        Answer::Pick(2),
        Answer::Text("t".to_string()),
        Answer::Confirm(false),
        Answer::Confirm(false),
        Answer::Languages(Vec::new()),
    ];
    let sel = resolve_selection(&info, None, answers).unwrap();
    assert_eq!(sel.formats, vec!["18".to_string()]);
    assert_eq!(sel.embed_subtitles, None);
    assert!(!sel.sponsorblock_remove);
}

#[test]
fn best_audio_skips_later_prompts() {
    let info = descriptor("Youtube");
    let mut flow = Flow::start(&info, Some(Preset::BestAudio));
    assert_eq!(flow.stage, Stage::Title);
    flow = flow.advance(&info, Answer::Text("Song".to_string())).unwrap();
    match flow.prompt(&info, true) {
        Prompt::Thumbnail { default } => assert!(default),
        _ => panic!("expected the thumbnail prompt"),
    }
    flow = flow.advance(&info, Answer::Confirm(true)).unwrap();
    assert_eq!(flow.stage, Stage::Complete);
    let sel = flow.finish();
    assert_eq!(sel.formats, vec!["bestaudio".to_string()]);
    assert!(!sel.embed_chapters);
    let spec = assemble_command_spec(&sel);
    assert_eq!(spec.selector, "bestaudio");
    assert_eq!(spec.flags[0], "-x");
}

#[test]
fn manual_preset_takes_typed_selector() {
    let info = descriptor("Generic");
    let answers = vec![
        Answer::Preset(Preset::Manual),
        Answer::Text("22/18".to_string()),
        Answer::Text("t".to_string()),
        Answer::Confirm(false),
        Answer::Confirm(true),
        Answer::Languages(Vec::new()),
    ];
    let sel = resolve_selection(&info, None, answers).unwrap();
    assert_eq!(sel.preset, Preset::Manual);
    assert_eq!(sel.formats, vec!["22/18".to_string()]);
    assert!(sel.embed_chapters);
}

#[test]
fn best_preset_defaults() {
    let info = descriptor("Generic");
    let mut flow = Flow::start(&info, Some(Preset::Best));
    assert_eq!(flow.formats, vec!["bv*+ba/b".to_string()]);
    flow = flow.advance(&info, Answer::Text("t".to_string())).unwrap();
    match flow.prompt(&info, true) {
        Prompt::Thumbnail { default } => assert!(!default),
        _ => panic!("expected the thumbnail prompt"),
    }
    flow = flow.advance(&info, Answer::Confirm(false)).unwrap();
    match flow.prompt(&info, true) {
        Prompt::Chapters { default } => assert!(default),
        _ => panic!("expected the chapters prompt"),
    }
}

#[test]
fn wrong_answers_are_selection_errors() {
    let info = descriptor("Youtube");
    let flow = Flow::start(&info, None);
    assert_eq!(flow.advance(&info, Answer::Pick(0)).err(), Some(FlowError::Selection));
    let flow = Flow::start(&info, Some(Preset::Custom));
    assert_eq!(flow.advance(&info, Answer::Pick(0)).err(), Some(FlowError::Selection));
    let flow = Flow::start(&info, Some(Preset::Custom));
    assert_eq!(flow.advance(&info, Answer::Pick(7)).err(), Some(FlowError::Selection));
    let flow = Flow::start(&info, Some(Preset::Best));
    let flow = flow.advance(&info, Answer::Text("t".to_string())).unwrap();
    let flow = flow.advance(&info, Answer::Confirm(false)).unwrap();
    let flow = flow.advance(&info, Answer::Confirm(false)).unwrap();
    assert_eq!(flow.advance(&info, Answer::Languages(vec![0])).err(), Some(FlowError::Selection));
}

#[test]
fn preset_not_on_menu_is_refused() {
    let mut info = descriptor("Youtube");
    info.formats = vec![format("18", "mp4a.40.2", "avc1", Some(640))];
    let flow = Flow::start(&info, None);
    assert_eq!(flow.advance(&info, Answer::Preset(Preset::BestAudio)).err(), Some(FlowError::Selection));
}

#[test]
fn running_out_of_answers_is_an_error() {
    let info = descriptor("Youtube");
    assert_eq!(
        resolve_selection(&info, None, vec![Answer::Preset(Preset::Best)]).err(),
        Some(FlowError::Selection)
    );
}
