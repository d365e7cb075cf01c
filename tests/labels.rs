use ytdl_select::infojson::{Format, RawFormat, SubtitleInfo};
use ytdl_select::labels::{audio_label, audio_summary, subtitle_label, video_label, video_summary};
use ytdl_select::preset::Preset;

fn format(acodec: Option<&str>, vcodec: Option<&str>) -> Format {
    Format::normalize(RawFormat {
        format_id: Some("137".to_string()),
        format_note: Some("1080p".to_string()),
        ext: Some("mp4".to_string()),
        protocol: Some("https".to_string()),
        acodec: acodec.map(|s| s.to_string()),
        vcodec: vcodec.map(|s| s.to_string()),
        url: None,
        width: Some(1920),
        height: Some(1080),
        resolution: Some("1920x1080".to_string()),
        asr: Some(48000),
        filesize: Some(1048576),
        container: None,
    })
    .unwrap()
}

#[test]
fn video_entry_text() {
    let f = format(None, Some("avc1.640028"));
    assert_eq!(video_label(&f), "avc1 1920x1080 1 MiB 1080p (https)");
}

#[test]
fn video_entry_without_optional_parts() {
    let mut f = format(None, Some("vp9"));
    f.resolution = None;
    f.filesize = None;
    f.format_note = None;
    assert_eq!(video_label(&f), "vp9  (https)");
}

#[test]
fn audio_entry_text() {
    let mut f = format(Some("opus"), None);
    f.filesize = Some(1536);
    f.format_note = Some("medium".to_string());
    assert_eq!(audio_label(&f), "opus 48k 1.50 KiB medium (https)");
}

#[test]
fn audio_rate_rounds_toward_zero() {
    let mut f = format(Some("mp4a.40.2"), None);
    f.filesize = None;
    f.format_note = None;
    f.asr = Some(44100);
    assert_eq!(audio_label(&f), "mp4a 44k (https)");
    f.asr = Some(-1500);
    assert_eq!(audio_label(&f), "mp4a -1k (https)");
    f.asr = Some(-500);
    assert_eq!(audio_label(&f), "mp4a 0k (https)");
    f.asr = Some(999);
    assert_eq!(audio_label(&f), "mp4a 0k (https)");
}

#[test]
fn pick_summaries() {
    let f = format(Some("opus"), Some("vp9"));
    assert_eq!(video_summary(&f), "137 - vp9");
    assert_eq!(audio_summary(&f), "137 - opus");
    let g = format(None, None);
    assert_eq!(audio_summary(&g), "137");
}

#[test]
fn preset_texts() {
    assert_eq!(Preset::Custom.label(), "custom");
    assert_eq!(Preset::Manual.label(), "manual");
    assert_eq!(Preset::Best.label(), "best");
    assert_eq!(Preset::BestAudio.label(), "best audio");
    assert_eq!(Preset::BestVideo.label(), "best video");
}

#[test]
fn subtitle_texts() {
    let named = vec![SubtitleInfo {
        ext: "vtt".to_string(),
        url: "u".to_string(),
        name: Some("English".to_string()),
    }];
    let unnamed = vec![SubtitleInfo { ext: "vtt".to_string(), url: "u".to_string(), name: None }];
    assert_eq!(subtitle_label(&"en".to_string(), &named), "English");
    assert_eq!(subtitle_label(&"fr".to_string(), &unnamed), "fr");
    assert_eq!(subtitle_label(&"de".to_string(), &Vec::new()), "de");
}
