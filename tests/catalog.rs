use ytdl_select::classify::{has_audio_only_variant, has_video_only_variant, is_audio_only, is_music_like, is_video_only};
use ytdl_select::infojson::{lit_none_string, normalize_formats, CatalogError, Format, InfoJson, MissingField, RawFormat, Version};
use ytdl_select::picker::{audio_choices, video_choices};
use ytdl_select::preset::{offered_presets, resolve_presets, Preset};
use ytdl_select::text::eq_ignore_ascii_case;

fn raw(id: &str, acodec: &str, vcodec: &str) -> RawFormat {
    RawFormat {
        format_id: Some(id.to_string()),
        format_note: None,
        ext: Some("webm".to_string()),
        protocol: Some("https".to_string()),
        acodec: Some(acodec.to_string()),
        vcodec: Some(vcodec.to_string()),
        url: None,
        width: None,
        height: None,
        resolution: None,
        asr: None,
        filesize: None,
        container: None,
    }
}

fn format(id: &str, acodec: &str, vcodec: &str) -> Format {
    Format::normalize(raw(id, acodec, vcodec)).unwrap()
}

fn info(formats: Vec<Format>, categories: Option<Vec<String>>) -> InfoJson {
    InfoJson {
        id: "abc".to_string(),
        title: "A title".to_string(),
        formats,
        thumbnails: None,
        categories,
        automatic_captions: None,
        subtitles: None,
        extractor: "generic".to_string(),
        extractor_key: "Generic".to_string(),
        webpage_url: "https://example.com/watch".to_string(),
        version: Version {
            version: "1".to_string(),
            release_git_head: "0".to_string(),
            repository: "r".to_string(),
        },
    }
}

#[test]
fn sentinel_becomes_absent() {
    assert_eq!(lit_none_string(Some("none".to_string())), None);
    assert_eq!(lit_none_string(Some("opus".to_string())), Some("opus".to_string()));
    assert_eq!(lit_none_string(Some("None".to_string())), Some("None".to_string()));
    assert_eq!(lit_none_string(None), None);
}

#[test]
fn normalize_drops_sentinels() {
    let mut r = raw("18", "none", "none");
    r.resolution = Some("none".to_string());
    let f = Format::normalize(r).unwrap();
    assert_eq!(f.acodec, None);
    assert_eq!(f.vcodec, None);
    assert_eq!(f.resolution, None);
    assert_eq!(f.format_id, "18");
}

#[test]
fn normalize_twice_changes_nothing() {
    let mut r = raw("22", "mp4a.40.2", "none");
    r.resolution = Some("1280x720".to_string());
    r.width = Some(1280);
    let f = Format::normalize(r).unwrap();
    let again = RawFormat {
        format_id: Some(f.format_id.clone()),
        format_note: f.format_note.clone(),
        ext: Some(f.ext.clone()),
        protocol: Some(f.protocol.clone()),
        acodec: f.acodec.clone(),
        vcodec: f.vcodec.clone(),
        url: f.url.clone(),
        width: f.width,
        height: f.height,
        resolution: f.resolution.clone(),
        asr: f.asr,
        filesize: f.filesize,
        container: f.container.clone(),
    };
    let g = Format::normalize(again).unwrap();
    assert_eq!(g.format_id, f.format_id);
    assert_eq!(g.acodec, f.acodec);
    assert_eq!(g.vcodec, f.vcodec);
    assert_eq!(g.resolution, f.resolution);
    assert_eq!(g.width, Some(1280));
    assert_eq!(g.acodec, Some("mp4a.40.2".to_string()));
}

#[test]
fn normalize_reports_missing_fields_in_order() {
    let mut r = raw("1", "opus", "none");
    r.format_id = None;
    r.ext = None;
    assert_eq!(Format::normalize(r).err(), Some(MissingField::FormatId));
    let mut r = raw("1", "opus", "none");
    r.ext = None;
    r.protocol = None;
    assert_eq!(Format::normalize(r).err(), Some(MissingField::Ext));
    let mut r = raw("1", "opus", "none");
    r.protocol = None;
    assert_eq!(Format::normalize(r).err(), Some(MissingField::Protocol));
}

#[test]
fn catalog_errors() {
    assert_eq!(normalize_formats(Vec::new()).err(), Some(CatalogError::Empty));
    let mut bad = raw("2", "opus", "none");
    bad.ext = None;
    let res = normalize_formats(vec![raw("1", "opus", "none"), bad, raw("3", "none", "vp9")]);
    assert_eq!(res.err(), Some(CatalogError::Schema { index: 1, field: MissingField::Ext }));
    let ok = normalize_formats(vec![raw("1", "opus", "none"), raw("3", "none", "vp9")]).unwrap();
    assert_eq!(ok.len(), 2);
    assert_eq!(ok[0].format_id, "1");
    assert_eq!(ok[1].acodec, None);
}

#[test]
fn classifies_records() {
    let a = format("a", "opus", "none");
    let v = format("v", "none", "avc1");
    let m = format("m", "mp4a", "avc1");
    assert!(is_audio_only(&a) && !is_video_only(&a));
    assert!(is_video_only(&v) && !is_audio_only(&v));
    assert!(!is_audio_only(&m) && !is_video_only(&m));
    assert!(!has_audio_only_variant(&vec![m]));
    assert!(!has_video_only_variant(&Vec::new()));
}

#[test]
fn audio_and_video_only_catalog_offers_both() {
    let c = vec![format("audioOnly1", "opus", "none"), format("videoOnly1", "none", "avc1")];
    assert!(has_audio_only_variant(&c));
    assert!(has_video_only_variant(&c));
    let (menu, _) = resolve_presets(true, true, false);
    assert!(menu.contains(&Preset::BestAudio));
    assert!(menu.contains(&Preset::BestVideo));
    let (menu2, cursor) = offered_presets(&info(c, None));
    assert_eq!(menu2, menu);
    assert_eq!(cursor, 2);
}

#[test]
fn music_category_puts_audio_first() {
    let c = vec![format("audioOnly1", "opus", "none"), format("videoOnly1", "none", "avc1")];
    let i = info(c, Some(vec!["Music".to_string()]));
    assert!(is_music_like(&i));
    let (menu, cursor) = offered_presets(&i);
    assert_eq!(
        menu,
        vec![Preset::Manual, Preset::Custom, Preset::Best, Preset::BestAudio, Preset::BestVideo]
    );
    assert_eq!(cursor, 3);
    assert_eq!(menu[cursor], Preset::BestAudio);
}

#[test]
fn non_music_puts_video_first() {
    let (menu, cursor) = resolve_presets(true, true, false);
    assert_eq!(
        menu,
        vec![Preset::Manual, Preset::Custom, Preset::Best, Preset::BestVideo, Preset::BestAudio]
    );
    assert_eq!(menu[cursor], Preset::Best);
    let (menu, cursor) = resolve_presets(false, false, true);
    assert_eq!(menu, vec![Preset::Manual, Preset::Custom, Preset::Best]);
    assert_eq!(cursor, 2);
}

#[test]
fn music_match_ignores_case_only() {
    assert!(is_music_like(&info(Vec::new(), Some(vec!["Gaming".to_string(), "mUsIc".to_string()]))));
    assert!(!is_music_like(&info(Vec::new(), Some(vec!["Musical".to_string()]))));
    assert!(!is_music_like(&info(Vec::new(), None)));
    assert!(eq_ignore_ascii_case("YouTube", "youtube"));
    assert!(!eq_ignore_ascii_case("You", "youtube"));
}

#[test]
fn richer_catalog_keeps_every_preset() {
    let mut c = vec![format("m", "mp4a", "avc1")];
    let (before, _) = offered_presets(&info(c, None));
    assert_eq!(before, vec![Preset::Manual, Preset::Custom, Preset::Best]);
    c = vec![format("m", "mp4a", "avc1"), format("a", "opus", "none")];
    let (after, _) = offered_presets(&info(c, None));
    for p in before {
        assert!(after.contains(&p));
    }
    assert!(after.contains(&Preset::BestAudio));
}

#[test]
fn video_picker_is_stable_and_descending() {
    let mut c = Vec::new();
    for (id, w) in [("a", Some(720)), ("b", Some(1080)), ("c", Some(720)), ("d", None), ("e", Some(1080))] {
        let mut r = raw(id, "none", "vp9");
        r.width = w;
        c.push(Format::normalize(r).unwrap());
    }
    c.push(format("audio", "opus", "none"));
    assert_eq!(video_choices(&c), vec![1, 4, 0, 2, 3]);
}

#[test]
fn audio_picker_is_stable_and_descending() {
    let mut c = Vec::new();
    for (id, asr) in [("a", Some(44100)), ("b", None), ("c", Some(48000)), ("d", Some(44100))] {
        let mut r = raw(id, "opus", "none");
        r.asr = asr;
        c.push(Format::normalize(r).unwrap());
    }
    c.push(format("video", "none", "avc1"));
    c.push(format("muxed", "mp4a", "avc1"));
    assert_eq!(audio_choices(&c), vec![2, 0, 3, 1, 5]);
    assert_eq!(video_choices(&c), vec![4, 5]);
}
