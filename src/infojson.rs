//! The media descriptor and its catalog of formats, as the probe step
//! reports them, with the "none" codec sentinel normalized away.

use vstd::prelude::*;
use crate::text::same_text;

verus! {

/// The text with which the probe's schema says "no codec".
pub open spec fn none_sentinel() -> Seq<char> {
    seq!['n', 'o', 'n', 'e']
}

/// A codec field after normalization: the sentinel becomes absent.
pub open spec fn normalized_field(raw: Option<String>) -> Option<String> {
    match raw {
        Some(s) => if s@ == none_sentinel() { None } else { Some(s) },
        None => None,
    }
}

/// Maps a codec or resolution field as reported to its normalized value:
/// the literal `"none"` becomes absent, anything else is kept.
pub fn lit_none_string(raw: Option<String>) -> (r: Option<String>)
    ensures
        r == normalized_field(raw),
{
    match raw {
        Some(s) => {
            proof {
                reveal_strlit("none");
            }
            assert("none"@ == none_sentinel());
            if same_text(s.as_str(), "none") {
                None
            } else {
                Some(s)
            }
        },
        None => None,
    }
}

/// An automatically generated caption track.
pub struct AutomaticCaptionInfo {
    pub ext: String,
    pub url: String,
    pub name: Option<String>,
}

/// The variants of one language's subtitle tracks.
pub enum Subtitles {
    /// Ordinary subtitle files.
    Normal(Vec<SubtitleInfo>),
    /// Captions taken from a live stream.
    LiveCaption(Vec<LiveCaptionInfo>),
}

/// One ordinary subtitle file.
pub struct SubtitleInfo {
    pub ext: String,
    pub url: String,
    pub name: Option<String>,
}

/// One caption file taken from a live stream.
pub struct LiveCaptionInfo {
    pub ext: String,
    pub url: String,
    pub protocol: String,
}

/// A thumbnail image of the media item.
pub struct Thumbnail {
    pub url: String,
    pub preference: Option<i64>,
    pub id: String,
    pub height: Option<i64>,
    pub width: Option<i64>,
    pub resolution: Option<String>,
}

/// The version of the probe tool that wrote the descriptor.
pub struct Version {
    pub version: String,
    pub release_git_head: String,
    pub repository: String,
}

/// A format record as the probe reports it, before normalization: the
/// required fields may be missing and a codec may be the `"none"` sentinel.
pub struct RawFormat {
    pub format_id: Option<String>,
    pub format_note: Option<String>,
    pub ext: Option<String>,
    pub protocol: Option<String>,
    pub acodec: Option<String>,
    pub vcodec: Option<String>,
    pub url: Option<String>,
    pub width: Option<i64>,
    pub height: Option<i64>,
    pub resolution: Option<String>,
    pub asr: Option<i64>,
    pub filesize: Option<u64>,
    pub container: Option<String>,
}

/// One encoded variant of the media item. `acodec`, `vcodec` and
/// `resolution` never hold the `"none"` sentinel (see `Format::well_formed`).
pub struct Format {
    pub format_id: String,
    pub format_note: Option<String>,
    pub ext: String,
    pub protocol: String,
    pub acodec: Option<String>,
    pub vcodec: Option<String>,
    pub url: Option<String>,
    pub width: Option<i64>,
    pub height: Option<i64>,
    pub resolution: Option<String>,
    pub asr: Option<i64>,
    pub filesize: Option<u64>,
    pub container: Option<String>,
}

/// A required field that a raw format record lacks.
#[derive(Debug, Clone, Copy, PartialEq, Eq, Structural)]
pub enum MissingField {
    FormatId,
    Ext,
    Protocol,
}

impl Format {
    /// No sentinel survives in the codec and resolution fields.
    pub open spec fn well_formed(&self) -> bool {
        &&& normalized_field(self.acodec) == self.acodec
        &&& normalized_field(self.vcodec) == self.vcodec
        &&& normalized_field(self.resolution) == self.resolution
    }

    /// The record `raw` normalizes to, given its required fields.
    pub open spec fn normalized_from(self, raw: RawFormat) -> bool {
        &&& raw.format_id == Some(self.format_id)
        &&& raw.ext == Some(self.ext)
        &&& raw.protocol == Some(self.protocol)
        &&& self.format_note == raw.format_note
        &&& self.acodec == normalized_field(raw.acodec)
        &&& self.vcodec == normalized_field(raw.vcodec)
        &&& self.url == raw.url
        &&& self.width == raw.width
        &&& self.height == raw.height
        &&& self.resolution == normalized_field(raw.resolution)
        &&& self.asr == raw.asr
        &&& self.filesize == raw.filesize
        &&& self.container == raw.container
    }

    /// The record written back as a raw record.
    pub open spec fn as_raw(self) -> RawFormat {
        RawFormat {
            format_id: Some(self.format_id),
            format_note: self.format_note,
            ext: Some(self.ext),
            protocol: Some(self.protocol),
            acodec: self.acodec,
            vcodec: self.vcodec,
            url: self.url,
            width: self.width,
            height: self.height,
            resolution: self.resolution,
            asr: self.asr,
            filesize: self.filesize,
            container: self.container,
        }
    }

    /// Builds a record from what the probe reported: the `"none"` sentinel
    /// becomes absent, and a missing `format_id`, `ext` or `protocol` is an
    /// error (the first of them, in that order).
    pub fn normalize(raw: RawFormat) -> (r: Result<Format, MissingField>)
        ensures
            raw.format_id is None ==> r == Err::<Format, MissingField>(MissingField::FormatId),
            raw.format_id is Some && raw.ext is None ==> r == Err::<Format, MissingField>(
                MissingField::Ext,
            ),
            raw.format_id is Some && raw.ext is Some && raw.protocol is None ==> r == Err::<
                Format,
                MissingField,
            >(MissingField::Protocol),
            r is Ok <==> (raw.format_id is Some && raw.ext is Some && raw.protocol is Some),
            r matches Ok(f) ==> f.normalized_from(raw) && f.well_formed(),
    {
        let ghost raw0 = raw;
        let RawFormat {
            format_id,
            format_note,
            ext,
            protocol,
            acodec,
            vcodec,
            url,
            width,
            height,
            resolution,
            asr,
            filesize,
            container,
        } = raw;
        let format_id = match format_id {
            Some(v) => v,
            None => return Err(MissingField::FormatId),
        };
        let ext = match ext {
            Some(v) => v,
            None => return Err(MissingField::Ext),
        };
        let protocol = match protocol {
            Some(v) => v,
            None => return Err(MissingField::Protocol),
        };
        let f = Format {
            format_id,
            format_note,
            ext,
            protocol,
            acodec: lit_none_string(acodec),
            vcodec: lit_none_string(vcodec),
            url,
            width,
            height,
            resolution: lit_none_string(resolution),
            asr,
            filesize,
            container,
        };
        Ok(f)
    }
}

/// Normalizing an already-normalized record changes nothing, and the
/// `"none"` sentinel never survives normalization in the codec and
/// resolution fields.
pub proof fn lemma_normalize_idempotent(raw: RawFormat, f: Format, g: Format)
    requires
        f.normalized_from(raw),
        g.normalized_from(f.as_raw()),
    ensures
        g == f,
        f.acodec matches Some(s) ==> s@ != none_sentinel(),
        f.vcodec matches Some(s) ==> s@ != none_sentinel(),
        f.resolution matches Some(s) ==> s@ != none_sentinel(),
{
}

/// Why a reported catalog cannot be used.
#[derive(Debug, Clone, Copy, PartialEq, Eq, Structural)]
pub enum CatalogError {
    /// The record at `index` lacks the required `field`.
    Schema { index: usize, field: MissingField },
    /// The catalog holds no format at all.
    Empty,
}

/// The first required field that `raw` lacks, if any.
pub open spec fn missing_field(raw: RawFormat) -> Option<MissingField> {
    if raw.format_id is None {
        Some(MissingField::FormatId)
    } else if raw.ext is None {
        Some(MissingField::Ext)
    } else if raw.protocol is None {
        Some(MissingField::Protocol)
    } else {
        None
    }
}

/// Normalizes each record of a reported catalog, keeping their order. An
/// empty catalog is refused, and so is one with a record that lacks a
/// required field: the error names the first such record and its field.
pub fn normalize_formats(raws: Vec<RawFormat>) -> (r: Result<Vec<Format>, CatalogError>)
    ensures
        raws@.len() == 0 ==> r == Err::<Vec<Format>, CatalogError>(CatalogError::Empty),
        r is Ok <==> (raws@.len() > 0 && forall|i: int|
            0 <= i < raws@.len() ==> missing_field(#[trigger] raws@[i]) is None),
        r matches Ok(v) ==> v@.len() == raws@.len() && forall|i: int|
            0 <= i < v@.len() ==> (#[trigger] v@[i]).normalized_from(raws@[i]) && v@[i].well_formed(),
        r matches Err(CatalogError::Schema { index, field }) ==> raws@.len() > 0 && index
            < raws@.len() && missing_field(raws@[index as int]) == Some(field) && forall|i: int|
            0 <= i < index ==> missing_field(#[trigger] raws@[i]) is None,
{
    if raws.len() == 0 {
        return Err(CatalogError::Empty);
    }
    let ghost orig = raws@;
    let n = raws.len();
    let mut rest = raws;
    let mut out: Vec<Format> = Vec::new();
    let mut k: usize = 0;
    while k < n
        invariant
            orig == raws@,
            n == orig.len(),
            n > 0,
            k <= n,
            rest@ == orig.subrange(k as int, n as int),
            out@.len() == k,
            forall|i: int| 0 <= i < k ==> missing_field(#[trigger] orig[i]) is None,
            forall|i: int|
                0 <= i < k ==> (#[trigger] out@[i]).normalized_from(orig[i]) && out@[i].well_formed(),
        decreases n - k,
    {
        let raw = rest.remove(0);
        assert(raw == orig[k as int]);
        match Format::normalize(raw) {
            Ok(f) => {
                out.push(f);
            },
            Err(field) => {
                assert(missing_field(orig[k as int]) == Some(field));
                return Err(CatalogError::Schema { index: k, field });
            },
        }
        k = k + 1;
        assert(rest@ =~= orig.subrange(k as int, n as int));
    }
    Ok(out)
}

/// The media item as the probe describes it: its title, its catalog of
/// formats in the probe's order of preference, its categories and its
/// subtitle tracks by language code.
pub struct InfoJson {
    pub id: String,
    pub title: String,
    pub formats: Vec<Format>,
    pub thumbnails: Option<Vec<Thumbnail>>,
    pub categories: Option<Vec<String>>,
    pub automatic_captions: Option<Vec<(String, Vec<AutomaticCaptionInfo>)>>,
    pub subtitles: Option<Vec<(String, Subtitles)>>,
    pub extractor: String,
    pub extractor_key: String,
    pub webpage_url: String,
    pub version: Version,
}

impl InfoJson {
    /// Every record of the catalog is normalized.
    pub open spec fn well_formed(&self) -> bool {
        forall|i: int| 0 <= i < self.formats@.len() ==> (#[trigger] self.formats@[i]).well_formed()
    }
}

} // verus!
