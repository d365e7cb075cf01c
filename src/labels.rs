//! The text shown for each entry of the pickers and menus.

use vstd::prelude::*;
use crate::infojson::{Format, SubtitleInfo};
use crate::preset::Preset;

verus! {

/// The text that humansize writes for a byte count in binary units.
pub uninterp spec fn binary_size(n: u64) -> Seq<char>;

/// Relies on `humansize::format_size` with the `BINARY` options: the byte
/// count written in binary units (KiB, MiB, ...). Its text depends on the
/// count alone.
#[verifier::external_body]
fn format_binary_size(n: u64) -> (r: String)
    ensures
        r@ == binary_size(n),
{
    humansize::format_size(n, humansize::BINARY)
}

/// The text cut or padded with spaces to exactly four characters.
pub open spec fn fit4(s: Seq<char>) -> Seq<char> {
    if s.len() >= 4 {
        s.take(4)
    } else {
        s + Seq::new((4 - s.len()) as nat, |i: int| ' ')
    }
}

/// The decimal digit for `d`.
pub open spec fn digit_char(d: nat) -> char {
    if d == 0 { '0' }
    else if d == 1 { '1' }
    else if d == 2 { '2' }
    else if d == 3 { '3' }
    else if d == 4 { '4' }
    else if d == 5 { '5' }
    else if d == 6 { '6' }
    else if d == 7 { '7' }
    else if d == 8 { '8' }
    else { '9' }
}

/// The decimal digits of `n`, without leading zeros.
pub open spec fn digits(n: nat) -> Seq<char>
    decreases n,
{
    if n < 10 {
        seq![digit_char(n)]
    } else {
        digits(n / 10) + seq![digit_char(n % 10)]
    }
}

/// A sample rate in whole kHz, rounded toward zero, followed by `k`.
pub open spec fn khz_text(rate: i64) -> Seq<char> {
    let m: nat = if rate < 0 { (-rate) as nat } else { rate as nat };
    let q: nat = m / 1000;
    let sign = if rate < 0 && q > 0 { seq!['-'] } else { Seq::<char>::empty() };
    sign + digits(q) + seq!['k']
}

/// A codec column: the codec's name fitted to four characters.
pub open spec fn codec_cell(c: Option<String>) -> Seq<char> {
    match c {
        Some(s) => fit4(s@),
        None => Seq::empty(),
    }
}

/// An optional text after one space.
pub open spec fn spaced(o: Option<String>) -> Seq<char> {
    match o {
        Some(s) => seq![' '] + s@,
        None => Seq::empty(),
    }
}

/// An optional size after one space.
pub open spec fn size_part(o: Option<u64>) -> Seq<char> {
    match o {
        Some(n) => seq![' '] + binary_size(n),
        None => Seq::empty(),
    }
}

/// An optional sample rate after one space.
pub open spec fn rate_part(o: Option<i64>) -> Seq<char> {
    match o {
        Some(a) => seq![' '] + khz_text(a),
        None => Seq::empty(),
    }
}

/// The protocol in parentheses, after one space.
pub open spec fn protocol_part(p: Seq<char>) -> Seq<char> {
    seq![' ', '('] + p + seq![')']
}

/// A video picker entry: codec, resolution, size, note and protocol.
pub open spec fn video_label_text(f: Format) -> Seq<char> {
    codec_cell(f.vcodec) + spaced(f.resolution) + size_part(f.filesize) + spaced(f.format_note)
        + protocol_part(f.protocol@)
}

/// An audio picker entry: codec, sample rate in kHz, size, note and protocol.
pub open spec fn audio_label_text(f: Format) -> Seq<char> {
    codec_cell(f.acodec) + rate_part(f.asr) + size_part(f.filesize) + spaced(f.format_note)
        + protocol_part(f.protocol@)
}

/// What a picker shows once a record is chosen: its identifier, and its
/// codec after a dash where it has one.
pub open spec fn pick_summary_text(id: Seq<char>, codec: Option<String>) -> Seq<char> {
    match codec {
        Some(c) => id + seq![' ', '-', ' '] + c@,
        None => id,
    }
}

fn digit_str(d: u64) -> (r: &'static str)
    requires
        d < 10,
    ensures
        r@ == seq![digit_char(d as nat)],
{
    if d == 0 {
        proof { reveal_strlit("0"); }
        "0"
    } else if d == 1 {
        proof { reveal_strlit("1"); }
        "1"
    } else if d == 2 {
        proof { reveal_strlit("2"); }
        "2"
    } else if d == 3 {
        proof { reveal_strlit("3"); }
        "3"
    } else if d == 4 {
        proof { reveal_strlit("4"); }
        "4"
    } else if d == 5 {
        proof { reveal_strlit("5"); }
        "5"
    } else if d == 6 {
        proof { reveal_strlit("6"); }
        "6"
    } else if d == 7 {
        proof { reveal_strlit("7"); }
        "7"
    } else if d == 8 {
        proof { reveal_strlit("8"); }
        "8"
    } else {
        proof { reveal_strlit("9"); }
        "9"
    }
}

fn push_digits(n: u64, out: &mut String)
    ensures
        final(out)@ == old(out)@ + digits(n as nat),
    decreases n,
{
    if n >= 10 {
        push_digits(n / 10, out);
    }
    out.append(digit_str(n % 10));
    assert(n >= 10 ==> digits(n as nat) == digits((n / 10) as nat) + seq![digit_char((n % 10) as nat)]);
}

fn push_khz(rate: i64, out: &mut String)
    ensures
        final(out)@ == old(out)@ + khz_text(rate),
{
    let m: u64 = if rate >= 0 { rate as u64 } else { ((-(rate + 1)) as u64) + 1 };
    let q = m / 1000;
    if rate < 0 && q > 0 {
        out.append("-");
        proof { reveal_strlit("-"); }
    }
    push_digits(q, out);
    out.append("k");
    proof { reveal_strlit("k"); }
}

fn push_fit4(s: &String, out: &mut String)
    ensures
        final(out)@ == old(out)@ + fit4(s@),
{
    let n = s.as_str().unicode_len();
    if n >= 4 {
        out.append(s.as_str().substring_char(0, 4));
    } else {
        let ghost start = out@;
        out.append(s.as_str());
        let mut k: usize = n;
        while k < 4
            invariant
                n == s@.len(),
                n <= k <= 4,
                out@ == start + s@ + Seq::new((k - n) as nat, |i: int| ' '),
            decreases 4 - k,
        {
            out.append(" ");
            proof {
                reveal_strlit(" ");
                assert(Seq::new((k - n) as nat, |i: int| ' ').push(' ') =~= Seq::new((k + 1 - n) as nat, |i: int| ' '));
            }
            k = k + 1;
        }
    }
}

fn push_common_tail(f: &Format, out: &mut String)
    ensures
        final(out)@ == old(out)@ + size_part(f.filesize) + spaced(f.format_note) + protocol_part(f.protocol@),
{
    let ghost start = out@;
    proof {
        reveal_strlit(" ");
        reveal_strlit(" (");
        reveal_strlit(")");
    }
    match f.filesize {
        Some(n) => {
            out.append(" ");
            let t = format_binary_size(n);
            out.append(t.as_str());
        },
        None => {},
    }
    assert(out@ =~= start + size_part(f.filesize));
    let ghost mid = out@;
    match &f.format_note {
        Some(note) => {
            out.append(" ");
            out.append(note.as_str());
        },
        None => {},
    }
    assert(out@ =~= mid + spaced(f.format_note));
    let ghost mid2 = out@;
    out.append(" (");
    out.append(f.protocol.as_str());
    out.append(")");
    assert(out@ =~= mid2 + protocol_part(f.protocol@));
}

/// The text of a video picker entry.
pub fn video_label(f: &Format) -> (r: String)
    ensures
        r@ == video_label_text(*f),
{
    proof {
        reveal_strlit(" ");
    }
    let mut out = String::new();
    match &f.vcodec {
        Some(c) => push_fit4(c, &mut out),
        None => {},
    }
    assert(out@ =~= codec_cell(f.vcodec));
    let ghost mid = out@;
    match &f.resolution {
        Some(res) => {
            out.append(" ");
            out.append(res.as_str());
        },
        None => {},
    }
    assert(out@ =~= mid + spaced(f.resolution));
    let ghost mid2 = out@;
    push_common_tail(f, &mut out);
    assert(out@ =~= video_label_text(*f));
    out
}

/// The text of an audio picker entry.
pub fn audio_label(f: &Format) -> (r: String)
    ensures
        r@ == audio_label_text(*f),
{
    proof {
        reveal_strlit(" ");
    }
    let mut out = String::new();
    match &f.acodec {
        Some(c) => push_fit4(c, &mut out),
        None => {},
    }
    assert(out@ =~= codec_cell(f.acodec));
    let ghost mid = out@;
    match f.asr {
        Some(a) => {
            out.append(" ");
            push_khz(a, &mut out);
        },
        None => {},
    }
    assert(out@ =~= mid + rate_part(f.asr));
    push_common_tail(f, &mut out);
    assert(out@ =~= audio_label_text(*f));
    out
}

fn pick_summary(id: &String, codec: &Option<String>) -> (r: String)
    ensures
        r@ == pick_summary_text(id@, *codec),
{
    let mut out = id.clone();
    match codec {
        Some(c) => {
            out.append(" - ");
            proof { reveal_strlit(" - "); }
            out.append(c.as_str());
        },
        None => {},
    }
    out
}

/// What the video picker shows once `f` is chosen.
pub fn video_summary(f: &Format) -> (r: String)
    ensures
        r@ == pick_summary_text(f.format_id@, f.vcodec),
{
    pick_summary(&f.format_id, &f.vcodec)
}

/// What the audio picker shows once `f` is chosen.
pub fn audio_summary(f: &Format) -> (r: String)
    ensures
        r@ == pick_summary_text(f.format_id@, f.acodec),
{
    pick_summary(&f.format_id, &f.acodec)
}

/// The menu text of a preset.
pub open spec fn preset_label_text(p: Preset) -> Seq<char> {
    match p {
        Preset::Custom => "custom"@,
        Preset::Manual => "manual"@,
        Preset::Best => "best"@,
        Preset::BestAudio => "best audio"@,
        Preset::BestVideo => "best video"@,
    }
}

impl Preset {
    /// The preset's menu text.
    pub fn label(&self) -> (r: String)
        ensures
            r@ == preset_label_text(*self),
    {
        match self {
            Preset::Custom => String::from_str("custom"),
            Preset::Manual => String::from_str("manual"),
            Preset::Best => String::from_str("best"),
            Preset::BestAudio => String::from_str("best audio"),
            Preset::BestVideo => String::from_str("best video"),
        }
    }
}

/// A subtitle language's menu text: the name of its first track where
/// that has one, the language code otherwise.
pub open spec fn subtitle_label_text(lang: Seq<char>, tracks: Seq<SubtitleInfo>) -> Seq<char> {
    if tracks.len() > 0 && tracks[0].name is Some {
        tracks[0].name->0@
    } else {
        lang
    }
}

/// The menu text of a subtitle language.
pub fn subtitle_label(lang: &String, tracks: &Vec<SubtitleInfo>) -> (r: String)
    ensures
        r@ == subtitle_label_text(lang@, tracks@),
{
    if tracks.len() > 0 {
        match &tracks[0].name {
            Some(n) => return n.clone(),
            None => {},
        }
    }
    lang.clone()
}

} // verus!
