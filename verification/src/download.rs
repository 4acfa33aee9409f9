//! What the downloader decides: the yt-dlp command lines, how yt-dlp's JSON output
//! becomes track records, and where downloaded files are stored.

use vstd::prelude::*;
use crate::cli::{Browser, browser_name};
use crate::config::{path_join, joined_path};
use crate::queue::{views, lemma_views_push};
use crate::text::{
    chars_of, lower_char, lower_seq, opt_view, push_char, str_eq, to_ascii_lowercase,
    to_lower_char, trim_seq, trim, decimal, u64_to_decimal,
};

verus! {

#[verifier::external_type_specification]
#[verifier::external_body]
pub struct ExJsonError(serde_json::Error);

#[verifier::external_type_specification]
#[verifier::external_body]
pub struct ExUrlParseError(url::ParseError);

/// The name for the members of the JSON text `line`: for a top-level object, each
/// member's key with its value when that value is a string; for any other JSON value,
/// no members; none at all when `line` is not JSON.
pub uninterp spec fn json_object_fields(line: Seq<char>) -> Option<Seq<(Seq<char>, Option<Seq<char>>)>>;

/// The plain form of a list of JSON members.
pub open spec fn fields_view(v: Seq<(String, Option<String>)>) -> Seq<(Seq<char>, Option<Seq<char>>)> {
    v.map_values(|p: (String, Option<String>)| (p.0@, opt_view(p.1)))
}

/// `serde_json::from_str::<serde_json::Value>` on one line, read back as the top-level
/// object's members, each with its value when that is a JSON string.
#[verifier::external_body]
fn parse_json_fields(line: &str) -> (r: Result<Vec<(String, Option<String>)>, serde_json::Error>)
    ensures
        r is Ok <==> json_object_fields(line@) is Some,
        r matches Ok(v) ==> fields_view(v@) == json_object_fields(line@)->0,
{
    let value: serde_json::Value = serde_json::from_str(line)?;
    Ok(match value.as_object() {
        Some(map) => map.iter().map(|(k, v)| (k.clone(), v.as_str().map(String::from))).collect(),
        None => Vec::new(),
    })
}

/// The name for the text of the URL `link` once `url::Url::parse` has read and
/// normalised it; none when `link` is not a URL.
pub uninterp spec fn normalized_url(link: Seq<char>) -> Option<Seq<char>>;

/// `url::Url::parse`, giving the parsed URL as text (`Url::as_str`).
#[verifier::external_body]
fn parse_url(link: &str) -> (r: Result<String, url::ParseError>)
    ensures
        r is Ok <==> normalized_url(link@) is Some,
        r matches Ok(s) ==> s@ == normalized_url(link@)->0,
{
    url::Url::parse(link).map(|u| u.as_str().to_string())
}

/// One line of yt-dlp's output that is not JSON.
#[derive(Debug)]
pub struct BadJsonLine {
    pub line: String,
    pub cause: serde_json::Error,
}

/// The value of member `key`: absent, present but not a string, or a string.
pub open spec fn member(fs: Seq<(Seq<char>, Option<Seq<char>>)>, key: Seq<char>) -> Option<Option<Seq<char>>>
    decreases fs.len(),
{
    if fs.len() == 0 {
        None
    } else if fs[0].0 == key {
        Some(fs[0].1)
    } else {
        member(fs.drop_first(), key)
    }
}

/// The string value of member `key`, if it is present and a string.
pub open spec fn string_member(fs: Seq<(Seq<char>, Option<Seq<char>>)>, key: Seq<char>) -> Option<Seq<char>> {
    match member(fs, key) {
        Some(Some(s)) => Some(s),
        _ => None,
    }
}

/// The string value of the first of `first` and `second` that is present, if that one
/// is a string.
pub open spec fn first_present(fs: Seq<(Seq<char>, Option<Seq<char>>)>, first: Seq<char>, second: Seq<char>) -> Option<Seq<char>> {
    match member(fs, first) {
        Some(v) => v,
        None => match member(fs, second) {
            Some(v) => v,
            None => None,
        },
    }
}

fn lookup_member(fields: &Vec<(String, Option<String>)>, key: &str) -> (r: Option<Option<String>>)
    ensures
        match r {
            None => member(fields_view(fields@), key@) is None,
            Some(v) => member(fields_view(fields@), key@) == Some(opt_view(v)),
        },
{
    let ghost fs = fields_view(fields@);
    let mut i: usize = 0;
    assert(fs.skip(0) == fs);
    while i < fields.len()
        invariant
            i <= fields.len(),
            fs == fields_view(fields@),
            member(fs, key@) == member(fs.skip(i as int), key@),
        decreases fields.len() - i,
    {
        assert(fs.skip(i as int)[0] == fs[i as int]);
        if str_eq(fields[i].0.as_str(), key) {
            return Some(fields[i].1.clone());
        }
        assert(fs.skip(i as int).drop_first() == fs.skip(i + 1));
        i = i + 1;
    }
    None
}

fn lookup_string(fields: &Vec<(String, Option<String>)>, key: &str) -> (r: Option<String>)
    ensures
        opt_view(r) == string_member(fields_view(fields@), key@),
{
    match lookup_member(fields, key) {
        Some(Some(s)) => Some(s),
        _ => None,
    }
}

fn lookup_first_present(fields: &Vec<(String, Option<String>)>, first: &str, second: &str) -> (r: Option<String>)
    ensures
        opt_view(r) == first_present(fields_view(fields@), first@, second@),
{
    match lookup_member(fields, first) {
        Some(v) => v,
        None => match lookup_member(fields, second) {
            Some(v) => v,
            None => None,
        },
    }
}

fn string_or(s: Option<String>, default: &str) -> (r: String)
    ensures
        r@ == match opt_view(s) {
            Some(x) => x,
            None => default@,
        },
{
    match s {
        Some(x) => x,
        None => String::from_str(default),
    }
}

fn lowered(s: Option<String>) -> (r: Option<String>)
    ensures
        opt_view(r) == match opt_view(s) {
            Some(x) => Some(lower_seq(x)),
            None => None,
        },
{
    match s {
        Some(x) => Some(to_ascii_lowercase(x.as_str())),
        None => None,
    }
}

/// `extractor:extractor_id`, the id a track is known by.
pub open spec fn track_id(extractor: Seq<char>, extractor_id: Seq<char>) -> Seq<char> {
    extractor + ":"@ + extractor_id
}

fn make_track_id(extractor: &str, extractor_id: &str) -> (r: String)
    ensures
        r@ == track_id(extractor@, extractor_id@),
{
    let mut r = String::from_str(extractor);
    r.append(":");
    r.append(extractor_id);
    r
}

/// One entry of a flat listing of a link.
#[derive(Debug, Clone)]
pub struct FlatEntry {
    pub id: String,
    pub extractor: String,
    pub extractor_id: String,
    pub title: String,
    pub url: String,
    pub playlist_id: Option<String>,
    pub playlist_title: Option<String>,
}

/// A flat entry as plain values.
pub struct FlatEntryView {
    pub id: Seq<char>,
    pub extractor: Seq<char>,
    pub extractor_id: Seq<char>,
    pub title: Seq<char>,
    pub url: Seq<char>,
    pub playlist_id: Option<Seq<char>>,
    pub playlist_title: Option<Seq<char>>,
}

impl View for FlatEntry {
    type V = FlatEntryView;

    open spec fn view(&self) -> FlatEntryView {
        FlatEntryView {
            id: self.id@,
            extractor: self.extractor@,
            extractor_id: self.extractor_id@,
            title: self.title@,
            url: self.url@,
            playlist_id: opt_view(self.playlist_id),
            playlist_title: opt_view(self.playlist_title),
        }
    }
}

/// The flat entry yt-dlp's members `fs` describe; `link` is the listed link, used
/// when the entry names no URL of its own.
pub open spec fn flat_entry_of(fs: Seq<(Seq<char>, Option<Seq<char>>)>, link: Seq<char>) -> FlatEntryView {
    let extractor = match string_member(fs, "ie_key"@) {
        Some(s) => lower_seq(s),
        None => match string_member(fs, "extractor"@) {
            Some(s) => lower_seq(s),
            None => "unknown"@,
        },
    };
    let extractor_id = match string_member(fs, "id"@) {
        Some(s) => s,
        None => ""@,
    };
    FlatEntryView {
        id: track_id(extractor, extractor_id),
        extractor: extractor,
        extractor_id: extractor_id,
        title: match string_member(fs, "title"@) {
            Some(s) => s,
            None => ""@,
        },
        url: match first_present(fs, "webpage_url"@, "url"@) {
            Some(s) => s,
            None => link,
        },
        playlist_id: string_member(fs, "playlist_id"@),
        playlist_title: string_member(fs, "playlist_title"@),
    }
}

/// The flat entry described by one line's JSON members.
pub fn flat_entry(fields: &Vec<(String, Option<String>)>, link: &str) -> (e: FlatEntry)
    ensures
        e@ == flat_entry_of(fields_view(fields@), link@),
{
    let extractor = match lowered(lookup_string(fields, "ie_key")) {
        Some(s) => s,
        None => string_or(lowered(lookup_string(fields, "extractor")), "unknown"),
    };
    let extractor_id = string_or(lookup_string(fields, "id"), "");
    let title = string_or(lookup_string(fields, "title"), "");
    let url = string_or(lookup_first_present(fields, "webpage_url", "url"), link);
    FlatEntry {
        id: make_track_id(extractor.as_str(), extractor_id.as_str()),
        extractor,
        extractor_id,
        title,
        url,
        playlist_id: lookup_string(fields, "playlist_id"),
        playlist_title: lookup_string(fields, "playlist_title"),
    }
}

/// A track's full metadata, as yt-dlp reports it. Its duration, a floating-point
/// number, is read by the caller from the same line.
#[derive(Debug, Clone)]
pub struct VideoMeta {
    pub id: String,
    pub extractor: String,
    pub extractor_id: String,
    pub title: String,
    pub artist: Option<String>,
    pub album: Option<String>,
    pub upload_date: Option<String>,
    pub webpage_url: String,
    pub thumbnail_url: Option<String>,
}

/// Full metadata as plain values.
pub struct VideoMetaView {
    pub id: Seq<char>,
    pub extractor: Seq<char>,
    pub extractor_id: Seq<char>,
    pub title: Seq<char>,
    pub artist: Option<Seq<char>>,
    pub album: Option<Seq<char>>,
    pub upload_date: Option<Seq<char>>,
    pub webpage_url: Seq<char>,
    pub thumbnail_url: Option<Seq<char>>,
}

impl View for VideoMeta {
    type V = VideoMetaView;

    open spec fn view(&self) -> VideoMetaView {
        VideoMetaView {
            id: self.id@,
            extractor: self.extractor@,
            extractor_id: self.extractor_id@,
            title: self.title@,
            artist: opt_view(self.artist),
            album: opt_view(self.album),
            upload_date: opt_view(self.upload_date),
            webpage_url: self.webpage_url@,
            thumbnail_url: opt_view(self.thumbnail_url),
        }
    }
}

/// The metadata yt-dlp's members `fs` describe.
pub open spec fn video_meta_of(fs: Seq<(Seq<char>, Option<Seq<char>>)>) -> VideoMetaView {
    let extractor = match string_member(fs, "extractor"@) {
        Some(s) => lower_seq(s),
        None => "unknown"@,
    };
    let extractor_id = match string_member(fs, "id"@) {
        Some(s) => s,
        None => ""@,
    };
    VideoMetaView {
        id: track_id(extractor, extractor_id),
        extractor: extractor,
        extractor_id: extractor_id,
        title: match string_member(fs, "title"@) {
            Some(s) => s,
            None => ""@,
        },
        artist: string_member(fs, "artist"@),
        album: string_member(fs, "album"@),
        upload_date: string_member(fs, "upload_date"@),
        webpage_url: match first_present(fs, "webpage_url"@, "url"@) {
            Some(s) => s,
            None => ""@,
        },
        thumbnail_url: string_member(fs, "thumbnail"@),
    }
}

/// The metadata described by one line's JSON members.
pub fn video_meta(fields: &Vec<(String, Option<String>)>) -> (m: VideoMeta)
    ensures
        m@ == video_meta_of(fields_view(fields@)),
{
    let extractor = string_or(lowered(lookup_string(fields, "extractor")), "unknown");
    let extractor_id = string_or(lookup_string(fields, "id"), "");
    VideoMeta {
        id: make_track_id(extractor.as_str(), extractor_id.as_str()),
        extractor,
        extractor_id,
        title: string_or(lookup_string(fields, "title"), ""),
        artist: lookup_string(fields, "artist"),
        album: lookup_string(fields, "album"),
        upload_date: lookup_string(fields, "upload_date"),
        webpage_url: string_or(lookup_first_present(fields, "webpage_url", "url"), ""),
        thumbnail_url: lookup_string(fields, "thumbnail"),
    }
}


/// The pieces of `s` between line breaks; there is always at least one.
pub open spec fn split_lines(s: Seq<char>) -> Seq<Seq<char>>
    decreases s.len(),
{
    if s.len() == 0 {
        seq![Seq::empty()]
    } else {
        let p = split_lines(s.drop_last());
        if s.last() == '\n' {
            p.push(Seq::empty())
        } else {
            p.update(p.len() - 1, p.last().push(s.last()))
        }
    }
}

/// The pieces that hold more than white space, trimmed.
pub open spec fn kept_lines(pieces: Seq<Seq<char>>) -> Seq<Seq<char>>
    decreases pieces.len(),
{
    if pieces.len() == 0 {
        Seq::empty()
    } else {
        kept_lines(pieces.drop_last()) + if trim_seq(pieces.last()).len() > 0 {
            seq![trim_seq(pieces.last())]
        } else {
            Seq::empty()
        }
    }
}

/// The trimmed, non-blank lines of a program's output.
pub open spec fn output_lines(s: Seq<char>) -> Seq<Seq<char>> {
    kept_lines(split_lines(s))
}

proof fn lemma_split_lines_nonempty(s: Seq<char>)
    ensures
        split_lines(s).len() >= 1,
    decreases s.len(),
{
    if s.len() > 0 {
        lemma_split_lines_nonempty(s.drop_last());
    }
}

proof fn lemma_kept_lines_trimmed(pieces: Seq<Seq<char>>)
    ensures
        forall|i: int|
            0 <= i < kept_lines(pieces).len() ==> {
                &&& (#[trigger] kept_lines(pieces)[i]).len() > 0
                &&& trim_seq(kept_lines(pieces)[i]) == kept_lines(pieces)[i]
            },
    decreases pieces.len(),
{
    if pieces.len() > 0 {
        lemma_kept_lines_trimmed(pieces.drop_last());
        crate::text::lemma_trim_idempotent(pieces.last());
        let front = kept_lines(pieces.drop_last());
        assert forall|i: int| 0 <= i < kept_lines(pieces).len() implies {
            &&& (#[trigger] kept_lines(pieces)[i]).len() > 0
            &&& trim_seq(kept_lines(pieces)[i]) == kept_lines(pieces)[i]
        } by {
            if i < front.len() {
                assert(kept_lines(pieces)[i] == front[i]);
            }
        }
    }
}

/// Every line kept from a program's output holds more than white space and is
/// already trimmed.
pub proof fn law_output_lines_trimmed_and_nonblank(s: Seq<char>)
    ensures
        forall|i: int|
            0 <= i < output_lines(s).len() ==> {
                &&& (#[trigger] output_lines(s)[i]).len() > 0
                &&& trim_seq(output_lines(s)[i]) == output_lines(s)[i]
            },
{
    lemma_kept_lines_trimmed(split_lines(s));
}

fn push_if_kept(out: &mut Vec<String>, piece: &Vec<char>)
    ensures
        views(final(out)@) == views(old(out)@) + if trim_seq(piece@).len() > 0 {
            seq![trim_seq(piece@)]
        } else {
            Seq::<Seq<char>>::empty()
        },
{
    let text = crate::text::string_from_chars(piece);
    let t = trim(text.as_str());
    let tc = chars_of(t.as_str());
    if tc.len() > 0 {
        proof {
            lemma_views_push(out@, t);
        }
        out.push(t);
    } else {
        assert(views(out@) =~= views(out@) + Seq::<Seq<char>>::empty());
    }
}

/// The trimmed, non-blank lines of a program's output, in order.
pub fn lines_of_output(text: &str) -> (r: Vec<String>)
    ensures
        views(r@) == output_lines(text@),
{
    let cs = chars_of(text);
    let mut out: Vec<String> = Vec::new();
    let mut cur: Vec<char> = Vec::new();
    let mut i: usize = 0;
    proof {
        assert(text@.take(0) =~= Seq::<char>::empty());
    }
    while i < cs.len()
        invariant
            cs@ == text@,
            i <= cs.len(),
            split_lines(text@.take(i as int)).len() >= 1,
            views(out@) == kept_lines(split_lines(text@.take(i as int)).drop_last()),
            cur@ == split_lines(text@.take(i as int)).last(),
        decreases cs.len() - i,
    {
        let ghost p = split_lines(text@.take(i as int));
        let ghost q = split_lines(text@.take(i + 1));
        assert(text@.take(i + 1).drop_last() == text@.take(i as int));
        assert(text@.take(i + 1).last() == cs@[i as int]);
        let c = cs[i];
        if c == '\n' {
            assert(q == p.push(Seq::<char>::empty()));
            assert(q.drop_last() == p);
            assert(p == p.drop_last().push(p.last()));
            push_if_kept(&mut out, &cur);
            cur = Vec::new();
            assert(cur@ =~= q.last());
        } else {
            assert(q == p.update(p.len() - 1, p.last().push(c)));
            assert(q.drop_last() =~= p.drop_last());
            cur.push(c);
        }
        i = i + 1;
    }
    assert(text@.take(cs.len() as int) == text@);
    let ghost all = split_lines(text@);
    assert(all == all.drop_last().push(all.last()));
    push_if_kept(&mut out, &cur);
    out
}

/// Each line's JSON members, or the first line that is not JSON.
pub fn parse_json_lines(lines: &Vec<String>) -> (r: Result<Vec<Vec<(String, Option<String>)>>, BadJsonLine>)
    ensures
        r matches Ok(v) ==> {
            &&& v.len() == lines.len()
            &&& forall|i: int|
                0 <= i < lines.len() ==> json_object_fields(lines@[i]@) == Some(
                    fields_view(#[trigger] v@[i]@),
                )
        },
        r matches Err(e) ==> exists|i: int|
            0 <= i < lines.len() && json_object_fields(#[trigger] lines@[i]@) is None
                && e.line@ == lines@[i]@ && forall|j: int|
                0 <= j < i ==> json_object_fields(lines@[j]@) is Some,
{
    let mut out: Vec<Vec<(String, Option<String>)>> = Vec::new();
    let mut i: usize = 0;
    while i < lines.len()
        invariant
            i <= lines.len(),
            out.len() == i,
            forall|j: int|
                0 <= j < i ==> json_object_fields(lines@[j]@) == Some(
                    fields_view(#[trigger] out@[j]@),
                ),
        decreases lines.len() - i,
    {
        match parse_json_fields(lines[i].as_str()) {
            Ok(fields) => {
                out.push(fields);
            },
            Err(cause) => {
                let line = lines[i].clone();
                assert forall|j: int| 0 <= j < i implies json_object_fields(lines@[j]@) is Some by {
                    assert(json_object_fields(lines@[j]@) == Some(fields_view(out@[j]@)));
                }
                return Err(BadJsonLine { line, cause });
            },
        }
        i = i + 1;
    }
    Ok(out)
}

/// The flat entries listed in yt-dlp's output, one per non-blank line; `link` is the
/// listed link. Fails on the first line that is not JSON.
pub fn flat_entries(stdout: &str, link: &str) -> (r: Result<Vec<FlatEntry>, BadJsonLine>)
    ensures
        ({
            let lines = output_lines(stdout@);
            &&& r matches Ok(v) ==> {
                &&& v.len() == lines.len()
                &&& forall|i: int|
                    0 <= i < lines.len() ==> json_object_fields(#[trigger] lines[i]) is Some
                &&& forall|i: int|
                    0 <= i < lines.len() ==> #[trigger] v@[i]@ == flat_entry_of(json_object_fields(lines[i])->0, link@)
            }
            &&& r matches Err(e) ==> exists|i: int|
                0 <= i < lines.len() && json_object_fields(#[trigger] lines[i]) is None
                    && e.line@ == lines[i] && forall|j: int|
                    0 <= j < i ==> json_object_fields(lines[j]) is Some
        }),
{
    let lines = lines_of_output(stdout);
    let parsed = match parse_json_lines(&lines) {
        Ok(p) => p,
        Err(e) => {
            proof {
                let w = choose|i: int|
                    0 <= i < lines.len() && json_object_fields(#[trigger] lines@[i]@) is None
                        && e.line@ == lines@[i]@ && forall|j: int|
                        0 <= j < i ==> json_object_fields(lines@[j]@) is Some;
                assert(views(lines@)[w] == lines@[w]@);
                assert forall|j: int| 0 <= j < w implies json_object_fields(
                    output_lines(stdout@)[j],
                ) is Some by {
                    assert(views(lines@)[j] == lines@[j]@);
                }
            }
            return Err(e);
        },
    };
    let mut out: Vec<FlatEntry> = Vec::new();
    let mut i: usize = 0;
    while i < parsed.len()
        invariant
            i <= parsed.len(),
            parsed.len() == lines.len(),
            views(lines@) == output_lines(stdout@),
            out.len() == i,
            forall|j: int|
                0 <= j < lines.len() ==> json_object_fields(lines@[j]@) == Some(
                    fields_view(#[trigger] parsed@[j]@),
                ),
            forall|j: int|
                0 <= j < i ==> #[trigger] out@[j]@ == flat_entry_of(fields_view(parsed@[j]@), link@),
        decreases parsed.len() - i,
    {
        out.push(flat_entry(&parsed[i], link));
        i = i + 1;
    }
    proof {
        assert forall|j: int| 0 <= j < lines.len() implies json_object_fields(
            #[trigger] output_lines(stdout@)[j],
        ) is Some by {
            assert(views(lines@)[j] == lines@[j]@);
            assert(json_object_fields(lines@[j]@) == Some(fields_view(parsed@[j]@)));
        }
        assert forall|j: int| 0 <= j < lines.len() implies {
            &&& json_object_fields(output_lines(stdout@)[j]) is Some
            &&& #[trigger] out@[j]@ == flat_entry_of(
                json_object_fields(output_lines(stdout@)[j])->0,
                link@,
            )
        } by {
            assert(views(lines@)[j] == lines@[j]@);
            assert(json_object_fields(lines@[j]@) == Some(fields_view(parsed@[j]@)));
        }
    }
    Ok(out)
}

/// The metadata listed in yt-dlp's output, one per non-blank line. Fails on the first
/// line that is not JSON.
pub fn video_metas(stdout: &str) -> (r: Result<Vec<VideoMeta>, BadJsonLine>)
    ensures
        ({
            let lines = output_lines(stdout@);
            &&& r matches Ok(v) ==> {
                &&& v.len() == lines.len()
                &&& forall|i: int|
                    0 <= i < lines.len() ==> json_object_fields(#[trigger] lines[i]) is Some
                &&& forall|i: int|
                    0 <= i < lines.len() ==> #[trigger] v@[i]@ == video_meta_of(json_object_fields(lines[i])->0)
            }
            &&& r matches Err(e) ==> exists|i: int|
                0 <= i < lines.len() && json_object_fields(#[trigger] lines[i]) is None
                    && e.line@ == lines[i] && forall|j: int|
                    0 <= j < i ==> json_object_fields(lines[j]) is Some
        }),
{
    let lines = lines_of_output(stdout);
    let parsed = match parse_json_lines(&lines) {
        Ok(p) => p,
        Err(e) => {
            proof {
                let w = choose|i: int|
                    0 <= i < lines.len() && json_object_fields(#[trigger] lines@[i]@) is None
                        && e.line@ == lines@[i]@ && forall|j: int|
                        0 <= j < i ==> json_object_fields(lines@[j]@) is Some;
                assert(views(lines@)[w] == lines@[w]@);
                assert forall|j: int| 0 <= j < w implies json_object_fields(
                    output_lines(stdout@)[j],
                ) is Some by {
                    assert(views(lines@)[j] == lines@[j]@);
                }
            }
            return Err(e);
        },
    };
    let mut out: Vec<VideoMeta> = Vec::new();
    let mut i: usize = 0;
    while i < parsed.len()
        invariant
            i <= parsed.len(),
            parsed.len() == lines.len(),
            views(lines@) == output_lines(stdout@),
            out.len() == i,
            forall|j: int|
                0 <= j < lines.len() ==> json_object_fields(lines@[j]@) == Some(
                    fields_view(#[trigger] parsed@[j]@),
                ),
            forall|j: int| 0 <= j < i ==> #[trigger] out@[j]@ == video_meta_of(fields_view(parsed@[j]@)),
        decreases parsed.len() - i,
    {
        out.push(video_meta(&parsed[i]));
        i = i + 1;
    }
    proof {
        assert forall|j: int| 0 <= j < lines.len() implies json_object_fields(
            #[trigger] output_lines(stdout@)[j],
        ) is Some by {
            assert(views(lines@)[j] == lines@[j]@);
            assert(json_object_fields(lines@[j]@) == Some(fields_view(parsed@[j]@)));
        }
        assert forall|j: int| 0 <= j < lines.len() implies {
            &&& json_object_fields(output_lines(stdout@)[j]) is Some
            &&& #[trigger] out@[j]@ == video_meta_of(json_object_fields(output_lines(stdout@)[j])->0)
        } by {
            assert(views(lines@)[j] == lines@[j]@);
            assert(json_object_fields(lines@[j]@) == Some(fields_view(parsed@[j]@)));
        }
    }
    Ok(out)
}


/// What is reported after a yt-dlp run: a warning holding its error output when the
/// run failed and wrote some; the output it printed is used either way.
pub open spec fn run_warning(success: bool, stderr: Seq<char>) -> Option<Seq<char>> {
    if !success && stderr.len() > 0 {
        Some("yt-dlp warning: "@ + stderr)
    } else {
        None
    }
}

/// The warning to report after a yt-dlp run, if any.
pub fn yt_dlp_warning(success: bool, stderr: &str) -> (r: Option<String>)
    ensures
        opt_view(r) == run_warning(success, stderr@),
{
    if !success && stderr.unicode_len() > 0 {
        let mut m = String::from_str("yt-dlp warning: ");
        m.append(stderr);
        Some(m)
    } else {
        None
    }
}

fn push_text(v: &mut Vec<String>, s: &str)
    ensures
        views(final(v)@) == views(old(v)@).push(s@),
{
    let t = String::from_str(s);
    proof {
        lemma_views_push(v@, t);
    }
    v.push(t);
}

/// The yt-dlp invocation that lists a link without downloading it.
#[derive(Debug)]
pub struct FlatListing {
    /// The arguments to yt-dlp.
    pub args: Vec<String>,
    /// The link as the URL parser normalised it.
    pub link: String,
}

/// A link that is not a URL.
#[derive(Debug)]
pub struct InvalidUrl {
    pub cause: url::ParseError,
}

/// The yt-dlp arguments that list `link` flatly, one JSON line per entry.
pub open spec fn flat_listing_args(link: Seq<char>) -> Seq<Seq<char>> {
    seq!["--flat-playlist"@, "-j"@, "--no-warnings"@, "--ignore-errors"@, link]
}

/// The flat listing of a link, once the link is read as a URL.
pub fn flat_listing(link: &str) -> (r: Result<FlatListing, InvalidUrl>)
    ensures
        r is Ok <==> normalized_url(link@) is Some,
        r matches Ok(l) ==> {
            &&& l.link@ == normalized_url(link@)->0
            &&& views(l.args@) == flat_listing_args(l.link@)
        },
{
    let parsed = match parse_url(link) {
        Ok(p) => p,
        Err(cause) => return Err(InvalidUrl { cause }),
    };
    let mut args: Vec<String> = Vec::new();
    push_text(&mut args, "--flat-playlist");
    push_text(&mut args, "-j");
    push_text(&mut args, "--no-warnings");
    push_text(&mut args, "--ignore-errors");
    push_text(&mut args, parsed.as_str());
    assert(views(args@) =~= flat_listing_args(parsed@));
    Ok(FlatListing { args, link: parsed })
}

/// The yt-dlp arguments that print the full metadata of each of `urls`.
pub open spec fn full_listing_args(urls: Seq<Seq<char>>) -> Seq<Seq<char>> {
    seq!["-j"@, "--no-warnings"@, "--ignore-errors"@] + urls
}

/// The yt-dlp arguments that print the full metadata of each of `urls`.
pub fn full_metadata_args(urls: &Vec<String>) -> (args: Vec<String>)
    ensures
        views(args@) == full_listing_args(views(urls@)),
{
    let mut args: Vec<String> = Vec::new();
    push_text(&mut args, "-j");
    push_text(&mut args, "--no-warnings");
    push_text(&mut args, "--ignore-errors");
    let ghost head = views(args@);
    let mut i: usize = 0;
    while i < urls.len()
        invariant
            i <= urls.len(),
            views(args@) == head + views(urls@).take(i as int),
            head == seq!["-j"@, "--no-warnings"@, "--ignore-errors"@],
        decreases urls.len() - i,
    {
        push_text(&mut args, urls[i].as_str());
        assert(views(args@) =~= head + views(urls@).take(i + 1));
        i = i + 1;
    }
    assert(views(urls@).take(urls.len() as int) == views(urls@));
    args
}

/// The directory one track is downloaded into before it is moved to its bucket.
pub fn video_temp_dir(temp_dir: &str, extractor_id: &str) -> (d: String)
    ensures
        d@ == joined_path(temp_dir@, extractor_id@),
{
    path_join(temp_dir, extractor_id)
}

/// The yt-dlp arguments that download one track's audio as Vorbis, with its
/// embedded metadata and a JPEG thumbnail, into `dir`.
pub open spec fn download_args_spec(dir: Seq<char>, retries: u32, browser: Option<Browser>, url: Seq<char>) -> Seq<Seq<char>> {
    seq![
        "-f"@,
        "bestaudio/best"@,
        "--extract-audio"@,
        "--audio-format"@,
        "vorbis"@,
        "-P"@,
        dir,
        "--retries"@,
        decimal(retries as nat),
        "--continue"@,
        "--ignore-errors"@,
        "--embed-metadata"@,
        "--write-thumbnail"@,
        "--convert-thumbnail"@,
        "jpg"@,
        "--no-warnings"@,
    ] + match browser {
        Some(b) => seq!["--cookies-from-browser"@, browser_name(b)],
        None => Seq::empty(),
    } + seq![url]
}

/// The yt-dlp arguments that download the track at `url` into `dir`.
pub fn download_args(dir: &str, retries: u32, browser: Option<Browser>, url: &str) -> (args: Vec<String>)
    ensures
        views(args@) == download_args_spec(dir@, retries, browser, url@),
{
    let mut args: Vec<String> = Vec::new();
    push_text(&mut args, "-f");
    push_text(&mut args, "bestaudio/best");
    push_text(&mut args, "--extract-audio");
    push_text(&mut args, "--audio-format");
    push_text(&mut args, "vorbis");
    push_text(&mut args, "-P");
    push_text(&mut args, dir);
    push_text(&mut args, "--retries");
    let r = u64_to_decimal(retries as u64);
    push_text(&mut args, r.as_str());
    push_text(&mut args, "--continue");
    push_text(&mut args, "--ignore-errors");
    push_text(&mut args, "--embed-metadata");
    push_text(&mut args, "--write-thumbnail");
    push_text(&mut args, "--convert-thumbnail");
    push_text(&mut args, "jpg");
    push_text(&mut args, "--no-warnings");
    if let Some(b) = browser {
        push_text(&mut args, "--cookies-from-browser");
        let name = b.name();
        push_text(&mut args, name.as_str());
    }
    push_text(&mut args, url);
    assert(views(args@) =~= download_args_spec(dir@, retries, browser, url@));
    args
}

/// The bucket a track's files go to: named by the last character of its id, in
/// ASCII lower case (`x` for an empty id).
pub open spec fn bucket_name(video_id: Seq<char>) -> Seq<char> {
    seq![lower_char(if video_id.len() > 0 { video_id.last() } else { 'x' })]
}

/// The bucket directory under `download_dir` for a track's files.
pub fn bucket_dir_for_id(download_dir: &str, video_id: &str) -> (d: String)
    ensures
        d@ == joined_path(download_dir@, bucket_name(video_id@)),
{
    let cs = chars_of(video_id);
    let last = if cs.len() > 0 {
        cs[cs.len() - 1]
    } else {
        'x'
    };
    let mut name = String::new();
    push_char(&mut name, to_lower_char(last));
    assert(name@ =~= bucket_name(video_id@));
    path_join(download_dir, name.as_str())
}

/// The file extensions taken for downloaded audio.
pub open spec fn audio_ext(ext: Seq<char>) -> bool {
    ||| ext == "mp3"@
    ||| ext == "m4a"@
    ||| ext == "aac"@
    ||| ext == "opus"@
    ||| ext == "ogg"@
    ||| ext == "flac"@
    ||| ext == "wav"@
    ||| ext == "webm"@
}

/// The file extensions taken for a downloaded thumbnail.
pub open spec fn image_ext(ext: Seq<char>) -> bool {
    ||| ext == "jpg"@
    ||| ext == "jpeg"@
    ||| ext == "png"@
    ||| ext == "webp"@
    ||| ext == "bmp"@
}

/// Whether `ext` is the extension of a downloaded audio file.
pub fn is_audio_ext(ext: &str) -> (b: bool)
    ensures
        b == audio_ext(ext@),
{
    str_eq(ext, "mp3") || str_eq(ext, "m4a") || str_eq(ext, "aac") || str_eq(ext, "opus")
        || str_eq(ext, "ogg") || str_eq(ext, "flac") || str_eq(ext, "wav") || str_eq(ext, "webm")
}

/// Whether `ext` is the extension of a downloaded thumbnail.
pub fn is_image_ext(ext: &str) -> (b: bool)
    ensures
        b == image_ext(ext@),
{
    str_eq(ext, "jpg") || str_eq(ext, "jpeg") || str_eq(ext, "png") || str_eq(ext, "webp")
        || str_eq(ext, "bmp")
}

/// No extension is taken both for audio and for a thumbnail.
proof fn lemma_audio_not_image(e: Seq<char>)
    ensures
        audio_ext(e) ==> !image_ext(e),
{
    reveal_strlit("mp3");
    reveal_strlit("m4a");
    reveal_strlit("aac");
    reveal_strlit("opus");
    reveal_strlit("ogg");
    reveal_strlit("flac");
    reveal_strlit("wav");
    reveal_strlit("webm");
    reveal_strlit("jpg");
    reveal_strlit("jpeg");
    reveal_strlit("png");
    reveal_strlit("webp");
    reveal_strlit("bmp");
    assert("mp3"@[0] == 'm');
    assert("m4a"@[0] == 'm');
    assert("aac"@[0] == 'a');
    assert("opus"@[0] == 'o');
    assert("ogg"@[0] == 'o');
    assert("flac"@[0] == 'f');
    assert("wav"@[0] == 'w');
    assert("webm"@[0] == 'w');
    assert("jpg"@[0] == 'j');
    assert("jpeg"@[0] == 'j');
    assert("png"@[0] == 'p');
    assert("webp"@[0] == 'w');
    assert("bmp"@[0] == 'b');
    assert("wav"@[1] != "webp"@[1]);
    assert("webm"@[3] != "webp"@[3]);
}

/// One entry of the download directory: its path, its extension as written, and
/// whether it is a regular file.
#[derive(Debug, Clone)]
pub struct DirEntry {
    pub path: String,
    pub ext: String,
    pub is_file: bool,
}

/// The index of the first file among `es` whose lower-cased extension is an audio one.
pub open spec fn first_audio_file(es: Seq<DirEntry>) -> Option<int>
    decreases es.len(),
{
    if es.len() == 0 {
        None
    } else {
        match first_audio_file(es.drop_last()) {
            Some(i) => Some(i),
            None => if es.last().is_file && audio_ext(lower_seq(es.last().ext@)) {
                Some(es.len() - 1)
            } else {
                None
            },
        }
    }
}

/// The index of the first file among `es` whose lower-cased extension is an image one.
pub open spec fn first_image_file(es: Seq<DirEntry>) -> Option<int>
    decreases es.len(),
{
    if es.len() == 0 {
        None
    } else {
        match first_image_file(es.drop_last()) {
            Some(i) => Some(i),
            None => if es.last().is_file && image_ext(lower_seq(es.last().ext@)) {
                Some(es.len() - 1)
            } else {
                None
            },
        }
    }
}

proof fn lemma_first_file_bounds(es: Seq<DirEntry>)
    ensures
        first_audio_file(es) matches Some(a) ==> 0 <= a < es.len(),
        first_image_file(es) matches Some(a) ==> 0 <= a < es.len(),
    decreases es.len(),
{
    if es.len() > 0 {
        lemma_first_file_bounds(es.drop_last());
    }
}

/// What yt-dlp left behind: the first audio file, and the first thumbnail.
#[derive(Debug)]
pub struct DownloadedFile {
    pub audio_path: String,
    pub thumbnail_path: Option<String>,
}

/// Picks the downloaded audio file and thumbnail out of the download directory's
/// entries, in the order they are listed; none when there is no audio file.
pub fn pick_downloaded_files(entries: &Vec<DirEntry>) -> (r: Option<DownloadedFile>)
    ensures
        match first_audio_file(entries@) {
            None => r is None,
            Some(a) => r matches Some(d) && d.audio_path@ == entries@[a].path@ && opt_view(
                d.thumbnail_path,
            ) == match first_image_file(entries@) {
                Some(t) => Some(entries@[t].path@),
                None => None,
            },
        },
{
    let mut audio: Option<String> = None;
    let mut thumb: Option<String> = None;
    let mut i: usize = 0;
    while i < entries.len()
        invariant
            i <= entries.len(),
            opt_view(audio) == match first_audio_file(entries@.take(i as int)) {
                Some(a) => Some(entries@[a].path@),
                None => None,
            },
            opt_view(thumb) == match first_image_file(entries@.take(i as int)) {
                Some(t) => Some(entries@[t].path@),
                None => None,
            },
        decreases entries.len() - i,
    {
        let ghost pre = entries@.take(i as int);
        let ghost post = entries@.take(i + 1);
        assert(post.drop_last() == pre);
        assert(post.last() == entries@[i as int]);
        proof {
            lemma_first_file_bounds(pre);
            assert forall|k: int| 0 <= k < pre.len() implies pre[k] == entries@[k] by {}
        }
        let e = &entries[i];
        if e.is_file {
            let ext = to_ascii_lowercase(e.ext.as_str());
            if audio.is_none() && is_audio_ext(ext.as_str()) {
                audio = Some(e.path.clone());
                proof {
                    lemma_audio_not_image(ext@);
                }
            } else if thumb.is_none() && is_image_ext(ext.as_str()) {
                thumb = Some(e.path.clone());
            }
        }
        i = i + 1;
    }
    assert(entries@.take(entries.len() as int) == entries@);
    match audio {
        Some(a) => Some(DownloadedFile { audio_path: a, thumbnail_path: thumb }),
        None => None,
    }
}


/// The name tried for a file whose plain name is taken: `stem_index.ext`.
pub open spec fn numbered_name(stem: Seq<char>, ext: Seq<char>, index: nat) -> Seq<char> {
    stem + "_"@ + decimal(index) + "."@ + ext
}

/// The name tried for a moved file whose plain name is already taken in its bucket.
pub fn numbered_file_name(stem: &str, ext: &str, index: u64) -> (r: String)
    ensures
        r@ == numbered_name(stem@, ext@, index as nat),
{
    let mut r = String::from_str(stem);
    r.append("_");
    let n = u64_to_decimal(index);
    r.append(n.as_str());
    r.append(".");
    r.append(ext);
    r
}

/// The `i`-th name a moved file may take in its bucket: its own name first, then
/// `stem_1.ext`, `stem_2.ext`, and so on.
pub open spec fn candidate_name(name: Seq<char>, stem: Seq<char>, ext: Seq<char>, i: nat) -> Seq<char> {
    if i == 0 {
        name
    } else {
        numbered_name(stem, ext, i)
    }
}

/// Different numbers give different numbered names.
proof fn lemma_numbered_name_injective(stem: Seq<char>, ext: Seq<char>, a: nat, b: nat)
    requires
        numbered_name(stem, ext, a) == numbered_name(stem, ext, b),
    ensures
        a == b,
{
    reveal_strlit("_");
    reveal_strlit(".");
    let x = numbered_name(stem, ext, a);
    let y = numbered_name(stem, ext, b);
    let lo: int = stem.len() as int + 1;
    assert(x.len() == stem.len() + 1 + decimal(a).len() + 1 + ext.len());
    assert(y.len() == stem.len() + 1 + decimal(b).len() + 1 + ext.len());
    assert(x.subrange(lo, lo + decimal(a).len() as int) =~= decimal(a));
    assert(y.subrange(lo, lo + decimal(b).len() as int) =~= decimal(b));
    let m: int = if a >= b { a as int } else { b as int };
    crate::text::lemma_parse_decimal(a, m);
    crate::text::lemma_parse_decimal(b, m);
}

/// When every numbered name from 1 to `m` is taken, there are at least `m` taken names.
proof fn lemma_taken_names_bound(stem: Seq<char>, ext: Seq<char>, taken: Seq<Seq<char>>, m: nat)
    requires
        forall|j: nat| 1 <= j <= m ==> taken.contains(#[trigger] numbered_name(stem, ext, j)),
    ensures
        m <= taken.len(),
{
    let s = Seq::new(m, |j: int| numbered_name(stem, ext, (j + 1) as nat));
    assert(s.no_duplicates()) by {
        assert forall|p: int, q: int| 0 <= p < s.len() && 0 <= q < s.len() && p != q implies s[p] != s[q] by {
            if s[p] == s[q] {
                lemma_numbered_name_injective(stem, ext, (p + 1) as nat, (q + 1) as nat);
            }
        }
    }
    s.unique_seq_to_set();
    assert(s.to_set().subset_of(taken.to_set())) by {
        assert forall|x: Seq<char>| s.to_set().contains(x) implies taken.to_set().contains(x) by {
            let p = choose|p: int| 0 <= p < s.len() && s[p] == x;
            assert(taken.contains(numbered_name(stem, ext, (p + 1) as nat)));
        }
    }
    taken.lemma_cardinality_of_set();
    vstd::set_lib::lemma_len_subset(s.to_set(), taken.to_set());
}

/// Whether `r` is the `k`-th candidate name, free, with every earlier one taken.
pub open spec fn r_is_first(name: Seq<char>, stem: Seq<char>, ext: Seq<char>, taken: Seq<Seq<char>>, r: Seq<char>, k: nat) -> bool {
    &&& r == candidate_name(name, stem, ext, k)
    &&& !taken.contains(r)
    &&& forall|j: nat| j < k ==> taken.contains(#[trigger] candidate_name(name, stem, ext, j))
}

/// The name a moved file takes in its bucket, whose entries are named `taken`: the
/// first of its candidate names that no entry has.
pub fn free_file_name(name: &str, stem: &str, ext: &str, taken: &Vec<String>) -> (r: String)
    requires
        taken.len() < 0xffff_ffff_ffff_ffff,
    ensures
        exists|k: nat| r_is_first(name@, stem@, ext@, views(taken@), r@, k),
{
    let ghost tv = views(taken@);
    if !contains_name(taken, name) {
        assert(r_is_first(name@, stem@, ext@, tv, name@, 0));
        return String::from_str(name);
    }
    let mut i: u64 = 1;
    while i <= taken.len() as u64 + 1
        invariant
            tv == views(taken@),
            taken.len() < 0xffff_ffff_ffff_ffff,
            1 <= i,
            i <= taken.len() + 1,
            forall|j: nat| j < i ==> tv.contains(#[trigger] candidate_name(name@, stem@, ext@, j)),
        decreases taken.len() + 2 - i,
    {
        let c = numbered_file_name(stem, ext, i);
        if !contains_name(taken, c.as_str()) {
            assert(c@ == candidate_name(name@, stem@, ext@, i as nat));
            assert(r_is_first(name@, stem@, ext@, tv, c@, i as nat));
            return c;
        }
        proof {
            assert(candidate_name(name@, stem@, ext@, i as nat) == c@);
            assert forall|j: nat| 1 <= j <= i implies tv.contains(#[trigger] numbered_name(stem@, ext@, j)) by {
                assert(candidate_name(name@, stem@, ext@, j) == numbered_name(stem@, ext@, j));
            }
            lemma_taken_names_bound(stem@, ext@, tv, i as nat);
        }
        i = i + 1;
    }
    proof {
        assert forall|j: nat| 1 <= j <= i - 1 implies tv.contains(#[trigger] numbered_name(stem@, ext@, j)) by {
            assert(candidate_name(name@, stem@, ext@, j) == numbered_name(stem@, ext@, j));
        }
        lemma_taken_names_bound(stem@, ext@, tv, (i - 1) as nat);
        assert(false);
    }
    String::from_str(name)
}

fn contains_name(names: &Vec<String>, needle: &str) -> (b: bool)
    ensures
        b == views(names@).contains(needle@),
{
    let mut i: usize = 0;
    while i < names.len()
        invariant
            i <= names.len(),
            forall|j: int| 0 <= j < i ==> views(names@)[j] != needle@,
        decreases names.len() - i,
    {
        if str_eq(names[i].as_str(), needle) {
            assert(views(names@)[i as int] == needle@);
            return true;
        }
        i = i + 1;
    }
    false
}

/// How a flat-listing line becomes an entry: the extractor is the lower-cased
/// `ie_key` when the line has one, else the lower-cased `extractor` member, else
/// "unknown"; the track id is the extractor, a colon and the `id` member (empty when
/// missing); the URL is `webpage_url` when present, else `url`, else the listed link;
/// the title and the playlist are copied.
pub proof fn law_flat_entry_prefers_ie_key(fs: Seq<(Seq<char>, Option<Seq<char>>)>, link: Seq<char>)
    ensures
        ({
            let e = flat_entry_of(fs, link);
            &&& string_member(fs, "ie_key"@) matches Some(k) ==> e.extractor == lower_seq(k)
            &&& string_member(fs, "ie_key"@) is None ==> (string_member(fs, "extractor"@) matches Some(x)
                ==> e.extractor == lower_seq(x))
            &&& (string_member(fs, "ie_key"@) is None && string_member(fs, "extractor"@) is None)
                ==> e.extractor == "unknown"@
            &&& string_member(fs, "id"@) matches Some(i) ==> e.extractor_id == i
            &&& string_member(fs, "id"@) is None ==> e.extractor_id == ""@
            &&& e.id == e.extractor + ":"@ + e.extractor_id
            &&& string_member(fs, "title"@) matches Some(t) ==> e.title == t
            &&& string_member(fs, "title"@) is None ==> e.title == ""@
            &&& member(fs, "webpage_url"@) matches Some(Some(u)) ==> e.url == u
            &&& member(fs, "webpage_url"@) is None ==> (member(fs, "url"@) matches Some(Some(u)) ==> e.url == u)
            &&& (member(fs, "webpage_url"@) is None && member(fs, "url"@) is None) ==> e.url == link
            &&& e.playlist_id == string_member(fs, "playlist_id"@)
            &&& e.playlist_title == string_member(fs, "playlist_title"@)
        }),
{
}

/// How a full-metadata line becomes a track record: the extractor is the lower-cased
/// `extractor` member ("unknown" when missing), whatever `ie_key` holds; the track id
/// is the extractor, a colon and the `id` member; the other members are copied.
pub proof fn law_video_meta_uses_extractor(fs: Seq<(Seq<char>, Option<Seq<char>>)>)
    ensures
        ({
            let m = video_meta_of(fs);
            &&& string_member(fs, "extractor"@) matches Some(x) ==> m.extractor == lower_seq(x)
            &&& string_member(fs, "extractor"@) is None ==> m.extractor == "unknown"@
            &&& string_member(fs, "id"@) matches Some(i) ==> m.extractor_id == i
            &&& string_member(fs, "id"@) is None ==> m.extractor_id == ""@
            &&& m.id == m.extractor + ":"@ + m.extractor_id
            &&& m.artist == string_member(fs, "artist"@)
            &&& m.album == string_member(fs, "album"@)
            &&& m.upload_date == string_member(fs, "upload_date"@)
            &&& m.thumbnail_url == string_member(fs, "thumbnail"@)
        }),
{
}

} // verus!
