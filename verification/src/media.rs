//! Media kinds and the file names derived from an item's title and identifier.

use crate::text::chars_of;
use vstd::prelude::*;
use vstd::string::*;

verus! {

/// The two kinds of artifact that can be requested for an item.
#[derive(Clone, Copy, Debug, PartialEq, Eq, Structural)]
pub enum MediaKind {
    Audio,
    Video,
}

/// Extension of the file that the fetch tool leaves behind for `kind`.
pub open spec fn raw_extension(kind: MediaKind) -> Seq<char> {
    match kind {
        MediaKind::Audio => "opus"@,
        MediaKind::Video => "webm"@,
    }
}

/// Extension of the artifact that is served: that of the transcoded file
/// when transcoding is applied, else the raw one.
pub open spec fn final_extension(kind: MediaKind, transcode: bool) -> Seq<char> {
    if transcode {
        match kind {
            MediaKind::Audio => "mp3"@,
            MediaKind::Video => "mp4"@,
        }
    } else {
        raw_extension(kind)
    }
}

/// Format selector handed to the fetch tool for `kind`.
pub open spec fn format_selector(kind: MediaKind) -> Seq<char> {
    match kind {
        MediaKind::Audio => "bestaudio"@,
        MediaKind::Video => "bestaudio+bestvideo"@,
    }
}

/// Content type of the served artifact.
pub open spec fn content_type(kind: MediaKind) -> Seq<char> {
    match kind {
        MediaKind::Audio => "audio/mpeg"@,
        MediaKind::Video => "video/mp4"@,
    }
}

/// True for the characters of a title that survive sanitizing: ASCII
/// characters other than `/` and `|`.
pub open spec fn keeps(c: char) -> bool {
    c <= '\u{7f}' && c != '/' && c != '|'
}

/// `keeps` as a predicate value.
pub open spec fn keep_pred() -> spec_fn(char) -> bool {
    |c: char| keeps(c)
}

/// A title made safe for the file system: its kept characters, in order.
pub open spec fn sanitized(title: Seq<char>) -> Seq<char> {
    title.filter(keep_pred())
}

/// `title [id]`: the name of an intermediate file without its extension.
pub open spec fn stem(title: Seq<char>, id: Seq<char>) -> Seq<char> {
    title + " ["@ + id + "]"@
}

/// `stem.ext`.
pub open spec fn with_extension(stem: Seq<char>, ext: Seq<char>) -> Seq<char> {
    stem + "."@ + ext
}

/// `title [id].ext`.
pub open spec fn file_name(title: Seq<char>, id: Seq<char>, ext: Seq<char>) -> Seq<char> {
    with_extension(stem(title, id), ext)
}

/// `[id].ext`, with the raw extension of `kind`: the name under which the
/// fetch tool writes its download.
pub open spec fn raw_output_name(id: Seq<char>, kind: MediaKind) -> Seq<char> {
    "["@ + id + "]."@ + raw_extension(kind)
}

/// The cache key of an item: its sanitized title, its identifier and the
/// extension of the served artifact.
pub open spec fn cache_key(
    title: Seq<char>,
    id: Seq<char>,
    kind: MediaKind,
    transcode: bool,
) -> Seq<char> {
    file_name(sanitized(title), id, final_extension(kind, transcode))
}

impl MediaKind {
    /// Extension of the raw download.
    pub fn raw_extension(self) -> (r: &'static str)
        ensures
            r@ == raw_extension(self),
    {
        match self {
            MediaKind::Audio => "opus",
            MediaKind::Video => "webm",
        }
    }

    /// Extension of the served artifact.
    pub fn final_extension(self, transcode: bool) -> (r: &'static str)
        ensures
            r@ == final_extension(self, transcode),
    {
        if transcode {
            match self {
                MediaKind::Audio => "mp3",
                MediaKind::Video => "mp4",
            }
        } else {
            self.raw_extension()
        }
    }

    /// Format selector handed to the fetch tool.
    pub fn format_selector(self) -> (r: &'static str)
        ensures
            r@ == format_selector(self),
    {
        match self {
            MediaKind::Audio => "bestaudio",
            MediaKind::Video => "bestaudio+bestvideo",
        }
    }

    /// Content type of the served artifact.
    pub fn content_type(self) -> (r: &'static str)
        ensures
            r@ == content_type(self),
    {
        match self {
            MediaKind::Audio => "audio/mpeg",
            MediaKind::Video => "video/mp4",
        }
    }
}

/// True when `c` survives sanitizing.
pub fn is_kept(c: char) -> (r: bool)
    ensures
        r == keeps(c),
{
    c <= '\u{7f}' && c != '/' && c != '|'
}

/// Filtering one more character extends the filtered prefix by that
/// character when it is kept, and leaves it unchanged otherwise.
proof fn lemma_sanitized_step(s: Seq<char>, i: int)
    requires
        0 <= i < s.len(),
    ensures
        sanitized(s.take(i + 1)) == if keeps(s[i]) {
            sanitized(s.take(i)).push(s[i])
        } else {
            sanitized(s.take(i))
        },
{
    reveal(Seq::filter);
    assert(s.take(i + 1).drop_last() =~= s.take(i));
}

/// A title made of kept characters only is left as it is.
pub proof fn lemma_clean_title_unchanged(title: Seq<char>)
    requires
        forall|i: int| 0 <= i < title.len() ==> keeps(#[trigger] title[i]),
    ensures
        sanitized(title) == title,
    decreases title.len(),
{
    reveal(Seq::filter);
    if title.len() > 0 {
        let rest = title.drop_last();
        assert forall|i: int| 0 <= i < rest.len() implies keeps(#[trigger] rest[i]) by {
            assert(rest[i] == title[i]);
        }
        lemma_clean_title_unchanged(rest);
        assert(keeps(title[title.len() - 1]));
        assert(rest.push(title.last()) =~= title);
    } else {
        assert(sanitized(title) =~= title);
    }
}

/// A sanitized title holds kept characters only: it is ASCII and free of
/// `/` and `|`. Sanitizing it once more changes nothing.
pub proof fn lemma_sanitized_clean(title: Seq<char>)
    ensures
        forall|i: int| 0 <= i < sanitized(title).len() ==> keeps(#[trigger] sanitized(title)[i]),
        sanitized(sanitized(title)) == sanitized(title),
    decreases title.len(),
{
    reveal(Seq::filter);
    if title.len() > 0 {
        lemma_sanitized_clean(title.drop_last());
    }
    lemma_clean_title_unchanged(sanitized(title));
}

/// Makes a title safe for use in a file name: drops every character that
/// is not ASCII, and every `/` and `|`.
pub fn sanitize_title(title: &str) -> (r: String)
    ensures
        r@ == sanitized(title@),
        forall|i: int| 0 <= i < r@.len() ==> keeps(#[trigger] r@[i]),
{
    let chars = chars_of(title);
    let n = chars.len();
    let mut out = String::new();
    let mut i: usize = 0;
    assert(title@.take(0) =~= Seq::<char>::empty());
    assert(sanitized(Seq::<char>::empty()) =~= Seq::<char>::empty()) by {
        reveal(Seq::filter);
    }
    while i < n
        invariant
            chars@ == title@,
            n == title@.len(),
            i <= n,
            out@ == sanitized(title@.take(i as int)),
        decreases n - i,
    {
        proof {
            lemma_sanitized_step(title@, i as int);
        }
        if is_kept(chars[i]) {
            let ghost before = out@;
            out.append(title.substring_char(i, i + 1));
            assert(out@ =~= before.push(title@[i as int]));
        }
        i = i + 1;
    }
    assert(title@.take(n as int) =~= title@);
    proof {
        lemma_sanitized_clean(title@);
    }
    out
}

/// Builds `title [id]`.
pub fn stem_name(title: &str, id: &str) -> (r: String)
    ensures
        r@ == stem(title@, id@),
{
    let mut out = String::from_str(title);
    out.append(" [");
    out.append(id);
    out.append("]");
    out
}

/// Builds `stem.ext`.
pub fn with_extension_of(stem: &str, ext: &str) -> (r: String)
    ensures
        r@ == with_extension(stem@, ext@),
{
    let mut out = String::from_str(stem);
    out.append(".");
    out.append(ext);
    out
}

/// Builds `title [id].ext`.
pub fn file_name_of(title: &str, id: &str, ext: &str) -> (r: String)
    ensures
        r@ == file_name(title@, id@, ext@),
{
    let stem = stem_name(title, id);
    with_extension_of(stem.as_str(), ext)
}

/// Builds the name under which the fetch tool writes its download of `id`.
pub fn raw_output_name_of(id: &str, kind: MediaKind) -> (r: String)
    ensures
        r@ == raw_output_name(id@, kind),
{
    let mut out = String::from_str("[");
    out.append(id);
    out.append("].");
    out.append(kind.raw_extension());
    out
}

/// Derives the cache key of an item from the title and identifier that the
/// probe reported.
pub fn cache_key_of(title: &str, id: &str, kind: MediaKind, transcode: bool) -> (r: String)
    ensures
        r@ == cache_key(title@, id@, kind, transcode),
{
    let clean = sanitize_title(title);
    file_name_of(clean.as_str(), id, kind.final_extension(transcode))
}

/// Audio and video never share a cache entry: whatever the titles and
/// identifiers, and with or without transcoding, the key of an audio
/// artifact differs from the key of a video artifact.
pub proof fn lemma_kinds_have_distinct_keys(
    title_a: Seq<char>,
    id_a: Seq<char>,
    transcode_a: bool,
    title_v: Seq<char>,
    id_v: Seq<char>,
    transcode_v: bool,
)
    ensures
        cache_key(title_a, id_a, MediaKind::Audio, transcode_a) != cache_key(
            title_v,
            id_v,
            MediaKind::Video,
            transcode_v,
        ),
{
    reveal_strlit("mp3");
    reveal_strlit("mp4");
    reveal_strlit("opus");
    reveal_strlit("webm");
    let a = cache_key(title_a, id_a, MediaKind::Audio, transcode_a);
    let v = cache_key(title_v, id_v, MediaKind::Video, transcode_v);
    let ext_a = final_extension(MediaKind::Audio, transcode_a);
    let ext_v = final_extension(MediaKind::Video, transcode_v);
    assert(a.last() == ext_a.last());
    assert(v.last() == ext_v.last());
    assert(ext_a.last() == '3' || ext_a.last() == 's');
    assert(ext_v.last() == '4' || ext_v.last() == 'm');
}

} // verus!
