//! Descriptive metadata of an item and its rendering as a card.

use crate::text::{contains_text, decimal, occurs, to_decimal};
use vstd::prelude::*;
use vstd::string::*;
use vstd::utf8::encode_utf8;

verus! {

/// The error type of the `rustube` crate, carried through unopened.
#[verifier::external_type_specification]
#[verifier::external_body]
pub struct ExRustubeError(rustube::Error);

/// The identifier that `rustube::Id::from_raw` finds in `raw`, if it finds
/// one. The crate tries five patterns in turn: the watch, shorts, embed and
/// share addresses of the platform and the bare identifier.
pub uninterp spec fn rustube_id(raw: Seq<char>) -> Option<Seq<char>>;

/// Calls `rustube::Id::from_raw` and copies the identifier out of the
/// borrowed result. The contract claims only that the outcome is the named
/// function of the characters of `raw`.
#[verifier::external_body]
fn id_from_raw(raw: &str) -> (r: Result<String, rustube::Error>)
    ensures
        r is Ok <==> rustube_id(raw@) is Some,
        r matches Ok(id) ==> rustube_id(raw@) == Some(id@),
{
    match rustube::Id::from_raw(raw) {
        Ok(id) => Ok(id.as_str().to_owned()),
        Err(e) => Err(e),
    }
}

/// A reference in which no identifier was recognized.
#[derive(Clone, Copy, Debug, PartialEq, Eq, Structural)]
pub struct BadIdFormat;

/// Recognizes the identifier of the item whose descriptive metadata a
/// request asks for, by the address patterns of the platform.
pub fn video_id(url: &String) -> (r: Result<String, BadIdFormat>)
    ensures
        r is Ok <==> rustube_id(url@) is Some,
        r matches Ok(id) ==> rustube_id(url@) == Some(id@),
{
    match id_from_raw(url.as_str()) {
        Ok(id) => Ok(id),
        Err(_) => Err(BadIdFormat),
    }
}

/// A preview image of an item.
#[derive(Clone, Debug)]
pub struct Thumbnail {
    pub width: u64,
    pub height: u64,
    /// Absolute or relative address of the image.
    pub url: String,
}

/// Mathematical value of a `Thumbnail`.
pub struct ThumbnailView {
    pub width: u64,
    pub height: u64,
    pub url: Seq<char>,
}

impl View for Thumbnail {
    type V = ThumbnailView;

    open spec fn view(&self) -> ThumbnailView {
        ThumbnailView { width: self.width, height: self.height, url: self.url@ }
    }
}

/// Descriptive metadata of an item, as shown to the user.
#[derive(Clone, Debug)]
pub struct MediaMetadata {
    pub title: String,
    pub author: String,
    pub short_desc: String,
    pub id: String,
    /// Length in seconds.
    pub length: u64,
    pub age_restricted: bool,
    pub is_private: bool,
    pub thumbnails: Option<Vec<Thumbnail>>,
}

/// Marker of the largest preview images, which a card does not use.
pub const OVERSIZE_MARK: &'static str = "maxres";

/// Number of characters of a description that a card shows.
pub const SUMMARY_CHARS: usize = 300;

/// Length in bytes from which on a shortened description is marked as cut.
pub const SUMMARY_BYTES: usize = 300;

/// Mark that follows a cut description.
pub const ELLIPSIS: &'static str = "...";

/// True when a card may show the image: its address does not name it as
/// one of the largest.
pub open spec fn eligible(t: ThumbnailView) -> bool {
    !occurs(t.url, OVERSIZE_MARK@)
}

/// True when `i` is the image that a card shows: among the eligible images
/// it is the widest, and the last of these when several are equally wide.
pub open spec fn is_best(thumbs: Seq<Thumbnail>, i: int) -> bool {
    &&& 0 <= i < thumbs.len()
    &&& eligible(thumbs[i]@)
    &&& forall|j: int|
        0 <= j < thumbs.len() && eligible(#[trigger] thumbs[j]@) ==> thumbs[j].width
            <= thumbs[i].width
    &&& forall|j: int|
        i < j < thumbs.len() && eligible(#[trigger] thumbs[j]@) ==> thumbs[j].width
            < thumbs[i].width
}

/// Picks the image that a card shows. There is one exactly when some image
/// is eligible.
pub fn pick_thumbnail(thumbs: &Vec<Thumbnail>) -> (r: Option<usize>)
    ensures
        match r {
            Some(i) => is_best(thumbs@, i as int),
            None => forall|j: int| 0 <= j < thumbs.len() ==> !eligible(#[trigger] thumbs[j]@),
        },
{
    let mut best: Option<usize> = None;
    let mut k: usize = 0;
    while k < thumbs.len()
        invariant
            k <= thumbs.len(),
            match best {
                Some(i) => is_best(thumbs@.take(k as int), i as int),
                None => forall|j: int| 0 <= j < k ==> !eligible(#[trigger] thumbs[j]@),
            },
        decreases thumbs.len() - k,
    {
        let ghost seen = thumbs@.take(k as int);
        let ghost grown = thumbs@.take(k + 1);
        assert(forall|j: int| 0 <= j < k ==> seen[j] == grown[j]);
        if !contains_text(thumbs[k].url.as_str(), OVERSIZE_MARK) {
            let wider = match best {
                Some(i) => thumbs[i].width <= thumbs[k].width,
                None => true,
            };
            if wider {
                best = Some(k);
            }
        }
        assert(match best {
            Some(i) => is_best(grown, i as int),
            None => forall|j: int| 0 <= j < k + 1 ==> !eligible(#[trigger] thumbs[j]@),
        }) by {
            match best {
                Some(i) => {
                    assert forall|j: int|
                        0 <= j < grown.len() && eligible(#[trigger] grown[j]@) implies grown[j].width
                        <= grown[i as int].width by {
                        if j < k {
                            assert(seen[j] == grown[j]);
                        }
                    }
                    assert forall|j: int|
                        i < j < grown.len() && eligible(#[trigger] grown[j]@) implies grown[j].width
                        < grown[i as int].width by {
                        if j < k {
                            assert(seen[j] == grown[j]);
                        }
                    }
                },
                None => {},
            }
        }
        k = k + 1;
    }
    assert(thumbs@.take(thumbs.len() as int) =~= thumbs@);
    best
}

/// The description as a card shows it: its first 300 characters, followed
/// by an ellipsis when its encoding takes 300 bytes or more.
pub open spec fn summary(desc: Seq<char>) -> Seq<char> {
    let head = if desc.len() <= SUMMARY_CHARS {
        desc
    } else {
        desc.take(SUMMARY_CHARS as int)
    };
    if encode_utf8(desc).len() >= SUMMARY_BYTES {
        head + ELLIPSIS@
    } else {
        head
    }
}

/// Shortens a description for a card.
pub fn summarize(desc: &str) -> (r: String)
    ensures
        r@ == summary(desc@),
{
    let n = desc.unicode_len();
    let shown = if n <= SUMMARY_CHARS {
        n
    } else {
        SUMMARY_CHARS
    };
    let mut out = String::from_str(desc.substring_char(0, shown));
    assert(desc@.subrange(0, desc@.len() as int) =~= desc@);
    if desc.as_bytes().len() >= SUMMARY_BYTES {
        out.append(ELLIPSIS);
    }
    out
}

/// The markup of a card up to the address of its image.
pub const CARD_HEAD: &'static str =
    "\n            <div class='col-12 col-md-4 align-items-center text-center justify-content-center'>\n                <img src='";

/// The markup between the address of the image and the link to the item.
pub const CARD_IMAGE_END: &'static str =
    "' style='object-fit: cover; width: 100%; user-select: none;' alt='thumbnail' class='img-fluid img-thumbnail'/>\n            </div>\n            <div class=\"col-12 col-md-8 align-items-center\">\n                <h3><a href='";

/// The markup between the link and the title.
pub const CARD_LINK_END: &'static str = "'>";

/// The markup between the title and the description.
pub const CARD_TITLE_END: &'static str = "</a></h3>\n                <p>";

/// The markup between the description and the author.
pub const CARD_TEXT_END: &'static str = "</p>\n                <small>Author: ";

/// The markup between the author and the length.
pub const CARD_AUTHOR_END: &'static str = "</small>\n                <small>Length: ";

/// The markup after the length.
pub const CARD_TAIL: &'static str = "s</small>\n            </div>\n        </div>\n        ";

/// The card of an item: its image, a link to `url` under its title, its
/// shortened description, its author and its length in seconds. The texts
/// are put in as they are.
pub open spec fn card(
    image: Seq<char>,
    url: Seq<char>,
    title: Seq<char>,
    desc: Seq<char>,
    author: Seq<char>,
    length: u64,
) -> Seq<char> {
    CARD_HEAD@ + image + CARD_IMAGE_END@ + url + CARD_LINK_END@ + title + CARD_TITLE_END@ + summary(
        desc,
    ) + CARD_TEXT_END@ + author + CARD_AUTHOR_END@ + decimal(length as nat) + CARD_TAIL@
}

/// The images of `meta`, none when it has no list of them.
pub open spec fn images(meta: MediaMetadata) -> Seq<Thumbnail> {
    match meta.thumbnails {
        Some(list) => list@,
        None => Seq::empty(),
    }
}

/// Renders the card of an item for the page at `url`. There is a card
/// exactly when the item has an eligible image; it shows the best of them.
pub fn render_card(meta: &MediaMetadata, url: &str) -> (r: Option<String>)
    ensures
        r is Some <==> exists|j: int|
            0 <= j < images(*meta).len() && eligible(#[trigger] images(*meta)[j]@),
        r matches Some(html) ==> exists|i: int|
            is_best(images(*meta), i) && html@ == card(
                #[trigger] images(*meta)[i].url@,
                url@,
                meta.title@,
                meta.short_desc@,
                meta.author@,
                meta.length,
            ),
{
    let list = match &meta.thumbnails {
        Some(list) => list,
        None => {
            return None;
        },
    };
    let i = match pick_thumbnail(list) {
        Some(i) => i,
        None => {
            return None;
        },
    };
    let mut html = String::from_str(CARD_HEAD);
    html.append(list[i].url.as_str());
    html.append(CARD_IMAGE_END);
    html.append(url);
    html.append(CARD_LINK_END);
    html.append(meta.title.as_str());
    html.append(CARD_TITLE_END);
    let text = summarize(meta.short_desc.as_str());
    html.append(text.as_str());
    html.append(CARD_TEXT_END);
    html.append(meta.author.as_str());
    html.append(CARD_AUTHOR_END);
    let length = to_decimal(meta.length);
    html.append(length.as_str());
    html.append(CARD_TAIL);
    assert(is_best(images(*meta), i as int));
    Some(html)
}

} // verus!
