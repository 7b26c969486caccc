use webaudioprov::info::{
    pick_thumbnail, render_card, summarize, video_id, BadIdFormat, MediaMetadata, Thumbnail,
};

fn thumb(width: u64, url: &str) -> Thumbnail {
    Thumbnail { width, height: width / 2, url: url.to_string() }
}

fn meta(thumbnails: Option<Vec<Thumbnail>>, desc: &str) -> MediaMetadata {
    MediaMetadata {
        title: "A <Title>".to_string(),
        author: "Someone".to_string(),
        short_desc: desc.to_string(),
        id: "PpjdTwQwWWY".to_string(),
        length: 215,
        age_restricted: false,
        is_private: false,
        thumbnails,
    }
}

#[test]
fn identifier_is_recognized_in_each_address_form() {
    for raw in [
        "https://www.youtube.com/watch?v=PpjdTwQwWWY",
        "https://www.youtube.com/watch?v=PpjdTwQwWWY&ab_channel=x",
        "youtube.com/watch?v=PpjdTwQwWWY",
        "https://www.youtube.com/shorts/PpjdTwQwWWY",
        "https://www.youtube.com/embed/PpjdTwQwWWY",
        "https://youtu.be/PpjdTwQwWWY",
        "PpjdTwQwWWY",
    ] {
        assert_eq!(video_id(&raw.to_string()), Ok("PpjdTwQwWWY".to_string()), "{raw}");
    }
}

#[test]
fn identifier_is_not_recognized_elsewhere() {
    for raw in [
        "",
        "https://www.youtube.com/watch?v=gibb",
        "https://www.youtube.com/watch?v=gibberishtoofuckinglong",
        "https://example.org/?v=PpjdTwQwWWY",
        "PpjdTwQwWW!",
    ] {
        assert_eq!(video_id(&raw.to_string()), Err(BadIdFormat), "{raw}");
    }
}

#[test]
fn widest_eligible_image_is_picked() {
    let list = vec![
        thumb(120, "https://i/default.jpg"),
        thumb(480, "https://i/hqdefault.jpg"),
        thumb(1280, "https://i/maxresdefault.jpg"),
        thumb(320, "https://i/mqdefault.jpg"),
    ];
    assert_eq!(pick_thumbnail(&list), Some(1));
}

#[test]
fn last_of_equally_wide_images_is_picked() {
    let list = vec![thumb(480, "a"), thumb(480, "b"), thumb(100, "c"), thumb(480, "d/maxres")];
    assert_eq!(pick_thumbnail(&list), Some(1));
    let list = vec![thumb(0, "a"), thumb(0, "b")];
    assert_eq!(pick_thumbnail(&list), Some(1));
}

#[test]
fn no_eligible_image_no_pick() {
    assert_eq!(pick_thumbnail(&vec![]), None);
    assert_eq!(pick_thumbnail(&vec![thumb(1, "maxres"), thumb(2, "x-maxres-y")]), None);
}

#[test]
fn short_description_is_kept() {
    assert_eq!(summarize("short"), "short");
    assert_eq!(summarize(""), "");
    let text = "a".repeat(299);
    assert_eq!(summarize(&text), text);
}

#[test]
fn long_description_is_cut_and_marked() {
    let text = "a".repeat(300);
    assert_eq!(summarize(&text), format!("{text}..."));
    let text = "b".repeat(1000);
    assert_eq!(summarize(&text), format!("{}...", "b".repeat(300)));
}

#[test]
fn mark_goes_by_bytes_and_cut_by_characters() {
    let text = "\u{e9}".repeat(150);
    assert_eq!(summarize(&text), format!("{text}..."));
    let text = "\u{e9}".repeat(149);
    assert_eq!(summarize(&text), text);
    let text = "\u{e9}".repeat(400);
    assert_eq!(summarize(&text), format!("{}...", "\u{e9}".repeat(300)));
}

#[test]
fn card_text_is_exact() {
    let m = meta(Some(vec![thumb(10, "img/maxres.jpg"), thumb(5, "img/small.jpg")]), "About it");
    let html = render_card(&m, "https://www.youtube.com/watch?v=PpjdTwQwWWY").unwrap();
    let expected = "\n            <div class='col-12 col-md-4 align-items-center text-center justify-content-center'>\n                <img src='img/small.jpg' style='object-fit: cover; width: 100%; user-select: none;' alt='thumbnail' class='img-fluid img-thumbnail'/>\n            </div>\n            <div class=\"col-12 col-md-8 align-items-center\">\n                <h3><a href='https://www.youtube.com/watch?v=PpjdTwQwWWY'>A <Title></a></h3>\n                <p>About it</p>\n                <small>Author: Someone</small>\n                <small>Length: 215s</small>\n            </div>\n        </div>\n        ";
    assert_eq!(html, expected);
}

#[test]
fn no_card_without_an_eligible_image() {
    assert_eq!(render_card(&meta(None, "x"), "u"), None);
    assert_eq!(render_card(&meta(Some(vec![]), "x"), "u"), None);
    assert_eq!(render_card(&meta(Some(vec![thumb(1, "maxres")]), "x"), "u"), None);
}
