use bilibili_tui::search::{HotwordItem, SearchVideoItem};

fn video(title: Option<&str>, author: Option<&str>, pic: Option<&str>, play: Option<i64>) -> SearchVideoItem {
    SearchVideoItem {
        aid: None,
        bvid: None,
        title: title.map(str::to_string),
        author: author.map(str::to_string),
        pic: pic.map(str::to_string),
        play,
        duration: None,
        description: None,
        danmaku: None,
        mid: None,
    }
}

fn hotword(keyword: Option<&str>, show_name: Option<&str>, word_type: Option<i32>) -> HotwordItem {
    HotwordItem {
        keyword: keyword.map(str::to_string),
        show_name: show_name.map(str::to_string),
        icon: None,
        pos: None,
        word_type,
    }
}

#[test]
fn display_title_strips_keyword_highlights() {
    let item = video(Some("<em class=\"keyword\">Rust</em> 教程 <em class=\"keyword\">入门</em>"), None, None, None);
    assert_eq!(item.display_title(), "Rust 教程 入门");
    assert_eq!(video(None, None, None, None).display_title(), "无标题");
    assert_eq!(video(Some("plain"), None, None, None).display_title(), "plain");
}

#[test]
fn author_falls_back_to_placeholder() {
    assert_eq!(video(None, Some("up"), None, None).author_name(), "up");
    assert_eq!(video(None, None, None, None).author_name(), "未知");
}

#[test]
fn cover_url_gets_https_scheme() {
    assert_eq!(video(None, None, Some("//i0.hdslb.com/a.jpg"), None).cover_url(), Some("https://i0.hdslb.com/a.jpg".to_string()));
    assert_eq!(video(None, None, Some("http://x/a.jpg"), None).cover_url(), Some("http://x/a.jpg".to_string()));
    assert_eq!(video(None, None, None, None).cover_url(), None);
}

#[test]
fn hotword_display_and_keyword() {
    assert_eq!(hotword(Some("k"), Some("shown"), None).display_text(), "shown");
    assert_eq!(hotword(Some("k"), None, None).display_text(), "k");
    assert_eq!(hotword(None, None, None).display_text(), "-");
    assert_eq!(hotword(Some("k"), Some("shown"), None).keyword_text(), Some("k".to_string()));
    assert_eq!(hotword(None, Some("shown"), None).keyword_text(), Some("shown".to_string()));
    assert_eq!(hotword(Some(""), Some("shown"), None).keyword_text(), None);
    assert_eq!(hotword(None, None, None).keyword_text(), None);
}

#[test]
fn hotword_badges() {
    assert_eq!(hotword(None, None, Some(4)).badge(), Some("新"));
    assert_eq!(hotword(None, None, Some(5)).badge(), Some("热"));
    assert_eq!(hotword(None, None, Some(7)).badge(), Some("直播"));
    assert_eq!(hotword(None, None, Some(9)).badge(), Some("梗"));
    assert_eq!(hotword(None, None, Some(11)).badge(), Some("话题"));
    assert_eq!(hotword(None, None, Some(12)).badge(), Some("独家"));
    assert_eq!(hotword(None, None, Some(6)).badge(), None);
    assert_eq!(hotword(None, None, None).badge(), None);
}
