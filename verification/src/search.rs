//! Search result and hot-search types, and how they are presented.

use vstd::prelude::*;
use crate::text::{
    chars_of, has_prefix, has_substring, owned, push_str, replace_absent_pattern, replace_all,
    replace_all_chars, starts_with, string_from_chars,
};

verus! {

broadcast use vstd::string::group_string_axioms;

/// A page of video search results.
#[derive(Debug)]
pub struct SearchData {
    pub result: Option<Vec<SearchVideoItem>>,
    pub num_results: Option<i32>,
    pub page: Option<i32>,
    pub pagesize: Option<i32>,
}

/// One video in a search result.
#[derive(Debug, Clone)]
pub struct SearchVideoItem {
    pub aid: Option<i64>,
    pub bvid: Option<String>,
    pub title: Option<String>,
    pub author: Option<String>,
    pub pic: Option<String>,
    pub play: Option<i64>,
    pub duration: Option<String>,
    pub description: Option<String>,
    pub danmaku: Option<i64>,
    pub mid: Option<i64>,
}

/// The text of an optional string, or `default` when there is none.
pub open spec fn text_or(s: Option<String>, default: Seq<char>) -> Seq<char> {
    match s {
        Some(t) => t@,
        None => default,
    }
}

/// The keyword highlight tags that the search service wraps around matches.
pub open spec fn keyword_open_tag() -> Seq<char> {
    "<em class=\"keyword\">"@
}

pub open spec fn keyword_close_tag() -> Seq<char> {
    "</em>"@
}

/// A title with the highlight tags taken out.
pub open spec fn strip_highlight(title: Seq<char>) -> Seq<char> {
    replace_all(replace_all(title, keyword_open_tag(), Seq::empty()), keyword_close_tag(), Seq::empty())
}

impl SearchVideoItem {
    /// The title without the highlight markup, or a placeholder when the item has none.
    pub fn display_title(&self) -> (r: String)
        ensures
            r@ == strip_highlight(text_or(self.title, "无标题"@)),
    {
        let title = match &self.title {
            Some(t) => chars_of(t.as_str()),
            None => chars_of("无标题"),
        };
        let open = chars_of("<em class=\"keyword\">");
        let close = chars_of("</em>");
        proof {
            reveal_strlit("<em class=\"keyword\">");
            reveal_strlit("</em>");
        }
        let empty: Vec<char> = Vec::new();
        let without_open = replace_all_chars(title.as_slice(), open.as_slice(), empty.as_slice());
        let without_tags = replace_all_chars(without_open.as_slice(), close.as_slice(), empty.as_slice());
        string_from_chars(without_tags.as_slice())
    }

    /// The uploader's name, or a placeholder.
    pub fn author_name(&self) -> (r: &str)
        ensures
            r@ == text_or(self.author, "未知"@),
    {
        match &self.author {
            Some(a) => a.as_str(),
            None => "未知",
        }
    }

    /// The cover image address; protocol-relative addresses get an https scheme.
    pub fn cover_url(&self) -> (r: Option<String>)
        ensures
            r is Some <==> self.pic is Some,
            r matches Some(u) ==> u@ == (if has_prefix(self.pic->0@, "//"@) {
                "https:"@ + self.pic->0@
            } else {
                self.pic->0@
            }),
    {
        match &self.pic {
            Some(url) => {
                let chars = chars_of(url.as_str());
                let slashes = chars_of("//");
                if starts_with(chars.as_slice(), slashes.as_slice()) {
                    let mut out = owned("https:");
                    push_str(&mut out, url.as_str());
                    Some(out)
                } else {
                    Some(url.clone())
                }
            },
            None => None,
        }
    }
}

/// One entry of the hot-search list.
#[derive(Debug, Clone)]
pub struct HotwordItem {
    pub keyword: Option<String>,
    pub show_name: Option<String>,
    pub icon: Option<String>,
    pub pos: Option<i32>,
    pub word_type: Option<i32>,
}

/// The badge text that a hot-search word type is shown with.
pub open spec fn badge_for(word_type: i32) -> Option<Seq<char>> {
    if word_type == 4 {
        Some("新"@)
    } else if word_type == 5 {
        Some("热"@)
    } else if word_type == 7 {
        Some("直播"@)
    } else if word_type == 9 {
        Some("梗"@)
    } else if word_type == 11 {
        Some("话题"@)
    } else if word_type == 12 {
        Some("独家"@)
    } else {
        None
    }
}

/// The search keyword of a hot word: its keyword, else its display name, and
/// nothing when the chosen one is empty.
pub open spec fn keyword_of(keyword: Option<String>, show_name: Option<String>) -> Option<Seq<char>> {
    let chosen = match keyword {
        Some(k) => Some(k@),
        None => match show_name {
            Some(n) => Some(n@),
            None => None,
        },
    };
    match chosen {
        Some(t) => if t.len() > 0 {
            Some(t)
        } else {
            None
        },
        None => None,
    }
}

impl HotwordItem {
    /// Display name prefers show_name over keyword.
    pub fn display_text(&self) -> (r: String)
        ensures
            r@ == (match self.show_name {
                Some(n) => n@,
                None => text_or(self.keyword, "-"@),
            }),
    {
        match &self.show_name {
            Some(n) => n.clone(),
            None => match &self.keyword {
                Some(k) => k.clone(),
                None => owned("-"),
            },
        }
    }

    /// Keyword to trigger search.
    pub fn keyword_text(&self) -> (r: Option<String>)
        ensures
            r matches Some(t) ==> keyword_of(self.keyword, self.show_name) == Some(t@),
            r is None ==> keyword_of(self.keyword, self.show_name) is None,
    {
        let chosen = match &self.keyword {
            Some(k) => Some(k.clone()),
            None => match &self.show_name {
                Some(n) => Some(n.clone()),
                None => None,
            },
        };
        match chosen {
            Some(t) => {
                if t.as_str().is_empty() {
                    None
                } else {
                    Some(t)
                }
            },
            None => None,
        }
    }

    /// Optional badge based on word_type.
    pub fn badge(&self) -> (r: Option<&'static str>)
        ensures
            r matches Some(b) ==> badge_for(self.word_type.unwrap_or(0)) == Some(b@),
            r is None ==> badge_for(self.word_type.unwrap_or(0)) is None,
    {
        let word_type = match self.word_type {
            Some(w) => w,
            None => 0,
        };
        if word_type == 4 {
            Some("新")
        } else if word_type == 5 {
            Some("热")
        } else if word_type == 7 {
            Some("直播")
        } else if word_type == 9 {
            Some("梗")
        } else if word_type == 11 {
            Some("话题")
        } else if word_type == 12 {
            Some("独家")
        } else {
            None
        }
    }
}

/// The hot-search list response.
#[derive(Debug)]
pub struct HotwordResponse {
    pub code: Option<i32>,
    pub message: Option<String>,
    pub list: Option<Vec<HotwordItem>>,
}

/// A title without highlight tags is shown as it is.
pub proof fn plain_titles_are_shown_unchanged(title: Seq<char>)
    requires
        !has_substring(title, keyword_open_tag()),
        !has_substring(title, keyword_close_tag()),
    ensures
        strip_highlight(title) == title,
{
    reveal_strlit("<em class=\"keyword\">");
    reveal_strlit("</em>");
    replace_absent_pattern(title, keyword_open_tag(), Seq::empty());
    replace_absent_pattern(title, keyword_close_tag(), Seq::empty());
}

/// A hot word never searches for the empty keyword.
pub proof fn hot_word_keyword_is_never_empty(keyword: Option<String>, show_name: Option<String>)
    ensures
        keyword_of(keyword, show_name) matches Some(t) ==> t.len() > 0,
{
}

} // verus!
