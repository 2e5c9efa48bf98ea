//! Navigation rules of the application: which pages can be returned to, and
//! how pages that need a login tell the user so.

use vstd::prelude::*;
use crate::text::owned;

verus! {

/// The kinds of page the application shows.
#[derive(Debug, Clone, Copy, PartialEq, Eq, Structural)]
pub enum PageKind {
    Home,
    Search,
    Dynamic,
    History,
    Favorites,
    Live,
    Bangumi,
    VideoDetail,
    DynamicDetail,
    Login,
    LiveDetail,
    Settings,
    BangumiDetail,
    Up,
}

/// The pages that a detail page can return to.
#[derive(Debug, Clone, Copy, PartialEq, Eq, Structural)]
pub enum PreviousPage {
    Home,
    Search,
    Dynamic,
    History,
    Favorites,
    Live,
    Bangumi,
}

/// The page to return to after leaving `page`: the list pages are
/// remembered, the others are not.
pub open spec fn return_target(page: PageKind) -> Option<PreviousPage> {
    match page {
        PageKind::Home => Some(PreviousPage::Home),
        PageKind::Search => Some(PreviousPage::Search),
        PageKind::Dynamic => Some(PreviousPage::Dynamic),
        PageKind::History => Some(PreviousPage::History),
        PageKind::Favorites => Some(PreviousPage::Favorites),
        PageKind::Live => Some(PreviousPage::Live),
        PageKind::Bangumi => Some(PreviousPage::Bangumi),
        _ => None,
    }
}

impl PreviousPage {
    /// The kind of the page that is returned to.
    pub open spec fn kind(self) -> PageKind {
        match self {
            PreviousPage::Home => PageKind::Home,
            PreviousPage::Search => PageKind::Search,
            PreviousPage::Dynamic => PageKind::Dynamic,
            PreviousPage::History => PageKind::History,
            PreviousPage::Favorites => PageKind::Favorites,
            PreviousPage::Live => PageKind::Live,
            PreviousPage::Bangumi => PageKind::Bangumi,
        }
    }
}

/// The list pages: those the sidebar opens and detail pages return to.
pub open spec fn is_list_page(page: PageKind) -> bool {
    ||| page is Home
    ||| page is Search
    ||| page is Dynamic
    ||| page is History
    ||| page is Favorites
    ||| page is Live
    ||| page is Bangumi
}

/// Leaving a list page records that very page to come back to; leaving any
/// other page records none.
pub proof fn return_target_is_the_page_left(page: PageKind)
    ensures
        return_target(page) is Some <==> is_list_page(page),
        return_target(page) matches Some(p) ==> p.kind() == page,
{
}

/// The page to record for returning to, when the user leaves `page`.
pub fn previous_page_for(page: PageKind) -> (r: Option<PreviousPage>)
    ensures
        r == return_target(page),
        r is Some <==> is_list_page(page),
        r matches Some(p) ==> p.kind() == page,
{
    match page {
        PageKind::Home => Some(PreviousPage::Home),
        PageKind::Search => Some(PreviousPage::Search),
        PageKind::Dynamic => Some(PreviousPage::Dynamic),
        PageKind::History => Some(PreviousPage::History),
        PageKind::Favorites => Some(PreviousPage::Favorites),
        PageKind::Live => Some(PreviousPage::Live),
        PageKind::Bangumi => Some(PreviousPage::Bangumi),
        _ => None,
    }
}

/// The message shown where a feature needs a login.
pub fn login_required_message() -> (r: String)
    ensures
        r@ == "该功能需要登录，请前往设置页登录"@,
{
    owned("该功能需要登录，请前往设置页登录")
}

/// How a page shows that it needs a login.
#[derive(Debug, Clone, Copy, PartialEq, Eq, Structural)]
pub enum LoginHint {
    /// The dynamic feed stops loading its uploader list and shows the message.
    FeedError,
    /// The history page shows the message where more entries would load.
    LoadMoreError,
    /// A detail page stops loading and shows the message.
    DetailError,
}

/// Where the login hint goes on `page`; pages that do not need a login
/// show none.
pub open spec fn login_hint(page: PageKind) -> Option<LoginHint> {
    match page {
        PageKind::Dynamic => Some(LoginHint::FeedError),
        PageKind::History => Some(LoginHint::LoadMoreError),
        PageKind::VideoDetail => Some(LoginHint::DetailError),
        PageKind::DynamicDetail => Some(LoginHint::DetailError),
        _ => None,
    }
}

/// How `page` shows that a login is required, if it does.
pub fn login_hint_for(page: PageKind) -> (r: Option<LoginHint>)
    ensures
        r == login_hint(page),
{
    match page {
        PageKind::Dynamic => Some(LoginHint::FeedError),
        PageKind::History => Some(LoginHint::LoadMoreError),
        PageKind::VideoDetail => Some(LoginHint::DetailError),
        PageKind::DynamicDetail => Some(LoginHint::DetailError),
        _ => None,
    }
}

} // verus!
