//! The application's decisions: which page is shown, what each user action
//! changes, and which requests go out to the network worker. Every step takes
//! the state and an action and gives the next state and the commands to send;
//! the program around the library performs the commands and reports back.

use vstd::prelude::*;
use std::collections::HashSet;
use crate::navigation::{PageKind, PreviousPage, is_list_page, login_required_message, previous_page_for, return_target};
use crate::playback::{PlayOrder, PlaybackState, PlaybackStatus, PlaylistItem, PlaylistSource};
use crate::text::{chars_of, owned, parse_i64, parsed_i64, push_str};

verus! {

broadcast use vstd::std_specs::hash::group_hash_axioms;

/// The entries of the sidebar.
#[derive(Debug, Clone, Copy, PartialEq, Eq, Structural)]
pub enum NavItem {
    Home,
    Search,
    Dynamic,
    History,
    Favorites,
    Live,
    Bangumi,
    Settings,
}

/// The recommendation feed.
#[derive(Debug)]
pub struct HomePage {
    pub loading: bool,
}

/// The search page: the query, the result page reached so far, and how many
/// results the server reported and the page shows.
#[derive(Debug)]
pub struct SearchPage {
    pub query: String,
    pub page: i32,
    pub loading: bool,
    pub loading_more: bool,
    pub show_hot_list: bool,
    pub hot_loading: bool,
    pub total_results: i32,
    pub card_count: usize,
}

/// The feed of followed uploaders.
#[derive(Debug)]
pub struct DynamicPage {
    pub loading: bool,
    pub loading_up_list: bool,
    pub loading_more: bool,
    pub has_more: bool,
    pub offset: Option<String>,
    pub tab: u8,
    pub host_mid: Option<i64>,
    pub error: Option<String>,
    /// The followed uploaders, by id, in the order the list shows them.
    pub up_mids: Vec<i64>,
}

/// The watch history.
#[derive(Debug)]
pub struct HistoryPage {
    pub loading: bool,
    pub error: Option<String>,
    pub loading_more: bool,
    pub has_more: bool,
    /// Where the next page of the history starts, once a page has come.
    pub cursor: Option<HistoryCursor>,
}

/// The position in the watch history from which the next page is read.
#[derive(Debug)]
pub struct HistoryCursor {
    pub max: i64,
    pub view_at: i64,
    pub business: String,
}

impl HistoryCursor {
    /// A copy of the cursor.
    pub fn copied(&self) -> (c: HistoryCursor)
        ensures
            c == *self,
    {
        HistoryCursor { max: self.max, view_at: self.view_at, business: self.business.clone() }
    }
}

/// The list of live rooms.
#[derive(Debug)]
pub struct LivePage {
    pub loading: bool,
}

/// The ranking of series.
#[derive(Debug)]
pub struct BangumiPage {
    pub loading: bool,
}

/// The favorite folders of the user `mid`.
#[derive(Debug)]
pub struct FavoritesPage {
    pub mid: i64,
    pub loading: bool,
}

/// One video with its comments, and the comments the user has liked.
#[derive(Debug)]
pub struct VideoDetailPage {
    pub bvid: String,
    pub aid: i64,
    pub loading: bool,
    pub error_message: Option<String>,
    pub current_page_index: usize,
    pub liked_comments: HashSet<i64>,
}

/// One post of the feed with its comments.
#[derive(Debug)]
pub struct DynamicDetailPage {
    pub dynamic_id: String,
    pub loading: bool,
    pub error_message: Option<String>,
    pub liked_comments: HashSet<i64>,
}

/// The space of the uploader `mid`.
#[derive(Debug)]
pub struct UpPage {
    pub mid: i64,
    pub loading: bool,
    pub loading_more: bool,
    pub video_order: SpaceVideoOrder,
    /// The last page of videos received.
    pub video_page: i32,
    pub video_count: usize,
    /// The favorite folder on show, by id.
    pub active_folder: Option<i64>,
    pub favorite_page: i32,
    pub favorite_order: FavoriteOrder,
    pub favorite_count: usize,
}

/// The order of an uploader's videos.
#[derive(Debug, Clone, Copy, PartialEq, Eq, Structural)]
pub enum SpaceVideoOrder {
    Latest,
    MostPlayed,
    MostFavorited,
}

/// The order of the videos in a favorite folder.
#[derive(Debug, Clone, Copy, PartialEq, Eq, Structural)]
pub enum FavoriteOrder {
    RecentlyFavorited,
    MostPlayed,
    RecentlyPublished,
}

/// An uploader's space as it opens: loading, the latest videos first, no
/// folder open.
pub open spec fn fresh_up(mid: i64) -> UpPage {
    UpPage {
        mid,
        loading: true,
        loading_more: false,
        video_order: SpaceVideoOrder::Latest,
        video_page: 1,
        video_count: 0,
        active_folder: None,
        favorite_page: 1,
        favorite_order: FavoriteOrder::RecentlyFavorited,
        favorite_count: 0,
    }
}

impl UpPage {
    pub fn new(mid: i64) -> (p: Self)
        ensures
            p == fresh_up(mid),
    {
        UpPage {
            mid,
            loading: true,
            loading_more: false,
            video_order: SpaceVideoOrder::Latest,
            video_page: 1,
            video_count: 0,
            active_folder: None,
            favorite_page: 1,
            favorite_order: FavoriteOrder::RecentlyFavorited,
            favorite_count: 0,
        }
    }
}

/// What is being started when a start fails.
#[derive(Debug, Clone, Copy, PartialEq, Eq, Structural)]
pub enum StartKind {
    Player,
    Live,
    Playlist,
}

/// The words that open the message of a failed start of `kind`.
pub open spec fn start_failure_prefix(kind: StartKind) -> Seq<char> {
    match kind {
        StartKind::Player => "启动播放器失败: "@,
        StartKind::Live => "启动直播失败: "@,
        StartKind::Playlist => "启动播放列表失败: "@,
    }
}

/// The page on screen.
#[derive(Debug)]
pub enum Page {
    Home(HomePage),
    Search(SearchPage),
    Dynamic(DynamicPage),
    History(HistoryPage),
    Favorites(FavoritesPage),
    Live(LivePage),
    Bangumi(BangumiPage),
    VideoDetail(VideoDetailPage),
    DynamicDetail(DynamicDetailPage),
    Login,
    LiveDetail(i64),
    Settings,
    BangumiDetail(i64),
    Up(UpPage),
}

/// One part of a video with several parts.
#[derive(Debug, Clone, Copy, PartialEq, Eq, Structural)]
pub struct VideoPart {
    pub cid: i64,
    pub duration: i64,
    pub page: i32,
}

/// The work that the program around the library performs for a step: the
/// requests to the network worker, the comment calls and starting the player.
#[derive(Debug)]
pub enum NetworkCommand {
    LoadHome { use_guest_feed: bool },
    LoadHotwords,
    Search { keyword: String, page: i32 },
    LoadDynamicInit { tab: u8, host_mid: Option<i64> },
    LoadDynamicRefresh { tab: u8, host_mid: Option<i64> },
    LoadDynamicMore { offset: String, tab: u8, host_mid: Option<i64> },
    LoadHistoryInit,
    LoadLiveInit,
    LoadVideoDetail { bvid: String, aid: i64 },
    LoadUpPage { mid: i64, order: SpaceVideoOrder },
    LoadUpVideos { mid: i64, page: i32, order: SpaceVideoOrder },
    LoadFavoriteResources { owner_mid: i64, media_id: i64, page: i32, order: FavoriteOrder },
    LoadHistoryMore { cursor: HistoryCursor },
    BuildUpPlaylist { mid: i64, name: String, video_order: SpaceVideoOrder, play_order: PlayOrder },
    BuildFavoritePlaylist {
        media_id: i64,
        title: String,
        favorite_order: FavoriteOrder,
        play_order: PlayOrder,
    },
    /// Opens the live room `room_id` for the viewer `uid` (0 for a guest).
    OpenLiveRoom { room_id: i64, uid: i64 },
    PlayLive { room_id: i64 },
    PlayBangumiEpisode { ep_id: i64 },
    /// Plays the queue now in the playback state, from `start_index`, in `order`.
    PlayQueue { order: PlayOrder, start_index: usize },
    LoadFavoritesInit { mid: i64 },
    LoadDynamicDetail { dynamic_id: String },
    LoadBangumiIndex,
    LoadBangumiDetail { season_id: i64 },
    LikeComment { oid: i64, rpid: i64, comment_type: i32, like: bool },
    AddComment { oid: i64, comment_type: i32, message: String, root: Option<i64> },
    PlayVideo { bvid: String, aid: i64, cid: i64, duration: i64, part: Option<i32> },
}

/// What the user asks for.
#[derive(Debug)]
pub enum AppAction {
    Quit,
    SwitchToHome,
    RefreshHome,
    SwitchToLogin,
    LoginSuccess { user_id: String },
    PlayVideo { bvid: String, aid: i64, cid: i64, duration: i64 },
    PlayVideoWithPages { bvid: String, aid: i64, pages: Vec<VideoPart>, current_index: usize },
    /// The sidebar moved to another entry.
    Navigate(NavItem),
    Search(String),
    RefreshDynamic,
    OpenVideoDetail(String, i64),
    OpenUpPage(i64),
    OpenDynamicDetail(String),
    BackToList,
    LoadMoreSearch,
    LoadMoreDynamic,
    SwitchToHistory,
    SwitchToSettings,
    Logout,
    LikeComment { oid: i64, rpid: i64, comment_type: i32 },
    AddComment { oid: i64, comment_type: i32, message: String, root: Option<i64> },
    SwitchToLive,
    RefreshLive,
    SwitchToBangumi,
    RefreshBangumi,
    SwitchBangumiTab(u8),
    OpenBangumiDetail(i64),
    LoadMoreBangumi,
    LoadMoreHistory,
    SwitchDynamicTab(u8),
    SelectUpMaster(usize),
    RefreshUpPage,
    SwitchUpVideoOrder(SpaceVideoOrder),
    LoadMoreUpVideos,
    OpenFavoriteFolder(i64),
    SwitchFavoriteOrder(FavoriteOrder),
    LoadMoreFavoriteResources,
    PlayUpAll { mid: i64, name: String, video_order: SpaceVideoOrder, play_order: PlayOrder },
    PlayFavoriteAll {
        media_id: i64,
        title: String,
        favorite_order: FavoriteOrder,
        play_order: PlayOrder,
    },
    OpenLiveDetail(i64),
    PlayPlaylist {
        items: Vec<PlaylistItem>,
        source: PlaylistSource,
        start_index: usize,
        order: PlayOrder,
    },
    PlayLive { room_id: i64, title: String },
    PlayBangumiEpisode { ep_id: i64, season_id: i64, title: String },
    Noop,
}

/// The state of the application.
#[derive(Debug)]
pub struct App {
    pub should_quit: bool,
    /// The id of the logged-in user; `None` when nobody is logged in.
    pub user_id: Option<String>,
    pub selected: NavItem,
    pub current_page: Page,
    pub navigation_stack: Vec<Page>,
    pub previous_page: Option<PreviousPage>,
    pub cached_home: Option<HomePage>,
    pub cached_bangumi: Option<BangumiPage>,
    pub playback: PlaybackState,
    /// Whether the client goes back to the list when the current playback ends.
    pub auto_return_after_playback: bool,
}

/// The text shown where a feature needs a login.
pub open spec fn login_text() -> Seq<char> {
    "该功能需要登录，请前往设置页登录"@
}

/// `e` holds the login message.
pub open spec fn is_login_error(e: Option<String>) -> bool {
    e matches Some(m) && m@ == login_text()
}

impl Page {
    /// The kind of the page.
    pub open spec fn kind(self) -> PageKind {
        match self {
            Page::Home(_) => PageKind::Home,
            Page::Search(_) => PageKind::Search,
            Page::Dynamic(_) => PageKind::Dynamic,
            Page::History(_) => PageKind::History,
            Page::Favorites(_) => PageKind::Favorites,
            Page::Live(_) => PageKind::Live,
            Page::Bangumi(_) => PageKind::Bangumi,
            Page::VideoDetail(_) => PageKind::VideoDetail,
            Page::DynamicDetail(_) => PageKind::DynamicDetail,
            Page::Login => PageKind::Login,
            Page::LiveDetail(_) => PageKind::LiveDetail,
            Page::Settings => PageKind::Settings,
            Page::BangumiDetail(_) => PageKind::BangumiDetail,
            Page::Up(_) => PageKind::Up,
        }
    }
}

/// `after` is `before` showing the login message: the feed stops loading its
/// uploader list, the history shows the message, a detail page stops loading;
/// other pages stay as they are.
pub open spec fn shows_login_hint(before: Page, after: Page) -> bool {
    match before {
        Page::Dynamic(p) => after matches Page::Dynamic(q) && is_login_error(q.error) && q
            == DynamicPage { loading_up_list: false, error: q.error, ..p },
        Page::History(p) => after matches Page::History(q) && is_login_error(q.error) && q
            == HistoryPage { loading: false, loading_more: false, error: q.error, ..p },
        Page::VideoDetail(p) => after matches Page::VideoDetail(q) && is_login_error(
            q.error_message,
        ) && q == VideoDetailPage { loading: false, error_message: q.error_message, ..p },
        Page::DynamicDetail(p) => after matches Page::DynamicDetail(q) && is_login_error(
            q.error_message,
        ) && q == DynamicDetailPage { loading: false, error_message: q.error_message, ..p },
        _ => after == before,
    }
}

/// `after` and `cmd` are what initializing the page `before` gives: the
/// request that fills the page, and the page marked as loading. A feed or a
/// history opened without a login shows the login message and asks nothing.
pub open spec fn initialized(
    before: Page,
    logged_in: bool,
    after: Page,
    cmd: Option<NetworkCommand>,
) -> bool {
    match before {
        Page::Home(_) => after == Page::Home(HomePage { loading: true }) && cmd == Some(
            NetworkCommand::LoadHome { use_guest_feed: !logged_in },
        ),
        Page::Favorites(p) => after == Page::Favorites(FavoritesPage { loading: true, ..p })
            && cmd == Some(NetworkCommand::LoadFavoritesInit { mid: p.mid }),
        Page::Search(p) => after == Page::Search(SearchPage { hot_loading: true, ..p }) && cmd
            == Some(NetworkCommand::LoadHotwords),
        Page::Dynamic(p) => if logged_in {
            after == Page::Dynamic(DynamicPage { loading_up_list: true, ..p }) && cmd == Some(
                NetworkCommand::LoadDynamicInit { tab: p.tab, host_mid: p.host_mid },
            )
        } else {
            shows_login_hint(before, after) && cmd is None
        },
        Page::History(p) => if logged_in {
            after == Page::History(HistoryPage { loading: true, ..p }) && cmd == Some(
                NetworkCommand::LoadHistoryInit,
            )
        } else {
            shows_login_hint(before, after) && cmd is None
        },
        Page::Live(_) => after == Page::Live(LivePage { loading: true }) && cmd == Some(
            NetworkCommand::LoadLiveInit,
        ),
        Page::Bangumi(_) => after == Page::Bangumi(BangumiPage { loading: true }) && cmd == Some(
            NetworkCommand::LoadBangumiIndex,
        ),
        _ => after == before && cmd is None,
    }
}


/// A search page as it opens: no query, the first result page, the list of
/// popular searches on show.
pub open spec fn fresh_search(p: SearchPage) -> bool {
    &&& p.query@.len() == 0
    &&& p.page == 1
    &&& !p.loading
    &&& !p.loading_more
    &&& p.show_hot_list
    &&& !p.hot_loading
    &&& p.total_results == 0
    &&& p.card_count == 0
}

/// The feed as it opens: nothing loading, the first tab, no uploader chosen
/// and none listed.
pub open spec fn fresh_dynamic(p: DynamicPage) -> bool {
    &&& !p.loading
    &&& !p.loading_up_list
    &&& !p.loading_more
    &&& p.has_more
    &&& p.offset is None
    &&& p.tab == 0
    &&& p.host_mid is None
    &&& p.error is None
    &&& p.up_mids@.len() == 0
}

/// The history as it opens.
pub open spec fn fresh_history() -> HistoryPage {
    HistoryPage { loading: false, error: None, loading_more: false, has_more: true, cursor: None }
}

/// A video page as it opens: loading, no part chosen, no comment liked.
pub open spec fn fresh_video_detail(p: VideoDetailPage, bvid: String, aid: i64) -> bool {
    &&& p.bvid == bvid
    &&& p.aid == aid
    &&& p.loading
    &&& p.error_message is None
    &&& p.current_page_index == 0
    &&& p.liked_comments@ == Set::<i64>::empty()
}

/// A post page as it opens.
pub open spec fn fresh_dynamic_detail(p: DynamicDetailPage, dynamic_id: String) -> bool {
    &&& p.dynamic_id == dynamic_id
    &&& p.loading
    &&& p.error_message is None
    &&& p.liked_comments@ == Set::<i64>::empty()
}

impl HomePage {
    pub fn new() -> (p: Self)
        ensures
            p == (HomePage { loading: false }),
    {
        HomePage { loading: false }
    }
}

impl SearchPage {
    pub fn new() -> (p: Self)
        ensures
            fresh_search(p),
    {
        SearchPage {
            query: String::new(),
            page: 1,
            loading: false,
            loading_more: false,
            show_hot_list: true,
            hot_loading: false,
            total_results: 0,
            card_count: 0,
        }
    }
}

impl DynamicPage {
    pub fn new() -> (p: Self)
        ensures
            fresh_dynamic(p),
    {
        DynamicPage {
            loading: false,
            loading_up_list: false,
            loading_more: false,
            has_more: true,
            offset: None,
            tab: 0,
            host_mid: None,
            error: None,
            up_mids: Vec::new(),
        }
    }
}

impl HistoryPage {
    pub fn new() -> (p: Self)
        ensures
            p == fresh_history(),
    {
        HistoryPage { loading: false, error: None, loading_more: false, has_more: true, cursor: None }
    }
}

impl LivePage {
    pub fn new() -> (p: Self)
        ensures
            p == (LivePage { loading: false }),
    {
        LivePage { loading: false }
    }
}

impl BangumiPage {
    pub fn new() -> (p: Self)
        ensures
            p == (BangumiPage { loading: false }),
    {
        BangumiPage { loading: false }
    }
}

impl FavoritesPage {
    pub fn new(mid: i64) -> (p: Self)
        ensures
            p == (FavoritesPage { mid, loading: false }),
    {
        FavoritesPage { mid, loading: false }
    }
}

impl VideoDetailPage {
    pub fn new(bvid: String, aid: i64) -> (p: Self)
        ensures
            fresh_video_detail(p, bvid, aid),
    {
        VideoDetailPage {
            bvid,
            aid,
            loading: true,
            error_message: None,
            current_page_index: 0,
            liked_comments: HashSet::new(),
        }
    }
}

impl DynamicDetailPage {
    pub fn new(dynamic_id: String) -> (p: Self)
        ensures
            fresh_dynamic_detail(p, dynamic_id),
    {
        DynamicDetailPage {
            dynamic_id,
            loading: true,
            error_message: None,
            liked_comments: HashSet::new(),
        }
    }
}

/// The user id read as a number, the way the client reads it for the
/// favorites: `None` when nobody is logged in or the id is no `i64`.
pub open spec fn user_mid(user_id: Option<String>) -> Option<i64> {
    match user_id {
        Some(s) => parsed_i64(s@),
        None => None,
    }
}

/// The first command of `cmds`, if there is one.
pub open spec fn first_of(cmds: Seq<NetworkCommand>) -> Option<NetworkCommand> {
    if cmds.len() == 0 {
        None
    } else {
        Some(cmds[0])
    }
}

/// `page` and `cmd` are a freshly opened page of kind `kind` after its
/// initialization (`mid` is the owner of a favorites page).
pub open spec fn opened_fresh(
    kind: PageKind,
    logged_in: bool,
    mid: i64,
    page: Page,
    cmd: Option<NetworkCommand>,
) -> bool {
    match kind {
        PageKind::Home => page == Page::Home(HomePage { loading: true }) && cmd == Some(
            NetworkCommand::LoadHome { use_guest_feed: !logged_in },
        ),
        PageKind::Search => page matches Page::Search(p) && p.hot_loading && fresh_search(
            SearchPage { hot_loading: false, ..p },
        ) && cmd == Some(NetworkCommand::LoadHotwords),
        PageKind::Dynamic => if logged_in {
            page matches Page::Dynamic(q) && q.loading_up_list && fresh_dynamic(
                DynamicPage { loading_up_list: false, ..q },
            ) && cmd == Some(NetworkCommand::LoadDynamicInit { tab: 0, host_mid: None })
        } else {
            page matches Page::Dynamic(q) && is_login_error(q.error) && fresh_dynamic(
                DynamicPage { error: None, ..q },
            ) && cmd is None
        },
        PageKind::History => if logged_in {
            page == Page::History(HistoryPage { loading: true, ..fresh_history() }) && cmd == Some(
                NetworkCommand::LoadHistoryInit,
            )
        } else {
            shows_login_hint(Page::History(fresh_history()), page)
                && cmd is None
        },
        PageKind::Favorites => page == Page::Favorites(FavoritesPage { mid, loading: true })
            && cmd == Some(NetworkCommand::LoadFavoritesInit { mid }),
        PageKind::Live => page == Page::Live(LivePage { loading: true }) && cmd == Some(
            NetworkCommand::LoadLiveInit,
        ),
        PageKind::Bangumi => page == Page::Bangumi(BangumiPage { loading: true }) && cmd == Some(
            NetworkCommand::LoadBangumiIndex,
        ),
        _ => false,
    }
}

/// The Home page kept when the sidebar leaves the Home page for `item`.
pub open spec fn home_cache_after(before: App, item: NavItem) -> Option<HomePage> {
    if item != NavItem::Home {
        match before.current_page {
            Page::Home(h) => Some(h),
            _ => before.cached_home,
        }
    } else {
        before.cached_home
    }
}

/// The sidebar went to `item`, whose page is a list of kind `kind`: a page
/// of that kind already on screen stays; otherwise a fresh one opens and
/// starts loading, and a Home page that was shown is kept for later.
pub open spec fn nav_list(
    before: App,
    item: NavItem,
    kind: PageKind,
    mid: i64,
    after: App,
    cmd: Option<NetworkCommand>,
) -> bool {
    if before.current_page.kind() == kind {
        after == (App { selected: item, ..before }) && cmd is None
    } else {
        &&& after == (App {
            selected: item,
            current_page: after.current_page,
            cached_home: home_cache_after(before, item),
            ..before
        })
        &&& opened_fresh(kind, before.logged_in(), mid, after.current_page, cmd)
    }
}

/// What moving the sidebar to `item` does.
pub open spec fn nav_outcome(before: App, item: NavItem, after: App, cmd: Option<NetworkCommand>) -> bool {
    match item {
        NavItem::Home => if before.current_page is Home {
            after == (App { selected: item, ..before }) && cmd is None
        } else {
            match before.cached_home {
                Some(h) => after == (App {
                    selected: item,
                    current_page: Page::Home(h),
                    cached_home: None,
                    ..before
                }) && cmd is None,
                None => after == (App { selected: item, current_page: after.current_page, ..before })
                    && opened_fresh(PageKind::Home, before.logged_in(), 0, after.current_page, cmd),
            }
        },
        NavItem::Search => nav_list(before, item, PageKind::Search, 0, after, cmd),
        NavItem::Dynamic => nav_list(before, item, PageKind::Dynamic, 0, after, cmd),
        NavItem::History => nav_list(before, item, PageKind::History, 0, after, cmd),
        NavItem::Live => nav_list(before, item, PageKind::Live, 0, after, cmd),
        NavItem::Favorites => match user_mid(before.user_id) {
            Some(mid) => nav_list(before, item, PageKind::Favorites, mid, after, cmd),
            None => after == (App {
                selected: item,
                current_page: Page::Settings,
                cached_home: home_cache_after(before, item),
                ..before
            }) && cmd is None,
        },
        NavItem::Settings => if before.current_page is Settings {
            after == (App { selected: item, ..before }) && cmd is None
        } else {
            after == (App {
                selected: item,
                current_page: Page::Settings,
                cached_home: home_cache_after(before, item),
                ..before
            }) && cmd is None
        },
        NavItem::Bangumi => if before.current_page is Bangumi {
            after == (App { selected: item, ..before }) && cmd is None
        } else {
            match before.cached_bangumi {
                Some(b) => after == (App {
                    selected: item,
                    current_page: Page::Bangumi(b),
                    cached_bangumi: None,
                    cached_home: home_cache_after(before, item),
                    ..before
                }) && cmd is None,
                None => after == (App {
                    selected: item,
                    current_page: after.current_page,
                    cached_home: home_cache_after(before, item),
                    ..before
                }) && opened_fresh(PageKind::Bangumi, before.logged_in(), 0, after.current_page, cmd),
            }
        },
    }
}

/// A step that changed nothing and sends nothing.
pub open spec fn unchanged(before: App, after: App, cmds: Seq<NetworkCommand>) -> bool {
    after == before && cmds.len() == 0
}

/// A step refused for want of a login: the page shows the login message,
/// nothing else changes and nothing is sent.
pub open spec fn refused_for_login(before: App, after: App, cmds: Seq<NetworkCommand>) -> bool {
    &&& shows_login_hint(before.current_page, after.current_page)
    &&& after == (App { current_page: after.current_page, ..before })
    &&& cmds.len() == 0
}

/// A step that sets the fields of `frame` and opens a fresh page of `kind`.
pub open spec fn opened_step(
    frame: App,
    kind: PageKind,
    mid: i64,
    after: App,
    cmds: Seq<NetworkCommand>,
) -> bool {
    &&& after == (App { current_page: after.current_page, ..frame })
    &&& cmds.len() <= 1
    &&& opened_fresh(kind, frame.logged_in(), mid, after.current_page, first_of(cmds))
}

/// The Home page comes back: the kept one if there is one, else a fresh one.
pub open spec fn home_shown(frame: App, after: App, cmds: Seq<NetworkCommand>) -> bool {
    match frame.cached_home {
        Some(h) => after == (App { current_page: Page::Home(h), cached_home: None, ..frame })
            && cmds.len() == 0,
        None => opened_step(frame, PageKind::Home, 0, after, cmds),
    }
}

/// The series ranking comes back: the kept one if there is one, else a fresh one.
pub open spec fn bangumi_shown(frame: App, after: App, cmds: Seq<NetworkCommand>) -> bool {
    match frame.cached_bangumi {
        Some(b) => after == (App { current_page: Page::Bangumi(b), cached_bangumi: None, ..frame })
            && cmds.len() == 0,
        None => opened_step(frame, PageKind::Bangumi, 0, after, cmds),
    }
}

/// The comments liked on `page`, for a page that shows comments.
pub open spec fn liked_comments_of(page: Page) -> Option<Set<i64>> {
    match page {
        Page::VideoDetail(p) => Some(p.liked_comments@),
        Page::DynamicDetail(p) => Some(p.liked_comments@),
        _ => None,
    }
}

/// The comment `rpid` is liked on `page`.
pub open spec fn is_liked(page: Page, rpid: i64) -> bool {
    match liked_comments_of(page) {
        Some(s) => s.contains(rpid),
        None => false,
    }
}

/// `after` is `before` with only the liked comments changed, to `liked`.
pub open spec fn with_liked(before: Page, after: Page, liked: Set<i64>) -> bool {
    match before {
        Page::VideoDetail(p) => after matches Page::VideoDetail(q) && q.liked_comments@ == liked
            && q == VideoDetailPage { liked_comments: q.liked_comments, ..p },
        Page::DynamicDetail(p) => after matches Page::DynamicDetail(q) && q.liked_comments@
            == liked && q == DynamicDetailPage { liked_comments: q.liked_comments, ..p },
        _ => after == before,
    }
}

/// What the confirmation of a like request (`like` on, or off) does.
pub open spec fn like_confirmed(before: App, rpid: i64, like: bool, after: App) -> bool {
    &&& after == (App { current_page: after.current_page, ..before })
    &&& match liked_comments_of(before.current_page) {
        Some(s) => with_liked(
            before.current_page,
            after.current_page,
            if like {
                s.insert(rpid)
            } else {
                s.remove(rpid)
            },
        ),
        None => after.current_page == before.current_page,
    }
}

/// Playing part `index` of a video with several parts: only a part that
/// exists is played, and a page showing that video marks it as the current part.
pub open spec fn part_played(
    before: App,
    bvid: String,
    aid: i64,
    parts: Seq<VideoPart>,
    index: usize,
    after: App,
    cmds: Seq<NetworkCommand>,
) -> bool {
    if index < parts.len() {
        let part = parts[index as int];
        let page = match before.current_page {
            Page::VideoDetail(p) => if p.bvid@ == bvid@ {
                Page::VideoDetail(VideoDetailPage { current_page_index: index, ..p })
            } else {
                before.current_page
            },
            _ => before.current_page,
        };
        &&& after == (App {
            current_page: page,
            playback: PlaybackState { status: PlaybackStatus::Starting, ..before.playback },
            ..before
        })
        &&& cmds == seq![
            NetworkCommand::PlayVideo {
                bvid,
                aid,
                cid: part.cid,
                duration: part.duration,
                part: Some(part.page),
            },
        ]
    } else {
        unchanged(before, after, cmds)
    }
}

/// Asking for the next page of search results: nothing while a page is on
/// its way, with no query, with the popular searches on show, or once every
/// result is shown; otherwise the next page is asked for.
pub open spec fn more_search(before: App, after: App, cmds: Seq<NetworkCommand>) -> bool {
    match before.current_page {
        Page::Search(p) => if p.loading_more || p.query@.len() == 0 || p.show_hot_list
            || p.card_count >= p.total_results as usize {
            unchanged(before, after, cmds)
        } else {
            &&& after == (App {
                current_page: Page::Search(SearchPage { loading_more: true, ..p }),
                ..before
            })
            &&& cmds == seq![NetworkCommand::Search { keyword: p.query, page: (p.page + 1) as i32 }]
        },
        _ => unchanged(before, after, cmds),
    }
}

/// Asking for more of the feed: only when none is on its way, the server has
/// more, and there is an offset to continue from.
pub open spec fn more_dynamic(before: App, after: App, cmds: Seq<NetworkCommand>) -> bool {
    match before.current_page {
        Page::Dynamic(p) => if p.loading_more || !p.has_more {
            unchanged(before, after, cmds)
        } else {
            match p.offset {
                Some(offset) => {
                    &&& after == (App {
                        current_page: Page::Dynamic(DynamicPage { loading_more: true, ..p }),
                        ..before
                    })
                    &&& cmds == seq![
                        NetworkCommand::LoadDynamicMore { offset, tab: p.tab, host_mid: p.host_mid },
                    ]
                },
                None => unchanged(before, after, cmds),
            }
        },
        _ => unchanged(before, after, cmds),
    }
}

/// Going back: to the page under the top of the navigation stack if there
/// is one, else to the list page recorded as the previous one (the Home
/// page when none is).
pub open spec fn back_outcome(before: App, after: App, cmds: Seq<NetworkCommand>) -> bool {
    if before.navigation_stack@.len() > 0 {
        &&& after == (App {
            current_page: before.navigation_stack@.last(),
            navigation_stack: after.navigation_stack,
            auto_return_after_playback: false,
            ..before
        })
        &&& after.navigation_stack@ == before.navigation_stack@.drop_last()
        &&& cmds.len() == 0
    } else {
        let b = App { previous_page: None, auto_return_after_playback: false, ..before };
        match before.previous_page {
            Some(PreviousPage::Search) => opened_step(
                App { selected: NavItem::Search, ..b },
                PageKind::Search,
                0,
                after,
                cmds,
            ),
            Some(PreviousPage::Dynamic) => opened_step(
                App { selected: NavItem::Dynamic, ..b },
                PageKind::Dynamic,
                0,
                after,
                cmds,
            ),
            Some(PreviousPage::History) => opened_step(
                App { selected: NavItem::History, ..b },
                PageKind::History,
                0,
                after,
                cmds,
            ),
            Some(PreviousPage::Favorites) => match user_mid(before.user_id) {
                Some(mid) => opened_step(
                    App { selected: NavItem::Favorites, ..b },
                    PageKind::Favorites,
                    mid,
                    after,
                    cmds,
                ),
                None => unchanged(App { selected: NavItem::Favorites, ..b }, after, cmds),
            },
            Some(PreviousPage::Live) => opened_step(
                App { selected: NavItem::Live, ..b },
                PageKind::Live,
                0,
                after,
                cmds,
            ),
            Some(PreviousPage::Bangumi) => bangumi_shown(
                App { selected: NavItem::Bangumi, ..b },
                after,
                cmds,
            ),
            _ => home_shown(App { selected: NavItem::Home, ..b }, after, cmds),
        }
    }
}

/// The actions that need a login.
pub open spec fn needs_login(action: AppAction) -> bool {
    ||| action is RefreshDynamic
    ||| action is LoadMoreDynamic
    ||| action is LikeComment
    ||| action is AddComment
    ||| action is LoadMoreHistory
    ||| action is SwitchDynamicTab
    ||| action is SelectUpMaster
}

/// What the action `action` does to the state `before`: the next state
/// `after` and the commands `cmds` to perform.
pub open spec fn action_outcome(
    before: App,
    action: AppAction,
    after: App,
    cmds: Seq<NetworkCommand>,
) -> bool {
    if needs_login(action) && !before.logged_in() {
        refused_for_login(before, after, cmds)
    } else {
        match action {
            AppAction::Quit => after == (App { should_quit: true, ..before }) && cmds.len() == 0,
            AppAction::SwitchToHome => home_shown(App { selected: NavItem::Home, ..before }, after, cmds),
            AppAction::RefreshHome => opened_step(
                App { selected: NavItem::Home, cached_home: None, ..before },
                PageKind::Home,
                0,
                after,
                cmds,
            ),
            AppAction::SwitchToLogin => after == (App { current_page: Page::Login, ..before })
                && cmds.len() == 0,
            AppAction::LoginSuccess { user_id } => opened_step(
                App { user_id: Some(user_id), ..before },
                PageKind::Home,
                0,
                after,
                cmds,
            ),
            AppAction::PlayVideo { bvid, aid, cid, duration } => {
                &&& after == starting(before)
                &&& cmds == seq![NetworkCommand::PlayVideo { bvid, aid, cid, duration, part: None }]
            },
            AppAction::PlayVideoWithPages { bvid, aid, pages, current_index } => part_played(
                before,
                bvid,
                aid,
                pages@,
                current_index,
                after,
                cmds,
            ),
            AppAction::Navigate(item) => if before.current_page is VideoDetail {
                unchanged(before, after, cmds)
            } else {
                cmds.len() <= 1 && nav_outcome(before, item, after, first_of(cmds))
            },
            AppAction::Search(keyword) => match before.current_page {
                Page::Search(p) => {
                    &&& after == (App {
                        current_page: Page::Search(
                            SearchPage {
                                query: keyword,
                                page: 1,
                                loading: true,
                                show_hot_list: false,
                                ..p
                            },
                        ),
                        ..before
                    })
                    &&& cmds == seq![NetworkCommand::Search { keyword, page: 1 }]
                },
                _ => unchanged(before, after, cmds),
            },
            AppAction::RefreshDynamic => match before.current_page {
                Page::Dynamic(p) => {
                    &&& after == (App {
                        current_page: Page::Dynamic(DynamicPage { loading: true, ..p }),
                        ..before
                    })
                    &&& cmds == seq![
                        NetworkCommand::LoadDynamicRefresh { tab: p.tab, host_mid: p.host_mid },
                    ]
                },
                _ => unchanged(before, after, cmds),
            },
            AppAction::OpenVideoDetail(bvid, aid) => {
                &&& after.current_page matches Page::VideoDetail(p) && fresh_video_detail(p, bvid, aid)
                &&& after.navigation_stack@ == before.navigation_stack@.push(before.current_page)
                &&& after == (App {
                    current_page: after.current_page,
                    navigation_stack: after.navigation_stack,
                    ..before
                })
                &&& cmds == seq![NetworkCommand::LoadVideoDetail { bvid, aid }]
            },
            AppAction::OpenUpPage(mid) => {
                &&& after.navigation_stack@ == before.navigation_stack@.push(before.current_page)
                &&& after == (App {
                    current_page: Page::Up(fresh_up(mid)),
                    navigation_stack: after.navigation_stack,
                    ..before
                })
                &&& cmds == seq![NetworkCommand::LoadUpPage { mid, order: SpaceVideoOrder::Latest }]
            },
            AppAction::OpenDynamicDetail(dynamic_id) => {
                &&& after.current_page matches Page::DynamicDetail(p) && fresh_dynamic_detail(
                    p,
                    dynamic_id,
                )
                &&& after == (App {
                    current_page: after.current_page,
                    previous_page: return_target(before.current_page.kind()),
                    cached_home: match before.current_page {
                        Page::Home(h) => Some(h),
                        _ => before.cached_home,
                    },
                    ..before
                })
                &&& cmds == seq![NetworkCommand::LoadDynamicDetail { dynamic_id }]
            },
            AppAction::BackToList => back_outcome(before, after, cmds),
            AppAction::LoadMoreSearch => more_search(before, after, cmds),
            AppAction::LoadMoreDynamic => more_dynamic(before, after, cmds),
            AppAction::SwitchToHistory => opened_step(
                App { selected: NavItem::History, ..before },
                PageKind::History,
                0,
                after,
                cmds,
            ),
            AppAction::SwitchToSettings => after == (App {
                selected: NavItem::Settings,
                current_page: Page::Settings,
                ..before
            }) && cmds.len() == 0,
            AppAction::Logout => opened_step(
                App { user_id: None, cached_home: None, ..before },
                PageKind::Home,
                0,
                after,
                cmds,
            ),
            AppAction::LikeComment { oid, rpid, comment_type } => match liked_comments_of(
                before.current_page,
            ) {
                Some(liked) => after == before && cmds == seq![
                    NetworkCommand::LikeComment { oid, rpid, comment_type, like: !liked.contains(rpid) },
                ],
                None => unchanged(before, after, cmds),
            },
            AppAction::AddComment { oid, comment_type, message, root } => after == before && cmds
                == seq![NetworkCommand::AddComment { oid, comment_type, message, root }],
            AppAction::SwitchToLive => opened_step(
                App { selected: NavItem::Live, ..before },
                PageKind::Live,
                0,
                after,
                cmds,
            ),
            AppAction::RefreshLive => match before.current_page {
                Page::Live(_) => after == (App {
                    current_page: Page::Live(LivePage { loading: true }),
                    ..before
                }) && cmds == seq![NetworkCommand::LoadLiveInit],
                _ => unchanged(before, after, cmds),
            },
            AppAction::SwitchToBangumi => bangumi_shown(
                App { selected: NavItem::Bangumi, ..before },
                after,
                cmds,
            ),
            AppAction::RefreshBangumi => opened_step(
                App { selected: NavItem::Bangumi, cached_bangumi: None, ..before },
                PageKind::Bangumi,
                0,
                after,
                cmds,
            ),
            AppAction::LoadMoreHistory => more_history(before, after, cmds),
            AppAction::SwitchDynamicTab(tab) => match before.current_page {
                Page::Dynamic(p) => {
                    &&& after == (App {
                        current_page: Page::Dynamic(feed_restarted(p, tab, p.host_mid)),
                        ..before
                    })
                    &&& cmds == seq![NetworkCommand::LoadDynamicRefresh { tab, host_mid: p.host_mid }]
                },
                _ => unchanged(before, after, cmds),
            },
            AppAction::SelectUpMaster(index) => match before.current_page {
                Page::Dynamic(p) => {
                    &&& after == (App {
                        current_page: Page::Dynamic(feed_restarted(p, p.tab, picked_up(p, index))),
                        ..before
                    })
                    &&& cmds == seq![
                        NetworkCommand::LoadDynamicRefresh { tab: p.tab, host_mid: picked_up(p, index) },
                    ]
                },
                _ => unchanged(before, after, cmds),
            },
            AppAction::RefreshUpPage => up_step(before, action, after, cmds),
            AppAction::SwitchUpVideoOrder(_) => up_step(before, action, after, cmds),
            AppAction::LoadMoreUpVideos => up_step(before, action, after, cmds),
            AppAction::OpenFavoriteFolder(_) => up_step(before, action, after, cmds),
            AppAction::SwitchFavoriteOrder(_) => up_step(before, action, after, cmds),
            AppAction::LoadMoreFavoriteResources => up_step(before, action, after, cmds),
            AppAction::PlayUpAll { mid, name, video_order, play_order } => after == starting(before)
                && cmds == seq![NetworkCommand::BuildUpPlaylist { mid, name, video_order, play_order }],
            AppAction::PlayFavoriteAll { media_id, title, favorite_order, play_order } => after
                == starting(before) && cmds == seq![
                NetworkCommand::BuildFavoritePlaylist { media_id, title, favorite_order, play_order },
            ],
            AppAction::OpenLiveDetail(room_id) => {
                &&& after == (App {
                    current_page: Page::LiveDetail(room_id),
                    previous_page: return_target(before.current_page.kind()),
                    ..before
                })
                &&& cmds == seq![
                    NetworkCommand::OpenLiveRoom {
                        room_id,
                        uid: match user_mid(before.user_id) {
                            Some(mid) => mid,
                            None => 0,
                        },
                    },
                ]
            },
            AppAction::PlayPlaylist { items, source, start_index, order } => {
                &&& after == (App { playback: after.playback, ..before })
                &&& playlist_started(items@, source, start_index, order, after.playback)
                &&& cmds == seq![NetworkCommand::PlayQueue { order, start_index }]
            },
            AppAction::PlayLive { room_id, .. } => after == before && cmds == seq![
                NetworkCommand::PlayLive { room_id },
            ],
            AppAction::PlayBangumiEpisode { ep_id, .. } => after == before && cmds == seq![
                NetworkCommand::PlayBangumiEpisode { ep_id },
            ],
            AppAction::OpenBangumiDetail(season_id) => {
                &&& after == (App {
                    current_page: Page::BangumiDetail(season_id),
                    previous_page: return_target(before.current_page.kind()),
                    cached_bangumi: match before.current_page {
                        Page::Bangumi(b) => Some(b),
                        _ => before.cached_bangumi,
                    },
                    ..before
                })
                &&& cmds == seq![NetworkCommand::LoadBangumiDetail { season_id }]
            },
            _ => unchanged(before, after, cmds),
        }
    }
}

/// Asking for more of the history: only when none is on its way, the server
/// has more, and a cursor says where to continue.
pub open spec fn more_history(before: App, after: App, cmds: Seq<NetworkCommand>) -> bool {
    match before.current_page {
        Page::History(p) => if p.loading_more || !p.has_more {
            unchanged(before, after, cmds)
        } else {
            match p.cursor {
                Some(cursor) => {
                    &&& after == (App {
                        current_page: Page::History(HistoryPage { loading_more: true, ..p }),
                        ..before
                    })
                    &&& cmds == seq![NetworkCommand::LoadHistoryMore { cursor }]
                },
                None => unchanged(before, after, cmds),
            }
        },
        _ => unchanged(before, after, cmds),
    }
}

/// The feed restarted from its top for the tab `tab` and the uploader
/// `host_mid`: it loads again, with no offset and more to come.
pub open spec fn feed_restarted(p: DynamicPage, tab: u8, host_mid: Option<i64>) -> DynamicPage {
    DynamicPage { tab, host_mid, offset: None, has_more: true, loading: true, ..p }
}

/// The uploader chosen by picking entry `index` of the list: that entry's
/// uploader when the list has one there, else the one chosen before.
pub open spec fn picked_up(p: DynamicPage, index: usize) -> Option<i64> {
    if index < p.up_mids@.len() {
        Some(p.up_mids@[index as int])
    } else {
        p.host_mid
    }
}

/// The steps on an uploader's space.
pub open spec fn up_step(before: App, action: AppAction, after: App, cmds: Seq<NetworkCommand>) -> bool {
    match before.current_page {
        Page::Up(p) => match action {
            AppAction::RefreshUpPage => {
                &&& after == (App { current_page: Page::Up(UpPage { loading: true, ..p }), ..before })
                &&& cmds == seq![NetworkCommand::LoadUpPage { mid: p.mid, order: p.video_order }]
            },
            AppAction::SwitchUpVideoOrder(order) => {
                &&& after == (App {
                    current_page: Page::Up(
                        UpPage { loading: true, video_count: 0, video_page: 1, ..p },
                    ),
                    ..before
                })
                &&& cmds == seq![NetworkCommand::LoadUpVideos { mid: p.mid, page: 1, order }]
            },
            AppAction::LoadMoreUpVideos => {
                &&& after == (App {
                    current_page: Page::Up(UpPage { loading_more: true, ..p }),
                    ..before
                })
                &&& cmds == seq![
                    NetworkCommand::LoadUpVideos {
                        mid: p.mid,
                        page: (p.video_page + 1) as i32,
                        order: p.video_order,
                    },
                ]
            },
            AppAction::OpenFavoriteFolder(media_id) => after == before && cmds == seq![
                NetworkCommand::LoadFavoriteResources {
                    owner_mid: p.mid,
                    media_id,
                    page: 1,
                    order: p.favorite_order,
                },
            ],
            AppAction::SwitchFavoriteOrder(order) => match p.active_folder {
                Some(media_id) => {
                    &&& after == (App {
                        current_page: Page::Up(UpPage { favorite_count: 0, favorite_page: 1, ..p }),
                        ..before
                    })
                    &&& cmds == seq![
                        NetworkCommand::LoadFavoriteResources {
                            owner_mid: p.mid,
                            media_id,
                            page: 1,
                            order,
                        },
                    ]
                },
                None => unchanged(before, after, cmds),
            },
            AppAction::LoadMoreFavoriteResources => match p.active_folder {
                Some(media_id) => {
                    &&& after == (App {
                        current_page: Page::Up(UpPage { loading_more: true, ..p }),
                        ..before
                    })
                    &&& cmds == seq![
                        NetworkCommand::LoadFavoriteResources {
                            owner_mid: p.mid,
                            media_id,
                            page: (p.favorite_page + 1) as i32,
                            order: p.favorite_order,
                        },
                    ]
                },
                None => unchanged(before, after, cmds),
            },
            _ => unchanged(before, after, cmds),
        },
        _ => unchanged(before, after, cmds),
    }
}

/// The playback state after the queue was replaced by `items` from
/// `source`, set to play in `order`, and moved to `start` when that entry
/// exists (to the first entry otherwise).
pub open spec fn playlist_started(
    items: Seq<PlaylistItem>,
    source: PlaylistSource,
    start: usize,
    order: PlayOrder,
    playback: PlaybackState,
) -> bool {
    &&& playback.queue@ == items
    &&& playback.source == Some(source)
    &&& playback.order == order
    &&& playback.last_error is None
    &&& if start < items.len() {
        playback.current_index == Some(start) && playback.status == PlaybackStatus::Starting
    } else {
        playback.current_index == (if items.len() > 0 {
            Some(0usize)
        } else {
            None
        }) && playback.status == PlaybackStatus::Idle
    }
}

/// Whether more comments wait beyond the `received` ones, by the page
/// information of the reply: its total `count` (0 when missing) exceeds the
/// number received; no page information means no more.
pub open spec fn more_comments(page_count: Option<Option<i32>>, received: usize) -> bool {
    match page_count {
        Some(count) => match count {
            Some(c) => c > received as i32,
            None => 0 > received as i32,
        },
        None => false,
    }
}

/// Whether a reply of comments leaves more to load (see `more_comments`).
pub fn comments_have_more(page_count: Option<Option<i32>>, received: usize) -> (r: bool)
    ensures
        r == more_comments(page_count, received),
{
    match page_count {
        Some(count) => {
            let total = match count {
                Some(c) => c,
                None => 0,
            };
            total > received as i32
        },
        None => false,
    }
}

/// The playback state after asking for a start.
pub open spec fn starting(before: App) -> App {
    App { playback: PlaybackState { status: PlaybackStatus::Starting, ..before.playback }, ..before }
}

/// The one input on which a step would overflow: asking for the search
/// result page after the last one an `i32` can number.
pub open spec fn step_fits(before: App, action: AppAction) -> bool {
    &&& action is LoadMoreSearch ==> (before.current_page matches Page::Search(p) ==> p.page
        < i32::MAX)
    &&& action is LoadMoreUpVideos ==> (before.current_page matches Page::Up(p) ==> p.video_page
        < i32::MAX)
    &&& action is LoadMoreFavoriteResources ==> (before.current_page matches Page::Up(p) ==> (
    p.active_folder is Some ==> p.favorite_page < i32::MAX))
}

impl App {
    /// Somebody is logged in.
    pub open spec fn logged_in(self) -> bool {
        self.user_id is Some
    }

    /// The user id read as a number.
    pub fn user_mid(&self) -> (r: Option<i64>)
        ensures
            r == user_mid(self.user_id),
    {
        match &self.user_id {
            Some(s) => {
                let cs = chars_of(s.as_str());
                parse_i64(cs.as_slice())
            },
            None => None,
        }
    }

    /// Puts `page` on screen and starts filling it.
    fn show_fresh(&mut self, page: Page) -> (cmd: Option<NetworkCommand>)
        ensures
            initialized(page, old(self).logged_in(), final(self).current_page, cmd),
            *final(self) == (App { current_page: final(self).current_page, ..*old(self) }),
    {
        self.current_page = page;
        self.init_current_page()
    }

    /// Keeps the Home page on screen for later, when the sidebar leaves it.
    fn cache_home_when_leaving(&mut self, item: NavItem)
        ensures
            final(self).cached_home == home_cache_after(*old(self), item),
            item != NavItem::Home && old(self).current_page is Home ==> final(self).current_page
                == Page::Home(HomePage { loading: false }),
            !(item != NavItem::Home && old(self).current_page is Home) ==> final(self).current_page
                == old(self).current_page,
            *final(self) == (App {
                current_page: final(self).current_page,
                cached_home: final(self).cached_home,
                ..*old(self)
            }),
    {
        if item != NavItem::Home {
            if let Page::Home(_) = self.current_page {
                let mut shown = Page::Home(HomePage::new());
                std::mem::swap(&mut self.current_page, &mut shown);
                if let Page::Home(h) = shown {
                    self.cached_home = Some(h);
                }
            }
        }
    }

    /// Moves the sidebar to `item` and shows its page.
    pub fn switch_to_nav_page(&mut self, item: NavItem) -> (cmd: Option<NetworkCommand>)
        ensures
            nav_outcome(*old(self), item, *final(self), cmd),
            item != NavItem::Home ==> (old(self).current_page matches Page::Home(h)
                ==> final(self).cached_home == Some(h)),
            item == NavItem::Favorites && user_mid(old(self).user_id) is None
                ==> final(self).current_page is Settings && cmd is None,
    {
        self.cache_home_when_leaving(item);
        self.selected = item;
        match item {
            NavItem::Home => {
                if let Page::Home(_) = self.current_page {
                    None
                } else {
                    match self.cached_home.take() {
                        Some(c) => {
                            self.current_page = Page::Home(c);
                            None
                        },
                        None => self.show_fresh(Page::Home(HomePage::new())),
                    }
                }
            },
            NavItem::Search => {
                if let Page::Search(_) = self.current_page {
                    None
                } else {
                    self.show_fresh(Page::Search(SearchPage::new()))
                }
            },
            NavItem::Dynamic => {
                if let Page::Dynamic(_) = self.current_page {
                    None
                } else {
                    self.show_fresh(Page::Dynamic(DynamicPage::new()))
                }
            },
            NavItem::History => {
                if let Page::History(_) = self.current_page {
                    None
                } else {
                    self.show_fresh(Page::History(HistoryPage::new()))
                }
            },
            NavItem::Favorites => {
                match self.user_mid() {
                    Some(mid) => {
                        if let Page::Favorites(_) = self.current_page {
                            None
                        } else {
                            self.show_fresh(Page::Favorites(FavoritesPage::new(mid)))
                        }
                    },
                    None => {
                        self.current_page = Page::Settings;
                        None
                    },
                }
            },
            NavItem::Settings => {
                if let Page::Settings = self.current_page {
                    None
                } else {
                    self.current_page = Page::Settings;
                    None
                }
            },
            NavItem::Live => {
                if let Page::Live(_) = self.current_page {
                    None
                } else {
                    self.show_fresh(Page::Live(LivePage::new()))
                }
            },
            NavItem::Bangumi => {
                if let Page::Bangumi(_) = self.current_page {
                    None
                } else {
                    match self.cached_bangumi.take() {
                        Some(b) => {
                            self.current_page = Page::Bangumi(b);
                            None
                        },
                        None => self.show_fresh(Page::Bangumi(BangumiPage::new())),
                    }
                }
            },
        }
    }

    /// Shows the login message on the current page.
    pub fn apply_login_required_hint(&mut self)
        ensures
            shows_login_hint(old(self).current_page, final(self).current_page),
            *final(self) == (App { current_page: final(self).current_page, ..*old(self) }),
    {
        match &mut self.current_page {
            Page::Dynamic(page) => {
                page.loading_up_list = false;
                page.error = Some(login_required_message());
            },
            Page::History(page) => {
                page.loading = false;
                page.loading_more = false;
                page.error = Some(login_required_message());
            },
            Page::VideoDetail(page) => {
                page.error_message = Some(login_required_message());
                page.loading = false;
            },
            Page::DynamicDetail(page) => {
                page.error_message = Some(login_required_message());
                page.loading = false;
            },
            _ => {},
        }
    }

    /// Starts filling the current page: marks it as loading and gives the
    /// request for its contents, if it has one.
    pub fn init_current_page(&mut self) -> (cmd: Option<NetworkCommand>)
        ensures
            initialized(old(self).current_page, old(self).logged_in(), final(self).current_page, cmd),
            *final(self) == (App { current_page: final(self).current_page, ..*old(self) }),
            old(self).current_page is Dynamic && !old(self).logged_in() ==> cmd is None
                && shows_login_hint(old(self).current_page, final(self).current_page),
            old(self).current_page is History && !old(self).logged_in() ==> cmd is None
                && shows_login_hint(old(self).current_page, final(self).current_page),
    {
        let logged_in = self.user_id.is_some();
        match &mut self.current_page {
            Page::Home(page) => {
                page.loading = true;
                Some(NetworkCommand::LoadHome { use_guest_feed: !logged_in })
            },
            Page::Favorites(page) => {
                page.loading = true;
                Some(NetworkCommand::LoadFavoritesInit { mid: page.mid })
            },
            Page::Search(page) => {
                page.hot_loading = true;
                Some(NetworkCommand::LoadHotwords)
            },
            Page::Dynamic(page) => {
                if !logged_in {
                    page.loading_up_list = false;
                    page.error = Some(login_required_message());
                    return None;
                }
                page.loading_up_list = true;
                Some(NetworkCommand::LoadDynamicInit { tab: page.tab, host_mid: page.host_mid })
            },
            Page::History(page) => {
                if !logged_in {
                    page.loading = false;
                    page.loading_more = false;
                    page.error = Some(login_required_message());
                    return None;
                }
                page.loading = true;
                Some(NetworkCommand::LoadHistoryInit)
            },
            Page::Live(page) => {
                page.loading = true;
                Some(NetworkCommand::LoadLiveInit)
            },
            Page::Bangumi(page) => {
                page.loading = true;
                Some(NetworkCommand::LoadBangumiIndex)
            },
            _ => None,
        }
    }
}


/// The commands of a step that sends `cmd`, if anything.
fn commands(cmd: Option<NetworkCommand>) -> (v: Vec<NetworkCommand>)
    ensures
        v@.len() <= 1,
        first_of(v@) == cmd,
{
    let mut v: Vec<NetworkCommand> = Vec::new();
    if let Some(c) = cmd {
        v.push(c);
    }
    v
}

/// The commands of a step that sends `cmd`.
fn single(cmd: NetworkCommand) -> (v: Vec<NetworkCommand>)
    ensures
        v@ == seq![cmd],
{
    let mut v: Vec<NetworkCommand> = Vec::new();
    v.push(cmd);
    assert(v@ =~= seq![cmd]);
    v
}

impl App {
    /// Opens a fresh page of the list kind `kind` (`mid` owns a favorites
    /// page) and starts filling it.
    fn open_fresh(&mut self, kind: PageKind, mid: i64) -> (cmd: Option<NetworkCommand>)
        requires
            kind is Home || kind is Search || kind is Dynamic || kind is History || kind is Favorites
                || kind is Live || kind is Bangumi,
        ensures
            opened_fresh(kind, old(self).logged_in(), mid, final(self).current_page, cmd),
            *final(self) == (App { current_page: final(self).current_page, ..*old(self) }),
    {
        match kind {
            PageKind::Home => self.show_fresh(Page::Home(HomePage::new())),
            PageKind::Search => self.show_fresh(Page::Search(SearchPage::new())),
            PageKind::Dynamic => self.show_fresh(Page::Dynamic(DynamicPage::new())),
            PageKind::History => self.show_fresh(Page::History(HistoryPage::new())),
            PageKind::Favorites => self.show_fresh(Page::Favorites(FavoritesPage::new(mid))),
            PageKind::Live => self.show_fresh(Page::Live(LivePage::new())),
            _ => self.show_fresh(Page::Bangumi(BangumiPage::new())),
        }
    }

    fn open_fresh_step(&mut self, kind: PageKind, mid: i64) -> (cmds: Vec<NetworkCommand>)
        requires
            kind is Home || kind is Search || kind is Dynamic || kind is History || kind is Favorites
                || kind is Live || kind is Bangumi,
        ensures
            opened_step(*old(self), kind, mid, *final(self), cmds@),
    {
        let cmd = self.open_fresh(kind, mid);
        commands(cmd)
    }

    fn show_home(&mut self) -> (cmds: Vec<NetworkCommand>)
        ensures
            home_shown(*old(self), *final(self), cmds@),
    {
        match self.cached_home.take() {
            Some(h) => {
                self.current_page = Page::Home(h);
                Vec::new()
            },
            None => self.open_fresh_step(PageKind::Home, 0),
        }
    }

    fn show_bangumi(&mut self) -> (cmds: Vec<NetworkCommand>)
        ensures
            bangumi_shown(*old(self), *final(self), cmds@),
    {
        match self.cached_bangumi.take() {
            Some(b) => {
                self.current_page = Page::Bangumi(b);
                Vec::new()
            },
            None => self.open_fresh_step(PageKind::Bangumi, 0),
        }
    }

    fn back_to_list(&mut self) -> (cmds: Vec<NetworkCommand>)
        ensures
            back_outcome(*old(self), *final(self), cmds@),
    {
        self.auto_return_after_playback = false;
        if self.navigation_stack.len() > 0 {
            if let Some(p) = self.navigation_stack.pop() {
                self.current_page = p;
            }
            return Vec::new();
        }
        match self.previous_page.take() {
            Some(PreviousPage::Search) => {
                self.selected = NavItem::Search;
                self.open_fresh_step(PageKind::Search, 0)
            },
            Some(PreviousPage::Dynamic) => {
                self.selected = NavItem::Dynamic;
                self.open_fresh_step(PageKind::Dynamic, 0)
            },
            Some(PreviousPage::History) => {
                self.selected = NavItem::History;
                self.open_fresh_step(PageKind::History, 0)
            },
            Some(PreviousPage::Favorites) => {
                self.selected = NavItem::Favorites;
                match self.user_mid() {
                    Some(mid) => self.open_fresh_step(PageKind::Favorites, mid),
                    None => Vec::new(),
                }
            },
            Some(PreviousPage::Live) => {
                self.selected = NavItem::Live;
                self.open_fresh_step(PageKind::Live, 0)
            },
            Some(PreviousPage::Bangumi) => {
                self.selected = NavItem::Bangumi;
                self.show_bangumi()
            },
            _ => {
                self.selected = NavItem::Home;
                self.show_home()
            },
        }
    }

    fn play_part(&mut self, bvid: String, aid: i64, parts: Vec<VideoPart>, index: usize) -> (cmds:
        Vec<NetworkCommand>)
        ensures
            part_played(*old(self), bvid, aid, parts@, index, *final(self), cmds@),
    {
        if index >= parts.len() {
            return Vec::new();
        }
        let part = parts[index];
        self.playback.status = PlaybackStatus::Starting;
        if let Page::VideoDetail(detail) = &mut self.current_page {
            if detail.bvid == bvid {
                detail.current_page_index = index;
            }
        }
        single(
            NetworkCommand::PlayVideo {
                bvid,
                aid,
                cid: part.cid,
                duration: part.duration,
                part: Some(part.page),
            },
        )
    }

    fn load_more_search(&mut self) -> (cmds: Vec<NetworkCommand>)
        requires
            old(self).current_page matches Page::Search(p) ==> p.page < i32::MAX,
        ensures
            more_search(*old(self), *final(self), cmds@),
    {
        if let Page::Search(page) = &mut self.current_page {
            if page.loading_more || page.query.as_str().is_empty() || page.show_hot_list {
                return Vec::new();
            }
            if page.card_count >= page.total_results as usize {
                return Vec::new();
            }
            page.loading_more = true;
            let keyword = page.query.clone();
            let next = page.page + 1;
            single(NetworkCommand::Search { keyword, page: next })
        } else {
            Vec::new()
        }
    }

    fn load_more_dynamic(&mut self) -> (cmds: Vec<NetworkCommand>)
        ensures
            more_dynamic(*old(self), *final(self), cmds@),
    {
        if let Page::Dynamic(page) = &mut self.current_page {
            if page.loading_more || !page.has_more {
                return Vec::new();
            }
            match &page.offset {
                Some(offset) => {
                    let offset = offset.clone();
                    page.loading_more = true;
                    single(
                        NetworkCommand::LoadDynamicMore {
                            offset,
                            tab: page.tab,
                            host_mid: page.host_mid,
                        },
                    )
                },
                None => Vec::new(),
            }
        } else {
            Vec::new()
        }
    }

    fn like_request(&self, oid: i64, rpid: i64, comment_type: i32) -> (cmds: Vec<NetworkCommand>)
        ensures
            match liked_comments_of(self.current_page) {
                Some(liked) => cmds@ == seq![
                    NetworkCommand::LikeComment { oid, rpid, comment_type, like: !liked.contains(rpid) },
                ],
                None => cmds@.len() == 0,
            },
    {
        match &self.current_page {
            Page::VideoDetail(page) => {
                let is_liked = page.liked_comments.contains(&rpid);
                single(NetworkCommand::LikeComment { oid, rpid, comment_type, like: !is_liked })
            },
            Page::DynamicDetail(page) => {
                let is_liked = page.liked_comments.contains(&rpid);
                single(NetworkCommand::LikeComment { oid, rpid, comment_type, like: !is_liked })
            },
            _ => Vec::new(),
        }
    }

    fn load_more_history(&mut self) -> (cmds: Vec<NetworkCommand>)
        ensures
            more_history(*old(self), *final(self), cmds@),
    {
        if let Page::History(page) = &mut self.current_page {
            if page.loading_more || !page.has_more {
                return Vec::new();
            }
            match &page.cursor {
                Some(cursor) => {
                    let cursor = cursor.copied();
                    page.loading_more = true;
                    single(NetworkCommand::LoadHistoryMore { cursor })
                },
                None => Vec::new(),
            }
        } else {
            Vec::new()
        }
    }

    fn up_action(&mut self, action: AppAction) -> (cmds: Vec<NetworkCommand>)
        requires
            step_fits(*old(self), action),
        ensures
            up_step(*old(self), action, *final(self), cmds@),
    {
        if let Page::Up(page) = &mut self.current_page {
            match action {
                AppAction::RefreshUpPage => {
                    page.loading = true;
                    single(NetworkCommand::LoadUpPage { mid: page.mid, order: page.video_order })
                },
                AppAction::SwitchUpVideoOrder(order) => {
                    page.loading = true;
                    page.video_count = 0;
                    page.video_page = 1;
                    single(NetworkCommand::LoadUpVideos { mid: page.mid, page: 1, order })
                },
                AppAction::LoadMoreUpVideos => {
                    let next = page.video_page + 1;
                    page.loading_more = true;
                    single(NetworkCommand::LoadUpVideos { mid: page.mid, page: next, order: page.video_order })
                },
                AppAction::OpenFavoriteFolder(media_id) => {
                    single(
                        NetworkCommand::LoadFavoriteResources {
                            owner_mid: page.mid,
                            media_id,
                            page: 1,
                            order: page.favorite_order,
                        },
                    )
                },
                AppAction::SwitchFavoriteOrder(order) => {
                    match page.active_folder {
                        Some(media_id) => {
                            page.favorite_count = 0;
                            page.favorite_page = 1;
                            single(
                                NetworkCommand::LoadFavoriteResources {
                                    owner_mid: page.mid,
                                    media_id,
                                    page: 1,
                                    order,
                                },
                            )
                        },
                        None => Vec::new(),
                    }
                },
                AppAction::LoadMoreFavoriteResources => {
                    match page.active_folder {
                        Some(media_id) => {
                            let next = page.favorite_page + 1;
                            page.loading_more = true;
                            single(
                                NetworkCommand::LoadFavoriteResources {
                                    owner_mid: page.mid,
                                    media_id,
                                    page: next,
                                    order: page.favorite_order,
                                },
                            )
                        },
                        None => Vec::new(),
                    }
                },
                _ => Vec::new(),
            }
        } else {
            Vec::new()
        }
    }

    /// Records that starting the player, a live stream or a playlist
    /// failed, with the error's text.
    pub fn start_failed(&mut self, kind: StartKind, error: &str)
        ensures
            *final(self) == (App {
                playback: PlaybackState {
                    status: PlaybackStatus::Failed,
                    last_error: final(self).playback.last_error,
                    ..old(self).playback
                },
                ..*old(self)
            }),
            final(self).playback.last_error matches Some(m) && m@ == start_failure_prefix(kind)
                + error@,
    {
        let mut message = match kind {
            StartKind::Player => owned("启动播放器失败: "),
            StartKind::Live => owned("启动直播失败: "),
            StartKind::Playlist => owned("启动播放列表失败: "),
        };
        proof {
            reveal_strlit("启动播放器失败: ");
            reveal_strlit("启动直播失败: ");
            reveal_strlit("启动播放列表失败: ");
        }
        push_str(&mut message, error);
        self.playback.status = PlaybackStatus::Failed;
        self.playback.last_error = Some(message);
    }

    /// Records that a live stream started.
    pub fn live_started(&mut self)
        ensures
            *final(self) == (App {
                playback: PlaybackState {
                    status: PlaybackStatus::Playing,
                    last_error: None,
                    ..old(self).playback
                },
                ..*old(self)
            }),
    {
        self.playback.status = PlaybackStatus::Playing;
        self.playback.last_error = None;
    }

    /// Records that the server accepted the like request for `rpid`: the
    /// comment is liked after a request to like it, and not after one to
    /// take the like back.
    pub fn confirm_comment_like(&mut self, rpid: i64, like: bool)
        ensures
            like_confirmed(*old(self), rpid, like, *final(self)),
    {
        match &mut self.current_page {
            Page::VideoDetail(page) => {
                if like {
                    page.liked_comments.insert(rpid);
                } else {
                    page.liked_comments.remove(&rpid);
                }
            },
            Page::DynamicDetail(page) => {
                if like {
                    page.liked_comments.insert(rpid);
                } else {
                    page.liked_comments.remove(&rpid);
                }
            },
            _ => {},
        }
    }

    /// Takes one user action: changes the state as the action asks and gives
    /// the commands to perform.
    #[verifier::spinoff_prover]
    #[verifier::rlimit(60)]
    pub fn handle_action(&mut self, action: AppAction) -> (cmds: Vec<NetworkCommand>)
        requires
            step_fits(*old(self), action),
        ensures
            action_outcome(*old(self), action, *final(self), cmds@),
            needs_login(action) && !old(self).logged_in() ==> shows_login_hint(
                old(self).current_page,
                final(self).current_page,
            ) && cmds@.len() == 0,
            action is LoadMoreSearch ==> more_search(*old(self), *final(self), cmds@),
            action is BackToList ==> back_outcome(*old(self), *final(self), cmds@),
            action matches AppAction::PlayVideoWithPages { pages, current_index, .. }
                ==> (current_index >= pages@.len() ==> unchanged(*old(self), *final(self), cmds@)),
            action matches AppAction::PlayVideo { bvid, aid, cid, duration } ==> cmds@ == seq![
                NetworkCommand::PlayVideo { bvid, aid, cid, duration, part: None },
            ],
            action matches AppAction::PlayVideoWithPages { bvid, aid, pages, current_index }
                ==> (current_index < pages@.len() ==> cmds@ == seq![
                NetworkCommand::PlayVideo {
                    bvid,
                    aid,
                    cid: pages@[current_index as int].cid,
                    duration: pages@[current_index as int].duration,
                    part: Some(pages@[current_index as int].page),
                },
            ]),
            action matches AppAction::PlayUpAll { mid, name, video_order, play_order } ==> cmds@
                == seq![NetworkCommand::BuildUpPlaylist { mid, name, video_order, play_order }],
            action matches AppAction::PlayFavoriteAll { media_id, title, favorite_order, play_order }
                ==> cmds@ == seq![
                NetworkCommand::BuildFavoritePlaylist { media_id, title, favorite_order, play_order },
            ],
            action matches AppAction::PlayPlaylist { start_index, order, .. } ==> cmds@ == seq![
                NetworkCommand::PlayQueue { order, start_index },
            ] && final(self).playback.order == order,
            action matches AppAction::PlayLive { room_id, .. } ==> cmds@ == seq![
                NetworkCommand::PlayLive { room_id },
            ],
            action matches AppAction::PlayBangumiEpisode { ep_id, .. } ==> cmds@ == seq![
                NetworkCommand::PlayBangumiEpisode { ep_id },
            ],
    {
        let logged_in = self.user_id.is_some();
        let gated = match &action {
            AppAction::RefreshDynamic => true,
            AppAction::LoadMoreDynamic => true,
            AppAction::LikeComment { .. } => true,
            AppAction::AddComment { .. } => true,
            AppAction::LoadMoreHistory => true,
            AppAction::SwitchDynamicTab(_) => true,
            AppAction::SelectUpMaster(_) => true,
            _ => false,
        };
        if gated && !logged_in {
            self.apply_login_required_hint();
            return Vec::new();
        }
        match action {
            AppAction::Quit => {
                self.should_quit = true;
                Vec::new()
            },
            AppAction::SwitchToHome => {
                self.selected = NavItem::Home;
                self.show_home()
            },
            AppAction::RefreshHome => {
                self.selected = NavItem::Home;
                self.cached_home = None;
                self.open_fresh_step(PageKind::Home, 0)
            },
            AppAction::SwitchToLogin => {
                self.current_page = Page::Login;
                Vec::new()
            },
            AppAction::LoginSuccess { user_id } => {
                self.user_id = Some(user_id);
                self.open_fresh_step(PageKind::Home, 0)
            },
            AppAction::PlayVideo { bvid, aid, cid, duration } => {
                self.playback.status = PlaybackStatus::Starting;
                assert(*self == starting(*old(self)));
                single(NetworkCommand::PlayVideo { bvid, aid, cid, duration, part: None })
            },
            AppAction::PlayVideoWithPages { bvid, aid, pages, current_index } => {
                self.play_part(bvid, aid, pages, current_index)
            },
            AppAction::Navigate(item) => {
                if let Page::VideoDetail(_) = self.current_page {
                    Vec::new()
                } else {
                    let cmd = self.switch_to_nav_page(item);
                    commands(cmd)
                }
            },
            AppAction::Search(keyword) => {
                if let Page::Search(page) = &mut self.current_page {
                    page.query = keyword.clone();
                    page.page = 1;
                    page.loading = true;
                    page.show_hot_list = false;
                    single(NetworkCommand::Search { keyword, page: 1 })
                } else {
                    Vec::new()
                }
            },
            AppAction::RefreshDynamic => {
                if let Page::Dynamic(page) = &mut self.current_page {
                    page.loading = true;
                    single(NetworkCommand::LoadDynamicRefresh { tab: page.tab, host_mid: page.host_mid })
                } else {
                    Vec::new()
                }
            },
            AppAction::OpenVideoDetail(bvid, aid) => {
                let mut previous = Page::VideoDetail(VideoDetailPage::new(bvid.clone(), aid));
                std::mem::swap(&mut self.current_page, &mut previous);
                self.navigation_stack.push(previous);
                single(NetworkCommand::LoadVideoDetail { bvid, aid })
            },
            AppAction::OpenUpPage(mid) => {
                let mut previous = Page::Up(UpPage::new(mid));
                std::mem::swap(&mut self.current_page, &mut previous);
                self.navigation_stack.push(previous);
                single(NetworkCommand::LoadUpPage { mid, order: SpaceVideoOrder::Latest })
            },
            AppAction::OpenDynamicDetail(dynamic_id) => {
                self.previous_page = previous_page_for(self.page_kind());
                let mut shown = Page::DynamicDetail(DynamicDetailPage::new(dynamic_id.clone()));
                std::mem::swap(&mut self.current_page, &mut shown);
                if let Page::Home(h) = shown {
                    self.cached_home = Some(h);
                }
                single(NetworkCommand::LoadDynamicDetail { dynamic_id })
            },
            AppAction::BackToList => self.back_to_list(),
            AppAction::LoadMoreSearch => self.load_more_search(),
            AppAction::LoadMoreDynamic => self.load_more_dynamic(),
            AppAction::SwitchToHistory => {
                self.selected = NavItem::History;
                self.open_fresh_step(PageKind::History, 0)
            },
            AppAction::SwitchToSettings => {
                self.selected = NavItem::Settings;
                self.current_page = Page::Settings;
                Vec::new()
            },
            AppAction::Logout => {
                self.user_id = None;
                self.cached_home = None;
                self.open_fresh_step(PageKind::Home, 0)
            },
            AppAction::LikeComment { oid, rpid, comment_type } => {
                self.like_request(oid, rpid, comment_type)
            },
            AppAction::AddComment { oid, comment_type, message, root } => {
                single(NetworkCommand::AddComment { oid, comment_type, message, root })
            },
            AppAction::SwitchToLive => {
                self.selected = NavItem::Live;
                self.open_fresh_step(PageKind::Live, 0)
            },
            AppAction::RefreshLive => {
                if let Page::Live(page) = &mut self.current_page {
                    page.loading = true;
                    single(NetworkCommand::LoadLiveInit)
                } else {
                    Vec::new()
                }
            },
            AppAction::SwitchToBangumi => {
                self.selected = NavItem::Bangumi;
                self.show_bangumi()
            },
            AppAction::RefreshBangumi => {
                self.selected = NavItem::Bangumi;
                self.cached_bangumi = None;
                self.open_fresh_step(PageKind::Bangumi, 0)
            },
            AppAction::OpenBangumiDetail(season_id) => {
                self.previous_page = previous_page_for(self.page_kind());
                let mut shown = Page::BangumiDetail(season_id);
                std::mem::swap(&mut self.current_page, &mut shown);
                if let Page::Bangumi(b) = shown {
                    self.cached_bangumi = Some(b);
                }
                single(NetworkCommand::LoadBangumiDetail { season_id })
            },
            AppAction::LoadMoreHistory => self.load_more_history(),
            AppAction::SwitchDynamicTab(tab) => {
                if let Page::Dynamic(page) = &mut self.current_page {
                    page.tab = tab;
                    page.offset = None;
                    page.has_more = true;
                    page.loading = true;
                    single(NetworkCommand::LoadDynamicRefresh { tab, host_mid: page.host_mid })
                } else {
                    Vec::new()
                }
            },
            AppAction::SelectUpMaster(index) => {
                if let Page::Dynamic(page) = &mut self.current_page {
                    if index < page.up_mids.len() {
                        page.host_mid = Some(page.up_mids[index]);
                    }
                    page.offset = None;
                    page.has_more = true;
                    page.loading = true;
                    single(NetworkCommand::LoadDynamicRefresh { tab: page.tab, host_mid: page.host_mid })
                } else {
                    Vec::new()
                }
            },
            AppAction::RefreshUpPage => self.up_action(action),
            AppAction::SwitchUpVideoOrder(_) => self.up_action(action),
            AppAction::LoadMoreUpVideos => self.up_action(action),
            AppAction::OpenFavoriteFolder(_) => self.up_action(action),
            AppAction::SwitchFavoriteOrder(_) => self.up_action(action),
            AppAction::LoadMoreFavoriteResources => self.up_action(action),
            AppAction::PlayUpAll { mid, name, video_order, play_order } => {
                self.playback.status = PlaybackStatus::Starting;
                single(NetworkCommand::BuildUpPlaylist { mid, name, video_order, play_order })
            },
            AppAction::PlayFavoriteAll { media_id, title, favorite_order, play_order } => {
                self.playback.status = PlaybackStatus::Starting;
                single(
                    NetworkCommand::BuildFavoritePlaylist { media_id, title, favorite_order, play_order },
                )
            },
            AppAction::OpenLiveDetail(room_id) => {
                self.previous_page = previous_page_for(self.page_kind());
                let uid = match self.user_mid() {
                    Some(mid) => mid,
                    None => 0,
                };
                self.current_page = Page::LiveDetail(room_id);
                single(NetworkCommand::OpenLiveRoom { room_id, uid })
            },
            AppAction::PlayPlaylist { items, source, start_index, order } => {
                self.playback.replace_queue(source, items);
                self.playback.order = order;
                self.playback.play_from(start_index);
                single(NetworkCommand::PlayQueue { order, start_index })
            },
            AppAction::PlayLive { room_id, .. } => single(NetworkCommand::PlayLive { room_id }),
            AppAction::PlayBangumiEpisode { ep_id, .. } => {
                single(NetworkCommand::PlayBangumiEpisode { ep_id })
            },
            AppAction::SwitchBangumiTab(_) => Vec::new(),
            AppAction::LoadMoreBangumi => Vec::new(),
            AppAction::Noop => Vec::new(),
        }
    }

    /// The kind of the page on screen.
    pub fn page_kind(&self) -> (k: PageKind)
        ensures
            k == self.current_page.kind(),
    {
        match &self.current_page {
            Page::Home(_) => PageKind::Home,
            Page::Search(_) => PageKind::Search,
            Page::Dynamic(_) => PageKind::Dynamic,
            Page::History(_) => PageKind::History,
            Page::Favorites(_) => PageKind::Favorites,
            Page::Live(_) => PageKind::Live,
            Page::Bangumi(_) => PageKind::Bangumi,
            Page::VideoDetail(_) => PageKind::VideoDetail,
            Page::DynamicDetail(_) => PageKind::DynamicDetail,
            Page::Login => PageKind::Login,
            Page::LiveDetail(_) => PageKind::LiveDetail,
            Page::Settings => PageKind::Settings,
            Page::BangumiDetail(_) => PageKind::BangumiDetail,
            Page::Up(_) => PageKind::Up,
        }
    }
}


/// Asking to like a comment and then recording that the server accepted the
/// request flips whether that comment is liked, and leaves the others alone.
pub proof fn like_request_toggles(
    before: App,
    oid: i64,
    rpid: i64,
    comment_type: i32,
    requested: App,
    cmds: Seq<NetworkCommand>,
    like: bool,
    after: App,
)
    requires
        action_outcome(before, AppAction::LikeComment { oid, rpid, comment_type }, requested, cmds),
        cmds == seq![NetworkCommand::LikeComment { oid, rpid, comment_type, like }],
        like_confirmed(requested, rpid, like, after),
    ensures
        is_liked(after.current_page, rpid) == !is_liked(before.current_page, rpid),
        forall|r: i64| r != rpid ==> is_liked(after.current_page, r) == is_liked(before.current_page, r),
{
    assert(cmds.len() == 1);
}

/// Opening a video and going back gives the state from before: the same
/// page on screen, the same navigation stack, no return after playback
/// pending, and no request.
pub proof fn back_after_video_restores(
    before: App,
    bvid: String,
    aid: i64,
    opened: App,
    first: Seq<NetworkCommand>,
    after: App,
    second: Seq<NetworkCommand>,
)
    requires
        action_outcome(before, AppAction::OpenVideoDetail(bvid, aid), opened, first),
        action_outcome(opened, AppAction::BackToList, after, second),
    ensures
        after.current_page == before.current_page,
        after.navigation_stack@ == before.navigation_stack@,
        !after.auto_return_after_playback,
        after == (App {
            navigation_stack: after.navigation_stack,
            auto_return_after_playback: false,
            ..before
        }),
        second.len() == 0,
{
    assert(opened.navigation_stack@.drop_last() =~= before.navigation_stack@);
}

/// The Home page that was on screen when a post was opened from it is the
/// one shown again on going back.
pub proof fn back_after_post_shows_kept_home(
    before: App,
    home: HomePage,
    dynamic_id: String,
    opened: App,
    first: Seq<NetworkCommand>,
    after: App,
    second: Seq<NetworkCommand>,
)
    requires
        before.current_page == Page::Home(home),
        before.navigation_stack@.len() == 0,
        action_outcome(before, AppAction::OpenDynamicDetail(dynamic_id), opened, first),
        action_outcome(opened, AppAction::BackToList, after, second),
    ensures
        after.current_page == Page::Home(home),
        after.selected == NavItem::Home,
        after.cached_home is None,
        second.len() == 0,
{
}

/// The Home page that the sidebar left is the one shown again when the
/// sidebar comes back to Home, with no new request.
pub proof fn sidebar_keeps_home(
    before: App,
    home: HomePage,
    item: NavItem,
    away: App,
    first: Seq<NetworkCommand>,
    after: App,
    second: Seq<NetworkCommand>,
)
    requires
        before.current_page == Page::Home(home),
        item != NavItem::Home,
        action_outcome(before, AppAction::Navigate(item), away, first),
        action_outcome(away, AppAction::Navigate(NavItem::Home), after, second),
    ensures
        after.current_page == Page::Home(home),
        after.selected == NavItem::Home,
        second.len() == 0,
{
}

/// While one request for more search results is on its way, asking again
/// changes nothing and sends nothing.
pub proof fn more_search_asks_once(
    before: App,
    asked: App,
    first: Seq<NetworkCommand>,
    after: App,
    second: Seq<NetworkCommand>,
)
    requires
        action_outcome(before, AppAction::LoadMoreSearch, asked, first),
        action_outcome(asked, AppAction::LoadMoreSearch, after, second),
    ensures
        after == asked,
        second.len() == 0,
{
}

/// A step that needs a login, taken while nobody is logged in, shows the
/// login message and sends nothing; everything but the page stays.
pub proof fn refused_without_login(
    before: App,
    action: AppAction,
    after: App,
    cmds: Seq<NetworkCommand>,
)
    requires
        needs_login(action),
        before.user_id is None,
        action_outcome(before, action, after, cmds),
    ensures
        shows_login_hint(before.current_page, after.current_page),
        after == (App { current_page: after.current_page, ..before }),
        cmds.len() == 0,
{
}


/// Playing a video asks the player for exactly the video and part that were
/// chosen: its bvid, aid, cid and duration, with no part number.
pub proof fn play_video_asks_for_the_chosen_part(
    before: App,
    bvid: String,
    aid: i64,
    cid: i64,
    duration: i64,
    after: App,
    cmds: Seq<NetworkCommand>,
)
    requires
        action_outcome(before, AppAction::PlayVideo { bvid, aid, cid, duration }, after, cmds),
    ensures
        cmds.len() == 1,
        cmds[0] matches NetworkCommand::PlayVideo { bvid: b, aid: a, cid: c, duration: d, part }
            && b == bvid && a == aid && c == cid && d == duration && part is None,
        after.playback.status == PlaybackStatus::Starting,
{
}

/// Playing an existing part of a video asks the player for that part: its
/// cid, its duration and its number.
pub proof fn play_part_asks_for_that_part(
    before: App,
    bvid: String,
    aid: i64,
    pages: Vec<VideoPart>,
    index: usize,
    after: App,
    cmds: Seq<NetworkCommand>,
)
    requires
        action_outcome(
            before,
            AppAction::PlayVideoWithPages { bvid, aid, pages, current_index: index },
            after,
            cmds,
        ),
        index < pages@.len(),
    ensures
        cmds.len() == 1,
        cmds[0] matches NetworkCommand::PlayVideo { bvid: b, aid: a, cid: c, duration: d, part }
            && b == bvid && a == aid && c == pages@[index as int].cid && d
            == pages@[index as int].duration && part == Some(pages@[index as int].page),
{
}

/// Playing all of a favorite folder or of an uploader's videos asks for a
/// playlist built in the orders that were chosen, of the folder or uploader
/// that was chosen.
pub proof fn play_all_keeps_the_chosen_orders(
    before: App,
    action: AppAction,
    after: App,
    cmds: Seq<NetworkCommand>,
)
    requires
        action is PlayFavoriteAll || action is PlayUpAll,
        action_outcome(before, action, after, cmds),
    ensures
        cmds.len() == 1,
        action matches AppAction::PlayFavoriteAll { media_id, title, favorite_order, play_order }
            ==> (cmds[0] matches NetworkCommand::BuildFavoritePlaylist {
            media_id: m,
            title: t,
            favorite_order: f,
            play_order: p,
        } && m == media_id && t == title && f == favorite_order && p == play_order),
        action matches AppAction::PlayUpAll { mid, name, video_order, play_order } ==> (
        cmds[0] matches NetworkCommand::BuildUpPlaylist {
            mid: m,
            name: n,
            video_order: v,
            play_order: p,
        } && m == mid && n == name && v == video_order && p == play_order),
        after.playback.status == PlaybackStatus::Starting,
{
}

/// The sidebar entry that shows a list page of kind `kind`.
pub open spec fn nav_item_showing(kind: PageKind) -> NavItem {
    match kind {
        PageKind::Search => NavItem::Search,
        PageKind::Dynamic => NavItem::Dynamic,
        PageKind::History => NavItem::History,
        PageKind::Favorites => NavItem::Favorites,
        PageKind::Live => NavItem::Live,
        PageKind::Bangumi => NavItem::Bangumi,
        _ => NavItem::Home,
    }
}

/// Opening a post from a list page and going back shows a page of that same
/// list, with its sidebar entry selected: from the feed, the feed again.
/// (From the favorites it needs a user id that reads as a number.)
pub proof fn back_after_post_returns_to_the_list(
    before: App,
    dynamic_id: String,
    opened: App,
    first: Seq<NetworkCommand>,
    after: App,
    second: Seq<NetworkCommand>,
)
    requires
        is_list_page(before.current_page.kind()),
        before.current_page is Favorites ==> user_mid(before.user_id) is Some,
        before.navigation_stack@.len() == 0,
        action_outcome(before, AppAction::OpenDynamicDetail(dynamic_id), opened, first),
        action_outcome(opened, AppAction::BackToList, after, second),
    ensures
        after.current_page.kind() == before.current_page.kind(),
        after.selected == nav_item_showing(before.current_page.kind()),
        after.previous_page is None,
{
}


/// Asking for more search results asks, when it asks at all, for the page
/// after the one reached, with the same query; it asks exactly when no page
/// is on its way, there is a query, the popular searches are not on show and
/// not every result is shown yet; otherwise nothing changes.
pub proof fn more_search_asks_the_next_page(
    before: App,
    p: SearchPage,
    after: App,
    cmds: Seq<NetworkCommand>,
)
    requires
        before.current_page == Page::Search(p),
        action_outcome(before, AppAction::LoadMoreSearch, after, cmds),
    ensures
        cmds.len() <= 1,
        cmds.len() == 1 ==> cmds[0] == (NetworkCommand::Search {
            keyword: p.query,
            page: (p.page + 1) as i32,
        }),
        cmds.len() == 1 <==> (!p.loading_more && p.query@.len() > 0 && !p.show_hot_list
            && p.card_count < p.total_results as usize),
        cmds.len() == 0 ==> after == before,
        cmds.len() == 1 ==> (after.current_page matches Page::Search(q) && q.loading_more),
{
}

/// The requests that open a page ask for exactly what was opened: the
/// video, the uploader (latest videos first), the post or the series
/// chosen; a search asks for the first page of the keyword typed.
pub proof fn opening_asks_for_what_was_chosen(
    before: App,
    action: AppAction,
    after: App,
    cmds: Seq<NetworkCommand>,
)
    requires
        action_outcome(before, action, after, cmds),
    ensures
        action matches AppAction::OpenVideoDetail(bvid, aid) ==> cmds == seq![
            NetworkCommand::LoadVideoDetail { bvid, aid },
        ] && after.navigation_stack@ == before.navigation_stack@.push(before.current_page),
        action matches AppAction::OpenUpPage(mid) ==> cmds == seq![
            NetworkCommand::LoadUpPage { mid, order: SpaceVideoOrder::Latest },
        ] && after.navigation_stack@ == before.navigation_stack@.push(before.current_page),
        action matches AppAction::OpenDynamicDetail(dynamic_id) ==> cmds == seq![
            NetworkCommand::LoadDynamicDetail { dynamic_id },
        ],
        action matches AppAction::OpenBangumiDetail(season_id) ==> cmds == seq![
            NetworkCommand::LoadBangumiDetail { season_id },
        ] && after.current_page == Page::BangumiDetail(season_id),
        action matches AppAction::Search(keyword) ==> ((before.current_page is Search) ==> cmds
            == seq![NetworkCommand::Search { keyword, page: 1 }]),
{
}

} // verus!
