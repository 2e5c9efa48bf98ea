use bilibili_tui::application::{
    App, AppAction, BangumiPage, DynamicDetailPage, DynamicPage, FavoriteOrder, HistoryCursor,
    HistoryPage, HomePage, NavItem, NetworkCommand, Page, SearchPage, SpaceVideoOrder, StartKind,
    UpPage, VideoDetailPage, VideoPart,
};
use bilibili_tui::navigation::PreviousPage;
use bilibili_tui::playback::{PlayOrder, PlaybackState, PlaybackStatus, PlaylistItem, PlaylistSource};
use bilibili_tui::application::comments_have_more;
use bilibili_tui::text::parse_i64;

const LOGIN_MESSAGE: &str = "该功能需要登录，请前往设置页登录";

fn app(user: Option<&str>, page: Page) -> App {
    App {
        should_quit: false,
        user_id: user.map(|u| u.to_string()),
        selected: NavItem::Home,
        current_page: page,
        navigation_stack: Vec::new(),
        previous_page: None,
        cached_home: None,
        cached_bangumi: None,
        playback: PlaybackState::default(),
        auto_return_after_playback: false,
    }
}

fn search_page(query: &str, page: i32, total: i32, cards: usize) -> SearchPage {
    let mut p = SearchPage::new();
    p.query = query.to_string();
    p.page = page;
    p.show_hot_list = false;
    p.total_results = total;
    p.card_count = cards;
    p
}

fn video_page(bvid: &str) -> Page {
    Page::VideoDetail(VideoDetailPage::new(bvid.to_string(), 7))
}

fn chars(s: &str) -> Vec<char> {
    s.chars().collect()
}

#[test]
fn quit_sets_the_flag() {
    let mut a = app(None, Page::Settings);
    let cmds = a.handle_action(AppAction::Quit);
    assert!(a.should_quit);
    assert!(cmds.is_empty());
}

#[test]
fn refresh_dynamic_without_login_shows_hint() {
    let mut a = app(None, Page::Dynamic(DynamicPage::new()));
    let cmds = a.handle_action(AppAction::RefreshDynamic);
    assert!(cmds.is_empty());
    match &a.current_page {
        Page::Dynamic(p) => {
            assert_eq!(p.error.as_deref(), Some(LOGIN_MESSAGE));
            assert!(!p.loading_up_list);
            assert!(!p.loading);
        }
        other => panic!("unexpected page {other:?}"),
    }
}

#[test]
fn like_without_login_shows_hint_on_detail_page() {
    let mut a = app(None, video_page("BV1"));
    let cmds = a.handle_action(AppAction::LikeComment { oid: 1, rpid: 2, comment_type: 1 });
    assert!(cmds.is_empty());
    match &a.current_page {
        Page::VideoDetail(p) => {
            assert_eq!(p.error_message.as_deref(), Some(LOGIN_MESSAGE));
            assert!(!p.loading);
            assert!(p.liked_comments.is_empty());
        }
        other => panic!("unexpected page {other:?}"),
    }
}

#[test]
fn add_comment_without_login_is_refused() {
    let mut a = app(None, Page::History(HistoryPage::new()));
    let cmds = a.handle_action(AppAction::AddComment {
        oid: 1,
        comment_type: 1,
        message: "hi".to_string(),
        root: None,
    });
    assert!(cmds.is_empty());
    match &a.current_page {
        Page::History(p) => assert_eq!(p.error.as_deref(), Some(LOGIN_MESSAGE)),
        other => panic!("unexpected page {other:?}"),
    }
}

#[test]
fn load_more_search_asks_for_next_page() {
    let mut a = app(None, Page::Search(search_page("rust", 2, 100, 40)));
    let cmds = a.handle_action(AppAction::LoadMoreSearch);
    assert_eq!(cmds.len(), 1);
    match &cmds[0] {
        NetworkCommand::Search { keyword, page } => {
            assert_eq!(keyword, "rust");
            assert_eq!(*page, 3);
        }
        other => panic!("unexpected command {other:?}"),
    }
    match &a.current_page {
        Page::Search(p) => assert!(p.loading_more),
        other => panic!("unexpected page {other:?}"),
    }
    let again = a.handle_action(AppAction::LoadMoreSearch);
    assert!(again.is_empty());
}

#[test]
fn load_more_search_stops_when_all_results_shown() {
    let mut a = app(None, Page::Search(search_page("rust", 2, 40, 40)));
    assert!(a.handle_action(AppAction::LoadMoreSearch).is_empty());
    match &a.current_page {
        Page::Search(p) => assert!(!p.loading_more),
        other => panic!("unexpected page {other:?}"),
    }
}

#[test]
fn load_more_search_needs_query_and_no_hot_list() {
    let mut empty = app(None, Page::Search(search_page("", 1, 100, 0)));
    assert!(empty.handle_action(AppAction::LoadMoreSearch).is_empty());
    let mut hot = search_page("rust", 1, 100, 0);
    hot.show_hot_list = true;
    let mut a = app(None, Page::Search(hot));
    assert!(a.handle_action(AppAction::LoadMoreSearch).is_empty());
}

#[test]
fn search_sets_query_and_asks_first_page() {
    let mut a = app(None, Page::Search(SearchPage::new()));
    let cmds = a.handle_action(AppAction::Search("anime".to_string()));
    assert_eq!(cmds.len(), 1);
    match &cmds[0] {
        NetworkCommand::Search { keyword, page } => {
            assert_eq!(keyword, "anime");
            assert_eq!(*page, 1);
        }
        other => panic!("unexpected command {other:?}"),
    }
    match &a.current_page {
        Page::Search(p) => {
            assert_eq!(p.query, "anime");
            assert!(p.loading);
            assert!(!p.show_hot_list);
        }
        other => panic!("unexpected page {other:?}"),
    }
}

#[test]
fn play_video_with_pages_out_of_range_changes_nothing() {
    let mut a = app(Some("1"), video_page("BV1"));
    let parts = vec![VideoPart { cid: 10, duration: 60, page: 1 }];
    let cmds = a.handle_action(AppAction::PlayVideoWithPages {
        bvid: "BV1".to_string(),
        aid: 7,
        pages: parts,
        current_index: 1,
    });
    assert!(cmds.is_empty());
    assert_eq!(a.playback.status, PlaybackStatus::Idle);
    match &a.current_page {
        Page::VideoDetail(p) => assert_eq!(p.current_page_index, 0),
        other => panic!("unexpected page {other:?}"),
    }
}

#[test]
fn play_video_with_pages_plays_the_chosen_part() {
    let mut a = app(Some("1"), video_page("BV1"));
    let parts = vec![
        VideoPart { cid: 10, duration: 60, page: 1 },
        VideoPart { cid: 11, duration: 90, page: 2 },
    ];
    let cmds = a.handle_action(AppAction::PlayVideoWithPages {
        bvid: "BV1".to_string(),
        aid: 7,
        pages: parts,
        current_index: 1,
    });
    assert_eq!(cmds.len(), 1);
    match &cmds[0] {
        NetworkCommand::PlayVideo { bvid, aid, cid, duration, part } => {
            assert_eq!(bvid, "BV1");
            assert_eq!(*aid, 7);
            assert_eq!(*cid, 11);
            assert_eq!(*duration, 90);
            assert_eq!(*part, Some(2));
        }
        other => panic!("unexpected command {other:?}"),
    }
    assert_eq!(a.playback.status, PlaybackStatus::Starting);
    match &a.current_page {
        Page::VideoDetail(p) => assert_eq!(p.current_page_index, 1),
        other => panic!("unexpected page {other:?}"),
    }
}

#[test]
fn like_comment_toggles_with_confirmation() {
    let mut a = app(Some("1"), video_page("BV1"));
    let cmds = a.handle_action(AppAction::LikeComment { oid: 5, rpid: 9, comment_type: 1 });
    assert_eq!(cmds.len(), 1);
    let like = match &cmds[0] {
        NetworkCommand::LikeComment { oid, rpid, comment_type, like } => {
            assert_eq!((*oid, *rpid, *comment_type), (5, 9, 1));
            *like
        }
        other => panic!("unexpected command {other:?}"),
    };
    assert!(like);
    a.confirm_comment_like(9, like);
    match &a.current_page {
        Page::VideoDetail(p) => assert!(p.liked_comments.contains(&9)),
        other => panic!("unexpected page {other:?}"),
    }
    let cmds = a.handle_action(AppAction::LikeComment { oid: 5, rpid: 9, comment_type: 1 });
    let like = match &cmds[0] {
        NetworkCommand::LikeComment { like, .. } => *like,
        other => panic!("unexpected command {other:?}"),
    };
    assert!(!like);
    a.confirm_comment_like(9, like);
    match &a.current_page {
        Page::VideoDetail(p) => assert!(!p.liked_comments.contains(&9)),
        other => panic!("unexpected page {other:?}"),
    }
}

#[test]
fn like_comment_on_post_page() {
    let mut a = app(Some("1"), Page::DynamicDetail(DynamicDetailPage::new("42".to_string())));
    let cmds = a.handle_action(AppAction::LikeComment { oid: 5, rpid: 3, comment_type: 17 });
    assert_eq!(cmds.len(), 1);
    a.confirm_comment_like(3, true);
    match &a.current_page {
        Page::DynamicDetail(p) => assert!(p.liked_comments.contains(&3)),
        other => panic!("unexpected page {other:?}"),
    }
}

#[test]
fn back_after_open_video_restores_page() {
    let mut a = app(None, Page::Search(search_page("rust", 1, 10, 10)));
    let cmds = a.handle_action(AppAction::OpenVideoDetail("BV9".to_string(), 99));
    assert_eq!(cmds.len(), 1);
    match &cmds[0] {
        NetworkCommand::LoadVideoDetail { bvid, aid } => {
            assert_eq!(bvid, "BV9");
            assert_eq!(*aid, 99);
        }
        other => panic!("unexpected command {other:?}"),
    }
    assert_eq!(a.navigation_stack.len(), 1);
    assert!(a.handle_action(AppAction::BackToList).is_empty());
    assert!(a.navigation_stack.is_empty());
    match &a.current_page {
        Page::Search(p) => assert_eq!(p.query, "rust"),
        other => panic!("unexpected page {other:?}"),
    }
}

#[test]
fn back_after_post_shows_cached_home() {
    let mut a = app(None, Page::Home(HomePage { loading: true }));
    let cmds = a.handle_action(AppAction::OpenDynamicDetail("77".to_string()));
    assert_eq!(cmds.len(), 1);
    assert_eq!(a.previous_page, Some(PreviousPage::Home));
    assert!(a.cached_home.is_some());
    let back = a.handle_action(AppAction::BackToList);
    assert!(back.is_empty());
    assert_eq!(a.selected, NavItem::Home);
    assert!(a.cached_home.is_none());
    match &a.current_page {
        Page::Home(h) => assert!(h.loading),
        other => panic!("unexpected page {other:?}"),
    }
}

#[test]
fn back_without_history_opens_fresh_home() {
    let mut a = app(Some("5"), Page::BangumiDetail(3));
    let cmds = a.handle_action(AppAction::BackToList);
    assert_eq!(cmds.len(), 1);
    assert!(matches!(cmds[0], NetworkCommand::LoadHome { use_guest_feed: false }));
    assert!(matches!(a.current_page, Page::Home(HomePage { loading: true })));
}

#[test]
fn back_to_favorites_without_user_id_keeps_page() {
    let mut a = app(Some("not-a-number"), Page::BangumiDetail(3));
    a.previous_page = Some(PreviousPage::Favorites);
    let cmds = a.handle_action(AppAction::BackToList);
    assert!(cmds.is_empty());
    assert_eq!(a.selected, NavItem::Favorites);
    assert!(a.previous_page.is_none());
    assert!(matches!(a.current_page, Page::BangumiDetail(3)));
}

#[test]
fn back_to_bangumi_uses_cached_ranking() {
    let mut a = app(None, Page::Bangumi(BangumiPage { loading: false }));
    let cmds = a.handle_action(AppAction::OpenBangumiDetail(12));
    assert_eq!(cmds.len(), 1);
    assert!(matches!(cmds[0], NetworkCommand::LoadBangumiDetail { season_id: 12 }));
    assert!(a.handle_action(AppAction::BackToList).is_empty());
    assert!(matches!(a.current_page, Page::Bangumi(BangumiPage { loading: false })));
    assert!(a.cached_bangumi.is_none());
}

#[test]
fn leaving_home_caches_it_and_returning_restores() {
    let mut a = app(None, Page::Home(HomePage { loading: true }));
    let cmd = a.switch_to_nav_page(NavItem::Live);
    assert!(matches!(cmd, Some(NetworkCommand::LoadLiveInit)));
    assert!(matches!(a.cached_home, Some(HomePage { loading: true })));
    let cmd = a.switch_to_nav_page(NavItem::Home);
    assert!(cmd.is_none());
    assert!(matches!(a.current_page, Page::Home(HomePage { loading: true })));
}

#[test]
fn favorites_without_user_id_opens_settings() {
    let mut a = app(None, Page::Home(HomePage::new()));
    let cmd = a.switch_to_nav_page(NavItem::Favorites);
    assert!(cmd.is_none());
    assert!(matches!(a.current_page, Page::Settings));
    assert_eq!(a.selected, NavItem::Favorites);
    assert!(a.cached_home.is_some());
}

#[test]
fn favorites_with_user_id_loads_folders() {
    let mut a = app(Some("123"), Page::Settings);
    let cmd = a.switch_to_nav_page(NavItem::Favorites);
    assert!(matches!(cmd, Some(NetworkCommand::LoadFavoritesInit { mid: 123 })));
}

#[test]
fn navigation_ignored_on_video_page() {
    let mut a = app(None, video_page("BV1"));
    let cmds = a.handle_action(AppAction::Navigate(NavItem::Search));
    assert!(cmds.is_empty());
    assert_eq!(a.selected, NavItem::Home);
    assert!(matches!(a.current_page, Page::VideoDetail(_)));
}

#[test]
fn init_dynamic_without_login_shows_hint() {
    let mut a = app(None, Page::Dynamic(DynamicPage::new()));
    assert!(a.init_current_page().is_none());
    match &a.current_page {
        Page::Dynamic(p) => assert_eq!(p.error.as_deref(), Some(LOGIN_MESSAGE)),
        other => panic!("unexpected page {other:?}"),
    }
}

#[test]
fn init_history_without_login_shows_hint() {
    let mut a = app(None, Page::History(HistoryPage::new()));
    assert!(a.init_current_page().is_none());
    match &a.current_page {
        Page::History(p) => {
            assert_eq!(p.error.as_deref(), Some(LOGIN_MESSAGE));
            assert!(!p.loading);
        }
        other => panic!("unexpected page {other:?}"),
    }
}

#[test]
fn init_history_with_login_loads() {
    let mut a = app(Some("1"), Page::History(HistoryPage::new()));
    assert!(matches!(a.init_current_page(), Some(NetworkCommand::LoadHistoryInit)));
}

#[test]
fn logout_loads_guest_feed() {
    let mut a = app(Some("1"), Page::Settings);
    a.cached_home = Some(HomePage::new());
    let cmds = a.handle_action(AppAction::Logout);
    assert!(a.user_id.is_none());
    assert!(a.cached_home.is_none());
    assert_eq!(cmds.len(), 1);
    assert!(matches!(cmds[0], NetworkCommand::LoadHome { use_guest_feed: true }));
}

#[test]
fn login_success_loads_personal_feed() {
    let mut a = app(None, Page::Login);
    let cmds = a.handle_action(AppAction::LoginSuccess { user_id: "8".to_string() });
    assert_eq!(a.user_id.as_deref(), Some("8"));
    assert!(matches!(cmds[0], NetworkCommand::LoadHome { use_guest_feed: false }));
}

#[test]
fn load_more_dynamic_needs_offset() {
    let mut a = app(Some("1"), Page::Dynamic(DynamicPage::new()));
    assert!(a.handle_action(AppAction::LoadMoreDynamic).is_empty());
    if let Page::Dynamic(p) = &mut a.current_page {
        p.offset = Some("abc".to_string());
        p.tab = 2;
    }
    let cmds = a.handle_action(AppAction::LoadMoreDynamic);
    assert_eq!(cmds.len(), 1);
    match &cmds[0] {
        NetworkCommand::LoadDynamicMore { offset, tab, host_mid } => {
            assert_eq!(offset, "abc");
            assert_eq!(*tab, 2);
            assert_eq!(*host_mid, None);
        }
        other => panic!("unexpected command {other:?}"),
    }
}

#[test]
fn parses_signed_user_ids() {
    assert_eq!(parse_i64(&chars("123")), Some(123));
    assert_eq!(parse_i64(&chars("-45")), Some(-45));
    assert_eq!(parse_i64(&chars("+7")), Some(7));
    assert_eq!(parse_i64(&chars("-9223372036854775808")), Some(i64::MIN));
    assert_eq!(parse_i64(&chars("9223372036854775807")), Some(i64::MAX));
    assert_eq!(parse_i64(&chars("9223372036854775808")), None);
    assert_eq!(parse_i64(&chars("-+5")), None);
    assert_eq!(parse_i64(&chars("-")), None);
    assert_eq!(parse_i64(&chars("")), None);
    assert_eq!(parse_i64(&chars("12a")), None);
}

#[test]
fn history_paging_without_login_shows_hint() {
    let mut a = app(None, Page::History(HistoryPage::new()));
    assert!(a.handle_action(AppAction::LoadMoreHistory).is_empty());
    match &a.current_page {
        Page::History(p) => assert_eq!(p.error.as_deref(), Some(LOGIN_MESSAGE)),
        other => panic!("unexpected page {other:?}"),
    }
}

#[test]
fn dynamic_tab_and_uploader_need_login() {
    let mut a = app(None, Page::Dynamic(DynamicPage::new()));
    assert!(a.handle_action(AppAction::SwitchDynamicTab(1)).is_empty());
    assert!(a.handle_action(AppAction::SelectUpMaster(0)).is_empty());
    match &a.current_page {
        Page::Dynamic(p) => {
            assert_eq!(p.tab, 0);
            assert_eq!(p.error.as_deref(), Some(LOGIN_MESSAGE));
        }
        other => panic!("unexpected page {other:?}"),
    }
}

#[test]
fn load_more_history_continues_from_cursor() {
    let mut page = HistoryPage::new();
    page.cursor = Some(HistoryCursor { max: 10, view_at: 20, business: "archive".to_string() });
    let mut a = app(Some("1"), Page::History(page));
    let cmds = a.handle_action(AppAction::LoadMoreHistory);
    assert_eq!(cmds.len(), 1);
    match &cmds[0] {
        NetworkCommand::LoadHistoryMore { cursor } => {
            assert_eq!((cursor.max, cursor.view_at), (10, 20));
            assert_eq!(cursor.business, "archive");
        }
        other => panic!("unexpected command {other:?}"),
    }
    assert!(a.handle_action(AppAction::LoadMoreHistory).is_empty());
}

#[test]
fn switching_dynamic_tab_restarts_feed() {
    let mut page = DynamicPage::new();
    page.offset = Some("x".to_string());
    let mut a = app(Some("1"), Page::Dynamic(page));
    let cmds = a.handle_action(AppAction::SwitchDynamicTab(2));
    assert!(matches!(cmds[0], NetworkCommand::LoadDynamicRefresh { tab: 2, host_mid: None }));
    match &a.current_page {
        Page::Dynamic(p) => {
            assert_eq!(p.tab, 2);
            assert!(p.offset.is_none());
            assert!(p.loading);
        }
        other => panic!("unexpected page {other:?}"),
    }
}

#[test]
fn selecting_uploader_filters_feed() {
    let mut page = DynamicPage::new();
    page.up_mids = vec![100, 200];
    let mut a = app(Some("1"), Page::Dynamic(page));
    let cmds = a.handle_action(AppAction::SelectUpMaster(1));
    assert!(matches!(cmds[0], NetworkCommand::LoadDynamicRefresh { tab: 0, host_mid: Some(200) }));
    let cmds = a.handle_action(AppAction::SelectUpMaster(5));
    assert!(matches!(cmds[0], NetworkCommand::LoadDynamicRefresh { tab: 0, host_mid: Some(200) }));
}

#[test]
fn up_page_opens_with_latest_videos() {
    let mut a = app(None, Page::Settings);
    let cmds = a.handle_action(AppAction::OpenUpPage(9));
    assert!(matches!(cmds[0], NetworkCommand::LoadUpPage { mid: 9, order: SpaceVideoOrder::Latest }));
    let cmds = a.handle_action(AppAction::LoadMoreUpVideos);
    assert!(matches!(
        cmds[0],
        NetworkCommand::LoadUpVideos { mid: 9, page: 2, order: SpaceVideoOrder::Latest }
    ));
    match &a.current_page {
        Page::Up(p) => {
            assert!(p.loading_more);
            assert_eq!(p.video_page, 1);
        }
        other => panic!("unexpected page {other:?}"),
    }
    let cmds = a.handle_action(AppAction::SwitchUpVideoOrder(SpaceVideoOrder::MostPlayed));
    assert!(matches!(
        cmds[0],
        NetworkCommand::LoadUpVideos { mid: 9, page: 1, order: SpaceVideoOrder::MostPlayed }
    ));
    let cmds = a.handle_action(AppAction::RefreshUpPage);
    assert!(matches!(cmds[0], NetworkCommand::LoadUpPage { mid: 9, order: SpaceVideoOrder::Latest }));
}

#[test]
fn favorite_folder_requests_need_open_folder() {
    let mut a = app(None, Page::Up(UpPage::new(9)));
    assert!(a.handle_action(AppAction::LoadMoreFavoriteResources).is_empty());
    assert!(a.handle_action(AppAction::SwitchFavoriteOrder(FavoriteOrder::MostPlayed)).is_empty());
    let cmds = a.handle_action(AppAction::OpenFavoriteFolder(77));
    assert!(matches!(
        cmds[0],
        NetworkCommand::LoadFavoriteResources {
            owner_mid: 9,
            media_id: 77,
            page: 1,
            order: FavoriteOrder::RecentlyFavorited
        }
    ));
    if let Page::Up(p) = &mut a.current_page {
        p.active_folder = Some(77);
        p.favorite_page = 3;
    }
    let cmds = a.handle_action(AppAction::LoadMoreFavoriteResources);
    assert!(matches!(
        cmds[0],
        NetworkCommand::LoadFavoriteResources { owner_mid: 9, media_id: 77, page: 4, .. }
    ));
    let cmds = a.handle_action(AppAction::SwitchFavoriteOrder(FavoriteOrder::MostPlayed));
    assert!(matches!(
        cmds[0],
        NetworkCommand::LoadFavoriteResources { page: 1, order: FavoriteOrder::MostPlayed, .. }
    ));
}

#[test]
fn play_up_all_starts_building_playlist() {
    let mut a = app(None, Page::Up(UpPage::new(9)));
    let cmds = a.handle_action(AppAction::PlayUpAll {
        mid: 9,
        name: "up".to_string(),
        video_order: SpaceVideoOrder::Latest,
        play_order: PlayOrder::Reverse,
    });
    assert_eq!(a.playback.status, PlaybackStatus::Starting);
    assert!(matches!(&cmds[0], NetworkCommand::BuildUpPlaylist { mid: 9, name, .. } if name == "up"));
}

#[test]
fn open_live_detail_uses_user_id_or_guest() {
    let mut a = app(Some("55"), Page::Live(bilibili_tui::application::LivePage::new()));
    let cmds = a.handle_action(AppAction::OpenLiveDetail(3));
    assert!(matches!(cmds[0], NetworkCommand::OpenLiveRoom { room_id: 3, uid: 55 }));
    assert_eq!(a.previous_page, Some(PreviousPage::Live));
    assert!(matches!(a.current_page, Page::LiveDetail(3)));
    let mut guest = app(Some("x"), Page::Settings);
    let cmds = guest.handle_action(AppAction::OpenLiveDetail(4));
    assert!(matches!(cmds[0], NetworkCommand::OpenLiveRoom { room_id: 4, uid: 0 }));
}

#[test]
fn failed_start_records_message() {
    let mut a = app(None, Page::Settings);
    a.start_failed(StartKind::Player, "no mpv");
    assert_eq!(a.playback.status, PlaybackStatus::Failed);
    assert_eq!(a.playback.last_error.as_deref(), Some("启动播放器失败: no mpv"));
    a.start_failed(StartKind::Live, "x");
    assert_eq!(a.playback.last_error.as_deref(), Some("启动直播失败: x"));
    a.live_started();
    assert_eq!(a.playback.status, PlaybackStatus::Playing);
    assert!(a.playback.last_error.is_none());
}

#[test]
fn going_back_cancels_return_after_playback() {
    let mut a = app(None, Page::Settings);
    a.handle_action(AppAction::OpenVideoDetail("BV1".to_string(), 1));
    a.auto_return_after_playback = true;
    assert!(a.handle_action(AppAction::BackToList).is_empty());
    assert!(!a.auto_return_after_playback);
    assert!(matches!(a.current_page, Page::Settings));
}

fn queue_item(aid: i64) -> PlaylistItem {
    PlaylistItem {
        bvid: format!("BV{aid}"),
        aid,
        cid: Some(aid),
        title: "t".to_string(),
        uploader_mid: None,
        duration: None,
        page: None,
    }
}

#[test]
fn play_playlist_fills_queue_and_starts() {
    let mut a = app(None, Page::Settings);
    let cmds = a.handle_action(AppAction::PlayPlaylist {
        items: vec![queue_item(1), queue_item(2), queue_item(3)],
        source: PlaylistSource::Manual,
        start_index: 2,
        order: PlayOrder::Reverse,
    });
    assert!(matches!(cmds[0], NetworkCommand::PlayQueue { order: PlayOrder::Reverse, start_index: 2 }));
    assert_eq!(a.playback.queue.len(), 3);
    assert_eq!(a.playback.current_index, Some(2));
    assert_eq!(a.playback.status, PlaybackStatus::Starting);
    assert_eq!(a.playback.order, PlayOrder::Reverse);
    let cmds = a.handle_action(AppAction::PlayPlaylist {
        items: vec![queue_item(4)],
        source: PlaylistSource::Manual,
        start_index: 5,
        order: PlayOrder::Forward,
    });
    assert_eq!(cmds.len(), 1);
    assert_eq!(a.playback.current_index, Some(0));
    assert_eq!(a.playback.status, PlaybackStatus::Idle);
}

#[test]
fn comment_replies_have_more_by_page_count() {
    assert!(comments_have_more(Some(Some(30)), 20));
    assert!(!comments_have_more(Some(Some(20)), 20));
    assert!(!comments_have_more(Some(None), 0));
    assert!(!comments_have_more(None, 0));
}
