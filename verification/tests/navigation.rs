use bilibili_tui::navigation::{login_hint_for, login_required_message, previous_page_for, LoginHint, PageKind, PreviousPage};

#[test]
fn list_pages_are_remembered_for_returning() {
    assert_eq!(previous_page_for(PageKind::Home), Some(PreviousPage::Home));
    assert_eq!(previous_page_for(PageKind::Search), Some(PreviousPage::Search));
    assert_eq!(previous_page_for(PageKind::Bangumi), Some(PreviousPage::Bangumi));
    assert_eq!(previous_page_for(PageKind::VideoDetail), None);
    assert_eq!(previous_page_for(PageKind::Settings), None);
}

#[test]
fn login_hints_go_to_pages_that_need_a_login() {
    assert_eq!(login_required_message(), "该功能需要登录，请前往设置页登录");
    assert_eq!(login_hint_for(PageKind::Dynamic), Some(LoginHint::FeedError));
    assert_eq!(login_hint_for(PageKind::History), Some(LoginHint::LoadMoreError));
    assert_eq!(login_hint_for(PageKind::DynamicDetail), Some(LoginHint::DetailError));
    assert_eq!(login_hint_for(PageKind::Home), None);
}
