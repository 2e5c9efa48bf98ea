use bilibili_tui::playback::{PlayOrder, PlaybackState, PlaybackStatus, PlaylistItem, PlaylistSource};

fn item(id: i64) -> PlaylistItem {
    PlaylistItem {
        bvid: format!("BV{id}"),
        aid: id,
        cid: Some(id),
        title: format!("video {id}"),
        uploader_mid: Some(1),
        duration: Some(60),
        page: None,
    }
}

#[test]
fn replacing_queue_resets_position_and_error() {
    let mut state = PlaybackState {
        last_error: Some("old error".into()),
        ..PlaybackState::default()
    };
    state.replace_queue(PlaylistSource::Manual, vec![item(1), item(2)]);
    assert_eq!(state.current_index, Some(0));
    assert_eq!(state.last_error, None);
}

#[test]
fn forward_queue_finishes_after_last_item() {
    let mut state = PlaybackState::default();
    state.replace_queue(PlaylistSource::Manual, vec![item(1), item(2)]);
    assert!(state.advance());
    assert_eq!(state.current_index, Some(1));
    assert!(!state.advance());
    assert_eq!(state.status, PlaybackStatus::Finished);
}

#[test]
fn play_from_rejects_out_of_bounds_index() {
    let mut state = PlaybackState::default();
    state.replace_queue(PlaylistSource::Manual, vec![item(1)]);
    assert!(!state.play_from(1));
    assert_eq!(state.current_index, Some(0));
}

#[test]
fn replacing_with_empty_queue_clears_position() {
    let mut state = PlaybackState::default();
    state.replace_queue(PlaylistSource::Manual, vec![item(1)]);
    state.status = PlaybackStatus::Playing;
    state.replace_queue(
        PlaylistSource::Uploader { mid: 7, name: "up".into() },
        Vec::new(),
    );
    assert_eq!(state.current_index, None);
    assert_eq!(state.status, PlaybackStatus::Idle);
    assert_eq!(state.source, Some(PlaylistSource::Uploader { mid: 7, name: "up".into() }));
}

#[test]
fn play_from_moves_and_clears_error() {
    let mut state = PlaybackState::default();
    state.replace_queue(PlaylistSource::Manual, vec![item(1), item(2), item(3)]);
    state.last_error = Some("broken".into());
    assert!(state.play_from(2));
    assert_eq!(state.current_index, Some(2));
    assert_eq!(state.status, PlaybackStatus::Starting);
    assert_eq!(state.last_error, None);
}

#[test]
fn reverse_queue_walks_back_to_first_item() {
    let mut state = PlaybackState::default();
    state.replace_queue(PlaylistSource::Manual, vec![item(1), item(2), item(3)]);
    state.order = PlayOrder::Reverse;
    assert!(state.play_from(2));
    assert!(state.advance());
    assert_eq!(state.current_index, Some(1));
    assert!(state.advance());
    assert_eq!(state.current_index, Some(0));
    assert!(!state.advance());
    assert_eq!(state.current_index, Some(0));
    assert_eq!(state.status, PlaybackStatus::Finished);
}

#[test]
fn shuffle_queue_finishes_on_first_advance() {
    let mut state = PlaybackState::default();
    state.replace_queue(PlaylistSource::Manual, vec![item(1), item(2)]);
    state.order = PlayOrder::Shuffle;
    assert!(!state.advance());
    assert_eq!(state.current_index, Some(0));
    assert_eq!(state.status, PlaybackStatus::Finished);
}

#[test]
fn advance_without_position_changes_nothing() {
    let mut state = PlaybackState::default();
    assert!(!state.advance());
    assert_eq!(state.status, PlaybackStatus::Idle);
    assert_eq!(state.current_index, None);
}

#[test]
fn forward_walk_visits_every_item_once() {
    let mut state = PlaybackState::default();
    state.replace_queue(PlaylistSource::Manual, (1..=5).map(item).collect());
    let mut visited = vec![state.current_index.unwrap()];
    while state.advance() {
        visited.push(state.current_index.unwrap());
    }
    assert_eq!(visited, vec![0, 1, 2, 3, 4]);
    assert_eq!(state.status, PlaybackStatus::Finished);
}

#[test]
fn default_order_is_forward() {
    assert_eq!(PlayOrder::default(), PlayOrder::Forward);
    assert_eq!(PlaybackStatus::default(), PlaybackStatus::Idle);
}
