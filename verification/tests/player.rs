use bilibili_tui::playback::{PlayOrder, PlaylistItem};
use bilibili_tui::player::{
    bangumi_player_arguments, ipc_socket_name, is_corrupt_video_log, live_player_arguments,
    ordered_playlist, playlist_player_arguments, video_page, video_player_arguments, DecodeMonitor,
    LiveRestart, LiveStep, PlaylistError, ProxyUrls,
};

fn item(id: i64) -> PlaylistItem {
    PlaylistItem {
        bvid: format!("BV{id}"),
        aid: id,
        cid: None,
        title: id.to_string(),
        uploader_mid: None,
        duration: None,
        page: None,
    }
}

#[test]
fn reverse_play_all_starts_at_first_reversed_item() {
    let items = vec![item(1), item(2), item(3)];
    let (items, start) = ordered_playlist(items, PlayOrder::Reverse, 2).unwrap();
    assert_eq!(
        items.iter().map(|item| item.aid).collect::<Vec<_>>(),
        [3, 2, 1]
    );
    assert_eq!(start, 0);
}

#[test]
fn forward_play_all_preserves_web_order() {
    let items = vec![item(1), item(2), item(3)];
    let (items, start) = ordered_playlist(items, PlayOrder::Forward, 0).unwrap();
    assert_eq!(
        items.iter().map(|item| item.aid).collect::<Vec<_>>(),
        [1, 2, 3]
    );
    assert_eq!(start, 0);
}

#[test]
fn recognizes_corrupt_h264_diagnostics() {
    assert!(is_corrupt_video_log(
        "h264: Invalid NAL unit size (123 > 10)"
    ));
    assert!(is_corrupt_video_log(
        "h264: Error splitting the input into NAL units."
    ));
    assert!(!is_corrupt_video_log("AO: [coreaudio] 48000Hz stereo"));
}

#[test]
fn recognizes_other_decoder_failures() {
    assert!(is_corrupt_video_log("vd: hardware accelerator failed to decode picture"));
    assert!(is_corrupt_video_log("ffmpeg: Error while decoding frame!"));
    assert!(!is_corrupt_video_log("invalid nal unit size"));
    assert!(!is_corrupt_video_log(""));
}

#[test]
fn ordered_playlist_rejects_empty_and_out_of_range() {
    assert_eq!(
        ordered_playlist(Vec::new(), PlayOrder::Forward, 0).unwrap_err(),
        PlaylistError::Empty
    );
    assert_eq!(
        ordered_playlist(vec![item(1)], PlayOrder::Reverse, 1).unwrap_err(),
        PlaylistError::StartOutOfRange
    );
    assert_eq!(PlaylistError::Empty.message(), "播放列表为空");
    assert_eq!(PlaylistError::StartOutOfRange.message(), "播放起点超出列表范围");
}

#[test]
fn reverse_playlist_keeps_chosen_item_first() {
    let items = vec![item(1), item(2), item(3), item(4)];
    let (ordered, start) = ordered_playlist(items, PlayOrder::Reverse, 1).unwrap();
    assert_eq!(start, 2);
    assert_eq!(ordered[start].aid, 2);
    let items = vec![item(1), item(2)];
    let (ordered, start) = ordered_playlist(items, PlayOrder::Shuffle, 1).unwrap();
    assert_eq!(ordered[start].aid, 2);
    assert_eq!(ordered.iter().map(|i| i.aid).collect::<Vec<_>>(), [1, 2]);
}

#[test]
fn video_pages_name_later_parts() {
    assert_eq!(video_page("BV1xx", None), "https://www.bilibili.com/video/BV1xx");
    assert_eq!(video_page("BV1xx", Some(1)), "https://www.bilibili.com/video/BV1xx");
    assert_eq!(video_page("BV1xx", Some(12)), "https://www.bilibili.com/video/BV1xx?p=12");
    assert_eq!(video_page("BV1xx", Some(-3)), "https://www.bilibili.com/video/BV1xx");
}

#[test]
fn video_player_arguments_with_proxy_and_cookies() {
    let args = video_player_arguments(
        "https://www.bilibili.com/video/BV1",
        -42,
        "/tmp/s.sock",
        Some("/tmp/c.txt"),
        Some(ProxyUrls { video_url: "http://127.0.0.1:9/video?generation=0", audio_url: "http://127.0.0.1:9/audio" }),
    );
    assert_eq!(
        args,
        vec![
            "--ytdl-raw-options=cookies=/tmp/c.txt",
            "--force-window=immediate",
            "--referrer=https://www.bilibili.com/video/BV1",
            "--http-header-fields=Referer: https://www.bilibili.com/video/BV1",
            "--script-opts-append=cid=-42",
            "--input-ipc-server=/tmp/s.sock",
            "--msg-level=ffmpeg=error,vd=warn",
            "--audio-file=http://127.0.0.1:9/audio",
            "http://127.0.0.1:9/video?generation=0",
        ]
    );
}

#[test]
fn video_player_arguments_without_proxy() {
    let args = video_player_arguments("https://p", 7, "/s", None, None);
    assert_eq!(
        args,
        vec![
            "--force-window=immediate",
            "--referrer=https://p",
            "--http-header-fields=Referer: https://p",
            "--script-opts-append=cid=7",
            "--input-ipc-server=/s",
            "--msg-level=ffmpeg=error,vd=warn",
            "--ytdl-format=bestvideo+bestaudio/best",
            "https://p",
        ]
    );
}

#[test]
fn playlist_arguments_list_every_page() {
    let mut second = item(2);
    second.page = Some(3);
    let args = playlist_player_arguments(&vec![item(1), second], 1, Some("/c"));
    assert_eq!(
        args,
        vec![
            "--ytdl-format=bestvideo+bestaudio/best",
            "--force-window=immediate",
            "--playlist-start=1",
            "--ytdl-raw-options=cookies=/c",
            "https://www.bilibili.com/video/BV1",
            "https://www.bilibili.com/video/BV2?p=3",
        ]
    );
}

#[test]
fn bangumi_and_live_arguments() {
    assert_eq!(
        bangumi_player_arguments(1234567890123, None),
        vec![
            "--ytdl-format=bestvideo+bestaudio/best",
            "--force-window=immediate",
            "https://www.bilibili.com/bangumi/play/ep1234567890123",
        ]
    );
    let live = live_player_arguments("https://live/x.flv");
    assert_eq!(live.len(), 9);
    assert_eq!(live[1], "--referrer=https://live.bilibili.com/");
    assert_eq!(live[8], "https://live/x.flv");
}

#[test]
fn control_socket_name_holds_process_and_cid() {
    assert_eq!(ipc_socket_name(4321, 987), "bilibili-tui-mpv-4321-987.sock");
    assert_eq!(ipc_socket_name(0, i64::MIN), "bilibili-tui-mpv-0--9223372036854775808.sock");
}

#[test]
fn decode_monitor_switches_after_three_reports_and_cooldown() {
    let mut monitor = DecodeMonitor::new();
    let bad = "h264: Invalid NAL unit size (1 > 0)";
    assert!(!monitor.on_log_line(bad, 10_000_000_000));
    assert!(!monitor.on_log_line("AO: fine", 10_000_000_000));
    assert!(!monitor.on_log_line(bad, 10_000_000_000));
    assert_eq!(monitor.decode_errors, 2);
    assert!(!monitor.on_log_line(bad, 5_000_000_000));
    assert_eq!(monitor.decode_errors, 3);
    assert!(monitor.on_log_line("AO: fine", 5_000_000_001));
    assert_eq!(monitor.decode_errors, 0);
}

#[test]
fn live_restart_tries_each_address_then_refreshes_and_gives_up() {
    let mut live = LiveRestart::new();
    assert_eq!(live.after_exit(false, 2), LiveStep::Play(1));
    assert_eq!(live.after_exit(false, 2), LiveStep::Refresh);
    assert_eq!(live.after_refresh(3), LiveStep::Play(0));
    assert_eq!(live.after_exit(false, 3), LiveStep::Play(1));
    assert_eq!(live.after_exit(false, 3), LiveStep::Stop);
    assert_eq!(live.retries, 3);
    let mut ok = LiveRestart::new();
    assert_eq!(ok.after_exit(true, 5), LiveStep::Stop);
    assert_eq!(ok.after_refresh(0), LiveStep::Stop);
}
