use bilibili_tui::cdn::{CdnHistory, CdnHistoryStore};
use bilibili_tui::proxy::{
    check_candidates, content_range_total, not_found_response, parse_range, parse_request_head,
    partial_content_response_head, prefix_window, relayed_response_head, request_head_done,
    route_of, parse_request_bytes, answer, Answer, HeaderLine, MediaProxy, ProxyError, Route,
};

#[test]
fn range_values_parse_like_std() {
    assert_eq!(parse_range("bytes=0-1023"), Some((0, Some(1023))));
    assert_eq!(parse_range("bytes=500-"), Some((500, None)));
    assert_eq!(parse_range("bytes=+7-x"), Some((7, None)));
    assert_eq!(parse_range("bytes=-5"), None);
    assert_eq!(parse_range("bytes=5"), None);
    assert_eq!(parse_range("items=0-1"), None);
    assert_eq!(parse_range("bytes=1-2-3"), Some((1, None)));
    assert_eq!(parse_range("bytes=18446744073709551616-"), None);
}

#[test]
fn request_head_is_read_up_to_blank_line() {
    assert!(!request_head_done(b"GET /video HTTP/1.1\r\n"));
    assert!(request_head_done(b"GET /video HTTP/1.1\r\n\r\n"));
    assert!(request_head_done(&vec![b'a'; 32 * 1024]));
    assert!(!request_head_done(&vec![b'a'; 32 * 1024 - 1]));
}

#[test]
fn request_path_and_range_are_found() {
    let req = parse_request_head("GET /video?generation=1 HTTP/1.1\r\nHost: x\r\nrange:  bytes=10-20 \r\n\r\n").unwrap();
    assert_eq!(req.path, "/video?generation=1");
    assert_eq!(req.range.as_deref(), Some("bytes=10-20"));
    let req = parse_request_head("GET\r\nRange: bytes=1-\r\nRange: bytes=2-\r\n").unwrap();
    assert_eq!(req.path, "/");
    assert_eq!(req.range.as_deref(), Some("bytes=1-"));
    let req = parse_request_head("GET /audio HTTP/1.1\n").unwrap();
    assert_eq!(req.range, None);
    assert_eq!(parse_request_head("").unwrap_err(), ProxyError::EmptyRequest);
    let req = parse_request_head("GET\u{3000}/audio\u{a0}HTTP/1.1\nRange:\u{3000}bytes=3-\u{a0}\r\n").unwrap();
    assert_eq!(req.path, "/audio");
    assert_eq!(req.range.as_deref(), Some("bytes=3-"));
}

#[test]
fn request_bytes_are_decoded_lossily() {
    let req = parse_request_bytes(b"GET /vid\xffeo HTTP/1.1\r\nRange: bytes=0-\r\n\r\n").unwrap();
    assert_eq!(req.path, "/vid\u{fffd}eo");
    assert_eq!(req.range.as_deref(), Some("bytes=0-"));
    assert_eq!(parse_request_bytes(b"").unwrap_err(), ProxyError::EmptyRequest);
}

#[test]
fn routes_follow_the_path() {
    assert_eq!(route_of("/video?generation=2"), Route::Video);
    assert_eq!(route_of("/audio"), Route::Audio);
    assert_eq!(route_of("/"), Route::NotFound);
}

#[test]
fn prefix_window_answers_only_cached_bytes() {
    assert_eq!(prefix_window(0, None, 1024), Some((0, 1023)));
    assert_eq!(prefix_window(10, Some(20), 1024), Some((10, 20)));
    assert_eq!(prefix_window(10, Some(1024), 1024), None);
    assert_eq!(prefix_window(30, Some(20), 1024), None);
    assert_eq!(prefix_window(0, None, 0), None);
}

#[test]
fn response_heads() {
    assert_eq!(
        partial_content_response_head(10, 19, 5000),
        "HTTP/1.1 206 Partial Content\r\nConnection: close\r\nContent-Type: video/mp4\r\nContent-Length: 10\r\nContent-Range: bytes 10-19/5000\r\nAccept-Ranges: bytes\r\n\r\n"
    );
    assert_eq!(not_found_response(), "HTTP/1.1 404 Not Found\r\nContent-Length: 0\r\n\r\n");
    let headers = vec![HeaderLine { name: "content-length".into(), value: "5".into() }];
    assert_eq!(
        relayed_response_head(206, "Partial Content", &headers),
        "HTTP/1.1 206 Partial Content\r\nConnection: close\r\ncontent-length: 5\r\nAccept-Ranges: bytes\r\n\r\n"
    );
}

#[test]
fn proxy_needs_candidates() {
    assert_eq!(check_candidates(0, 1), Err(ProxyError::NoCandidates));
    assert_eq!(check_candidates(1, 0), Err(ProxyError::NoCandidates));
    assert_eq!(check_candidates(2, 1), Ok(()));
    assert_eq!(ProxyError::NoCandidates.message(), "CDN 候选地址为空");
}

#[test]
fn switching_cdn_moves_to_next_candidate_and_charges_the_old_one() {
    let mut proxy = MediaProxy::new("127.0.0.1:4000", vec!["a.cdn".into(), "b.cdn".into()]);
    assert_eq!(proxy.video_url, "http://127.0.0.1:4000/video?generation=0");
    assert_eq!(proxy.audio_url, "http://127.0.0.1:4000/audio");
    let mut history = CdnHistoryStore::new();
    assert_eq!(
        proxy.switch_video_cdn(&mut history),
        Some("http://127.0.0.1:4000/video?generation=1".to_string())
    );
    assert_eq!(proxy.video_index(), 1);
    assert_eq!(history.history("a.cdn"), CdnHistory { attempts: 1, corruptions: 1 });
    assert_eq!(proxy.switch_video_cdn(&mut history), None);
    assert_eq!(proxy.video_index(), 1);
    proxy.record_success(&mut history);
    assert_eq!(history.history("b.cdn"), CdnHistory { attempts: 1, corruptions: 0 });
}

#[test]
fn test_switch_does_not_charge() {
    let mut proxy = MediaProxy::new("h:1", vec!["a".into(), "b".into(), "c".into()]);
    let mut history = CdnHistoryStore::new();
    assert_eq!(proxy.switch_video_cdn_for_test(&mut history), Some("http://h:1/video?generation=1".to_string()));
    assert_eq!(proxy.switch_video_cdn_for_test(&mut history), Some("http://h:1/video?generation=2".to_string()));
    assert_eq!(history.history("a"), CdnHistory::default());
}

#[test]
fn content_range_total_reads_after_last_slash() {
    assert_eq!(content_range_total("bytes 0-1048575/73400320"), 73400320);
    assert_eq!(content_range_total("bytes 0-9/*"), 0);
    assert_eq!(content_range_total("12345"), 12345);
    assert_eq!(content_range_total("bytes 0-9/"), 0);
}

#[test]
fn answers_from_cache_only_inside_cached_prefix() {
    assert_eq!(answer(Route::NotFound, false, None, None), Answer::NotFound);
    assert_eq!(answer(Route::Video, false, Some("bytes=0-9"), Some(100)), Answer::NotFound);
    assert_eq!(
        answer(Route::Video, true, Some("bytes=0-9"), Some(100)),
        Answer::Prefix { start: 0, end: 9 }
    );
    assert_eq!(
        answer(Route::Video, true, Some("bytes=10-"), Some(100)),
        Answer::Prefix { start: 10, end: 99 }
    );
    assert_eq!(answer(Route::Video, true, Some("bytes=50-200"), Some(100)), Answer::Relay);
    assert_eq!(answer(Route::Video, true, Some("bytes=0-9"), None), Answer::Relay);
    assert_eq!(answer(Route::Video, true, None, Some(100)), Answer::Relay);
    assert_eq!(answer(Route::Audio, true, Some("bytes=0-9"), Some(100)), Answer::Relay);
}
