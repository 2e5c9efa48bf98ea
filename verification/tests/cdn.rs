use bilibili_tui::cdn::{
    candidate_urls, record_cdn_result, select_audio_stream, select_streams, select_video_stream,
    CdnHistory, CdnHistoryStore, Dash, DashStream, Dolby, Flac, PlayUrlData, ProbeError,
    ProbeProgress, StreamError, PROBE_BYTES,
};

fn stream(id: i64, bandwidth: i64) -> DashStream {
    DashStream {
        id,
        bandwidth,
        codecid: 0,
        base_url: None,
        base_url_camel: None,
        backup_url: None,
        backup_url_camel: None,
    }
}

fn dash(video: Vec<DashStream>, audio: Vec<DashStream>) -> Dash {
    Dash { video, audio, dolby: None, flac: None }
}

#[test]
fn primary_url_prefers_snake_case() {
    let mut s = stream(1, 1);
    assert_eq!(s.primary_url(), None);
    s.base_url_camel = Some("https://b/v".into());
    assert_eq!(s.primary_url(), Some("https://b/v"));
    s.base_url = Some("https://a/v".into());
    assert_eq!(s.primary_url(), Some("https://a/v"));
    s.backup_url = Some(vec!["https://c/v".into()]);
    s.backup_url_camel = Some(vec!["https://d/v".into(), "https://e/v".into()]);
    assert_eq!(s.backup_urls(), vec!["https://c/v", "https://d/v", "https://e/v"]);
}

#[test]
fn video_choice_takes_best_quality_then_bandwidth_and_last_of_equals() {
    let mut a = stream(80, 100);
    a.codecid = 1;
    let mut b = stream(80, 100);
    b.codecid = 2;
    let d = dash(vec![stream(64, 900), a, stream(32, 5000), b, stream(80, 50)], Vec::new());
    let chosen = select_video_stream(&d).unwrap();
    assert_eq!((chosen.id, chosen.bandwidth, chosen.codecid), (80, 100, 2));
    assert!(select_video_stream(&dash(Vec::new(), Vec::new())).is_none());
}

#[test]
fn audio_choice_looks_at_dolby_and_flac() {
    let mut d = dash(vec![stream(80, 1)], vec![stream(30280, 300), stream(30216, 100)]);
    assert_eq!(select_audio_stream(&d).unwrap().id, 30280);
    d.dolby = Some(Dolby { audio: Some(vec![stream(30250, 500)]) });
    assert_eq!(select_audio_stream(&d).unwrap().id, 30250);
    d.flac = Some(Flac { audio: Some(stream(30251, 500)) });
    assert_eq!(select_audio_stream(&d).unwrap().id, 30251);
    d.flac = Some(Flac { audio: None });
    d.dolby = Some(Dolby { audio: None });
    assert_eq!(select_audio_stream(&d).unwrap().id, 30280);
}

#[test]
fn stream_selection_reports_what_is_missing() {
    let empty = PlayUrlData { dash: dash(Vec::new(), Vec::new()) };
    assert_eq!(select_streams(&empty).unwrap_err(), StreamError::NoVideoStream);
    let no_audio = PlayUrlData { dash: dash(vec![stream(1, 1)], Vec::new()) };
    assert_eq!(select_streams(&no_audio).unwrap_err(), StreamError::NoAudioStream);
    let full = PlayUrlData { dash: dash(vec![stream(1, 1)], vec![stream(2, 2)]) };
    let (v, a) = select_streams(&full).unwrap();
    assert_eq!((v.id, a.id), (1, 2));
    assert_eq!(StreamError::NoVideoStream.message(), "播放地址没有视频流");
    assert_eq!(StreamError::NoAudioStream.message(), "播放地址没有音频流");
    assert_eq!(StreamError::MissingPrimaryUrl.message(), "CDN 流缺少主地址");
    assert_eq!(StreamError::NoReachableCdn.message(), "没有可用的 CDN 节点");
}

#[test]
fn candidates_keep_first_address_of_each_host_sorted_by_host() {
    let mut s = stream(80, 1);
    s.base_url_camel = Some("https://zeta.example.com/v1?x=1".into());
    s.backup_url_camel = Some(vec![
        "https://alpha.example.com/v2".into(),
        "https://zeta.example.com/v3".into(),
        "not a url".into(),
        "https://ALPHA.example.com/v4".into(),
        "also not a url".into(),
    ]);
    let candidates = candidate_urls(&s).unwrap();
    let pairs = candidates
        .iter()
        .map(|c| (c.url.as_str(), c.host.as_deref()))
        .collect::<Vec<_>>();
    assert_eq!(
        pairs,
        vec![
            ("not a url", None),
            ("https://alpha.example.com/v2", Some("alpha.example.com")),
            ("https://zeta.example.com/v1?x=1", Some("zeta.example.com")),
        ]
    );
}

#[test]
fn candidates_need_a_primary_address() {
    let mut s = stream(80, 1);
    s.backup_url = Some(vec!["https://a/v".into()]);
    assert_eq!(candidate_urls(&s).unwrap_err(), StreamError::MissingPrimaryUrl);
}

#[test]
fn history_counts_attempts_and_corruptions() {
    let mut store = CdnHistoryStore::new();
    assert_eq!(store.history("a"), CdnHistory::default());
    record_cdn_result(&mut store, "a", true);
    record_cdn_result(&mut store, "a", false);
    record_cdn_result(&mut store, "b", false);
    assert_eq!(store.history("a"), CdnHistory { attempts: 2, corruptions: 1 });
    assert_eq!(store.history("b"), CdnHistory { attempts: 1, corruptions: 0 });
    assert_eq!(store.entries().len(), 2);
}

#[test]
fn history_counters_saturate() {
    let mut store = CdnHistoryStore::new();
    store.set("h".into(), CdnHistory { attempts: u64::MAX, corruptions: u64::MAX });
    record_cdn_result(&mut store, "h", true);
    assert_eq!(store.history("h"), CdnHistory { attempts: u64::MAX, corruptions: u64::MAX });
    store.set("h".into(), CdnHistory { attempts: 3, corruptions: 1 });
    assert_eq!(store.entries(), vec![("h".to_string(), CdnHistory { attempts: 3, corruptions: 1 })]);
}

#[test]
fn probe_stops_after_enough_bytes() {
    let mut probe = ProbeProgress::new();
    assert_eq!(probe.finish(), Err(ProbeError::EmptyResponse));
    assert!(!probe.on_chunk(PROBE_BYTES));
    assert!(probe.on_chunk(1));
    assert_eq!(probe.finish(), Ok(PROBE_BYTES + 1));
}
