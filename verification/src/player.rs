//! Decisions around the external player: which queue order it gets, which
//! addresses it opens, and when corrupt video calls for another CDN.

use vstd::prelude::*;
use crate::playback::{PlayOrder, PlaylistItem};
use crate::text::{
    chars_of, contains, decimal, has_substring, owned, push_decimal, push_signed_decimal, push_str,
    signed_decimal, texts,
};

verus! {

broadcast use vstd::string::group_string_axioms;

/// The decoder messages that mean the video data itself is damaged.
pub open spec fn corrupt_video_markers() -> Seq<Seq<char>> {
    seq![
        "Invalid NAL unit size"@,
        "Error splitting the input into NAL units"@,
        "hardware accelerator failed to decode picture"@,
        "Error while decoding frame"@,
    ]
}

/// A player log line reports corrupt video.
pub open spec fn reports_corrupt_video(line: Seq<char>) -> bool {
    exists|i: int| 0 <= i < corrupt_video_markers().len() && has_substring(line, #[trigger] corrupt_video_markers()[i])
}

/// Whether a player log line reports corrupt video.
pub fn is_corrupt_video_log(line: &str) -> (r: bool)
    ensures
        r == reports_corrupt_video(line@),
{
    let l = chars_of(line);
    let m0 = chars_of("Invalid NAL unit size");
    let m1 = chars_of("Error splitting the input into NAL units");
    let m2 = chars_of("hardware accelerator failed to decode picture");
    let m3 = chars_of("Error while decoding frame");
    let r = contains(l.as_slice(), m0.as_slice()) || contains(l.as_slice(), m1.as_slice()) || contains(l.as_slice(), m2.as_slice())
        || contains(l.as_slice(), m3.as_slice());
    proof {
        let ms = corrupt_video_markers();
        if r {
            if has_substring(line@, ms[0]) {
                assert(0 <= 0 < ms.len() && has_substring(line@, ms[0]));
            } else if has_substring(line@, ms[1]) {
                assert(has_substring(line@, ms[1]));
            } else if has_substring(line@, ms[2]) {
                assert(has_substring(line@, ms[2]));
            } else {
                assert(has_substring(line@, ms[3]));
            }
        } else {
            assert forall|i: int| 0 <= i < ms.len() implies !has_substring(line@, #[trigger] ms[i]) by {
                assert(i == 0 || i == 1 || i == 2 || i == 3);
            }
        }
    }
    r
}

/// Why a playlist cannot be handed to the player.
#[derive(Debug, Clone, Copy, PartialEq, Eq, Structural)]
pub enum PlaylistError {
    Empty,
    StartOutOfRange,
}

impl PlaylistError {
    /// The message shown to the user.
    pub fn message(&self) -> (r: String)
        ensures
            r@ == (match *self {
                PlaylistError::Empty => "播放列表为空"@,
                PlaylistError::StartOutOfRange => "播放起点超出列表范围"@,
            }),
    {
        match self {
            PlaylistError::Empty => owned("播放列表为空"),
            PlaylistError::StartOutOfRange => owned("播放起点超出列表范围"),
        }
    }
}

/// Puts a playlist in the order the player walks it and maps the starting
/// position along: in reverse order the list is reversed and the start
/// counted from the other end, so the same item plays first.
pub fn ordered_playlist(items: Vec<PlaylistItem>, order: PlayOrder, start_index: usize) -> (r: Result<(Vec<PlaylistItem>, usize), PlaylistError>)
    ensures
        items@.len() == 0 ==> r == Err::<(Vec<PlaylistItem>, usize), PlaylistError>(PlaylistError::Empty),
        items@.len() > 0 && start_index >= items@.len() ==> r == Err::<(Vec<PlaylistItem>, usize), PlaylistError>(PlaylistError::StartOutOfRange),
        r is Ok <==> start_index < items@.len(),
        r matches Ok((list, start)) ==> {
            &&& list@.len() == items@.len()
            &&& start < list@.len()
            &&& list@[start as int] == items@[start_index as int]
            &&& order == PlayOrder::Reverse ==> list@ == items@.reverse() && start == items@.len() - 1 - start_index
            &&& order != PlayOrder::Reverse ==> list@ == items@ && start == start_index
        },
{
    if items.len() == 0 {
        return Err(PlaylistError::Empty);
    }
    if start_index >= items.len() {
        return Err(PlaylistError::StartOutOfRange);
    }
    if order == PlayOrder::Reverse {
        let n = items.len();
        let ghost original = items@;
        let mut rest = items;
        let mut reversed: Vec<PlaylistItem> = Vec::new();
        while rest.len() > 0
            invariant
                rest@.len() + reversed@.len() == n,
                n == original.len(),
                rest@ == original.take(rest@.len() as int),
                forall|j: int| 0 <= j < reversed@.len() ==> #[trigger] reversed@[j] == original[n - 1 - j],
            decreases rest@.len(),
        {
            let item = rest.pop().unwrap();
            reversed.push(item);
            assert(rest@ =~= original.take(rest@.len() as int));
        }
        assert(reversed@ =~= original.reverse());
        Ok((reversed, n - 1 - start_index))
    } else {
        Ok((items, start_index))
    }
}

/// The web page of a video, or of one of its parts when a later part is asked for.
pub open spec fn video_page_url(bvid: Seq<char>, page: Option<i32>) -> Seq<char> {
    match page {
        Some(p) if p > 1 => "https://www.bilibili.com/video/"@ + bvid + "?p="@ + signed_decimal(p as int),
        _ => "https://www.bilibili.com/video/"@ + bvid,
    }
}

/// The first part of a video (or no part) is the video's plain page; a
/// later part `p` is that page followed by `?p=` and the part's number.
pub proof fn later_parts_add_their_number(bvid: Seq<char>, p: i32)
    ensures
        video_page_url(bvid, None) == "https://www.bilibili.com/video/"@ + bvid,
        p <= 1 ==> video_page_url(bvid, Some(p)) == video_page_url(bvid, None),
        p > 1 ==> video_page_url(bvid, Some(p)) == video_page_url(bvid, None) + "?p="@
            + signed_decimal(p as int),
{
}

/// The web page of a video, or of its `page`-th part when that is past the first.
pub fn video_page(bvid: &str, page: Option<i32>) -> (r: String)
    ensures
        r@ == video_page_url(bvid@, page),
{
    let mut url = owned("https://www.bilibili.com/video/");
    push_str(&mut url, bvid);
    match page {
        Some(p) => {
            if p > 1 {
                push_str(&mut url, "?p=");
                push_signed_decimal(&mut url, p as i64);
            }
        },
        None => {},
    }
    url
}

/// The web page of a bangumi episode.
pub fn bangumi_episode_page(ep_id: i64) -> (r: String)
    ensures
        r@ == "https://www.bilibili.com/bangumi/play/ep"@ + signed_decimal(ep_id as int),
{
    let mut url = owned("https://www.bilibili.com/bangumi/play/ep");
    push_signed_decimal(&mut url, ep_id);
    url
}

} // verus!

verus! {

/// The argument that hands the exported login cookies to yt-dlp, if there are any.
pub open spec fn cookie_args(cookie_path: Option<Seq<char>>) -> Seq<Seq<char>> {
    match cookie_path {
        Some(p) => seq!["--ytdl-raw-options=cookies="@ + p],
        None => Seq::empty(),
    }
}

fn push_arg(args: &mut Vec<String>, text: &str)
    ensures
        texts(final(args)@) == texts(old(args)@).push(text@),
{
    let ghost before = args@;
    args.push(owned(text));
    assert(texts(args@) =~= texts(before).push(text@));
}

fn push_joined(args: &mut Vec<String>, head: &str, tail: &str)
    ensures
        texts(final(args)@) == texts(old(args)@).push(head@ + tail@),
{
    let ghost before = args@;
    let mut a = owned(head);
    push_str(&mut a, tail);
    args.push(a);
    assert(texts(args@) =~= texts(before).push(head@ + tail@));
}

fn push_cookie_arg(args: &mut Vec<String>, cookie_path: Option<&str>)
    ensures
        texts(final(args)@) == texts(old(args)@) + cookie_args(match cookie_path {
            Some(p) => Some(p@),
            None => None,
        }),
{
    match cookie_path {
        Some(p) => {
            push_joined(args, "--ytdl-raw-options=cookies=", p);
        },
        None => {
            assert(texts(args@) + Seq::<Seq<char>>::empty() =~= texts(args@));
        },
    }
}

/// The text of an optional string slice.
pub open spec fn opt_str(s: Option<&str>) -> Option<Seq<char>> {
    match s {
        Some(t) => Some(t@),
        None => None,
    }
}

/// The local proxy addresses the player reads video and audio from.
pub struct ProxyUrls<'a> {
    pub video_url: &'a str,
    pub audio_url: &'a str,
}

/// The player arguments for one video: cookies, window, referrer for the
/// page, the part's cid for the danmaku script, the control socket, quiet
/// decoder logs, then either the proxied streams or the page itself.
pub open spec fn video_player_args(
    webpage: Seq<char>,
    cid: i64,
    ipc_path: Seq<char>,
    cookie_path: Option<Seq<char>>,
    proxy: Option<(Seq<char>, Seq<char>)>,
) -> Seq<Seq<char>> {
    cookie_args(cookie_path) + seq![
        "--force-window=immediate"@,
        "--referrer="@ + webpage,
        "--http-header-fields=Referer: "@ + webpage,
        "--script-opts-append=cid="@ + signed_decimal(cid as int),
        "--input-ipc-server="@ + ipc_path,
        "--msg-level=ffmpeg=error,vd=warn"@,
    ] + match proxy {
        Some((video, audio)) => seq!["--audio-file="@ + audio, video],
        None => seq!["--ytdl-format=bestvideo+bestaudio/best"@, webpage],
    }
}

/// The arguments the player is started with for one video.
pub fn video_player_arguments(
    webpage: &str,
    cid: i64,
    ipc_path: &str,
    cookie_path: Option<&str>,
    proxy: Option<ProxyUrls>,
) -> (r: Vec<String>)
    ensures
        texts(r@) == video_player_args(webpage@, cid, ipc_path@, opt_str(cookie_path), match proxy {
            Some(p) => Some((p.video_url@, p.audio_url@)),
            None => None,
        }),
{
    let mut args: Vec<String> = Vec::new();
    push_cookie_arg(&mut args, cookie_path);
    push_arg(&mut args, "--force-window=immediate");
    push_joined(&mut args, "--referrer=", webpage);
    push_joined(&mut args, "--http-header-fields=Referer: ", webpage);
    let ghost before = args@;
    let mut cid_arg = owned("--script-opts-append=cid=");
    push_signed_decimal(&mut cid_arg, cid);
    args.push(cid_arg);
    assert(texts(args@) =~= texts(before).push("--script-opts-append=cid="@ + signed_decimal(cid as int)));
    push_joined(&mut args, "--input-ipc-server=", ipc_path);
    push_arg(&mut args, "--msg-level=ffmpeg=error,vd=warn");
    match proxy {
        Some(p) => {
            push_joined(&mut args, "--audio-file=", p.audio_url);
            push_arg(&mut args, p.video_url);
        },
        None => {
            push_arg(&mut args, "--ytdl-format=bestvideo+bestaudio/best");
            push_arg(&mut args, webpage);
        },
    }
    proof {
        let c = cookie_args(opt_str(cookie_path));
        assert(texts(args@) =~= video_player_args(webpage@, cid, ipc_path@, opt_str(cookie_path), match proxy {
            Some(p) => Some((p.video_url@, p.audio_url@)),
            None => None,
        }));
    }
    args
}

/// The name of the player's control socket for one video part.
pub fn ipc_socket_name(process_id: u32, cid: i64) -> (r: String)
    ensures
        r@ == "bilibili-tui-mpv-"@ + decimal(process_id as nat) + "-"@ + signed_decimal(cid as int) + ".sock"@,
{
    let mut name = owned("bilibili-tui-mpv-");
    push_decimal(&mut name, process_id as u64);
    push_str(&mut name, "-");
    push_signed_decimal(&mut name, cid);
    push_str(&mut name, ".sock");
    name
}

/// The player arguments for a playlist: best formats, a window at once, the
/// starting entry, cookies, then the page of every entry.
pub open spec fn playlist_player_args(pages: Seq<Seq<char>>, start: usize, cookie_path: Option<Seq<char>>) -> Seq<Seq<char>> {
    seq![
        "--ytdl-format=bestvideo+bestaudio/best"@,
        "--force-window=immediate"@,
        "--playlist-start="@ + decimal(start as nat),
    ] + cookie_args(cookie_path) + pages
}

/// The pages of the entries of a playlist.
pub open spec fn item_pages(items: Seq<PlaylistItem>) -> Seq<Seq<char>> {
    items.map_values(|item: PlaylistItem| video_page_url(item.bvid@, item.page))
}

/// The arguments the player is started with for a playlist that starts at `start`.
pub fn playlist_player_arguments(items: &Vec<PlaylistItem>, start: usize, cookie_path: Option<&str>) -> (r: Vec<String>)
    ensures
        texts(r@) == playlist_player_args(item_pages(items@), start, opt_str(cookie_path)),
{
    let mut args: Vec<String> = Vec::new();
    push_arg(&mut args, "--ytdl-format=bestvideo+bestaudio/best");
    push_arg(&mut args, "--force-window=immediate");
    let ghost before = args@;
    let mut start_arg = owned("--playlist-start=");
    push_decimal(&mut start_arg, start as u64);
    args.push(start_arg);
    assert(texts(args@) =~= texts(before).push("--playlist-start="@ + decimal(start as nat)));
    push_cookie_arg(&mut args, cookie_path);
    let ghost head = texts(args@);
    for i in 0..items.len()
        invariant
            texts(args@) == head + item_pages(items@.take(i as int)),
    {
        let ghost prior = args@;
        let page = video_page(items[i].bvid.as_str(), items[i].page);
        args.push(page);
        assert(item_pages(items@.take(i + 1)) =~= item_pages(items@.take(i as int)).push(video_page_url(items@[i as int].bvid@, items@[i as int].page)));
        assert(texts(args@) =~= texts(prior).push(page@));
    }
    assert(items@.take(items@.len() as int) =~= items@);
    assert(texts(args@) =~= playlist_player_args(item_pages(items@), start, opt_str(cookie_path)));
    args
}

/// The player arguments for a bangumi episode: cookies, best formats, a
/// window at once, then the episode page.
pub fn bangumi_player_arguments(ep_id: i64, cookie_path: Option<&str>) -> (r: Vec<String>)
    ensures
        texts(r@) == cookie_args(opt_str(cookie_path)) + seq![
            "--ytdl-format=bestvideo+bestaudio/best"@,
            "--force-window=immediate"@,
            "https://www.bilibili.com/bangumi/play/ep"@ + signed_decimal(ep_id as int),
        ],
{
    let mut args: Vec<String> = Vec::new();
    push_cookie_arg(&mut args, cookie_path);
    push_arg(&mut args, "--ytdl-format=bestvideo+bestaudio/best");
    push_arg(&mut args, "--force-window=immediate");
    let ghost before = args@;
    let page = bangumi_episode_page(ep_id);
    args.push(page);
    assert(texts(args@) =~= texts(before).push(page@));
    args
}

/// The player arguments for a live stream: buffering and reconnection
/// suited to live video, then the stream address.
pub open spec fn live_player_args(url: Seq<char>) -> Seq<Seq<char>> {
    seq![
        "--force-window=immediate"@,
        "--referrer=https://live.bilibili.com/"@,
        "--cache=yes"@,
        "--cache-secs=20"@,
        "--demuxer-readahead-secs=20"@,
        "--network-timeout=10"@,
        "--stream-lavf-o=reconnect=1,reconnect_streamed=1,reconnect_delay_max=5"@,
        "--hwdec=auto-safe"@,
        url,
    ]
}

/// The arguments the player is started with for a live stream.
pub fn live_player_arguments(url: &str) -> (r: Vec<String>)
    ensures
        texts(r@) == live_player_args(url@),
{
    let mut args: Vec<String> = Vec::new();
    push_arg(&mut args, "--force-window=immediate");
    push_arg(&mut args, "--referrer=https://live.bilibili.com/");
    push_arg(&mut args, "--cache=yes");
    push_arg(&mut args, "--cache-secs=20");
    push_arg(&mut args, "--demuxer-readahead-secs=20");
    push_arg(&mut args, "--network-timeout=10");
    push_arg(&mut args, "--stream-lavf-o=reconnect=1,reconnect_streamed=1,reconnect_delay_max=5");
    push_arg(&mut args, "--hwdec=auto-safe");
    push_arg(&mut args, url);
    assert(texts(args@) =~= live_player_args(url@));
    args
}

} // verus!

verus! {

/// How many corrupt-video reports call for another CDN.
pub const CORRUPT_REPORTS_BEFORE_SWITCH: usize = 3;

/// How long after one CDN switch another may follow: five seconds, in nanoseconds.
pub const SWITCH_COOLDOWN_NANOS: u128 = 5000000000;

/// Counts the player's corrupt-video reports and decides when to move the
/// video to another CDN.
#[derive(Debug, Clone, Copy, PartialEq, Eq, Structural)]
pub struct DecodeMonitor {
    pub decode_errors: usize,
}

impl DecodeMonitor {
    pub fn new() -> (r: DecodeMonitor)
        ensures
            r.decode_errors == 0,
    {
        DecodeMonitor { decode_errors: 0 }
    }

    /// Takes one player log line, given the time since the last CDN switch.
    /// Returns whether to switch now; a switch starts the count afresh.
    pub fn on_log_line(&mut self, line: &str, nanos_since_switch: u128) -> (switch: bool)
        requires
            old(self).decode_errors < usize::MAX,
        ensures
            ({
                let counted = if reports_corrupt_video(line@) {
                    old(self).decode_errors + 1
                } else {
                    old(self).decode_errors as int
                };
                &&& switch == (counted >= 3 && nanos_since_switch > 5000000000)
                &&& switch ==> final(self).decode_errors == 0
                &&& !switch ==> final(self).decode_errors == counted
            }),
    {
        if is_corrupt_video_log(line) {
            self.decode_errors = self.decode_errors + 1;
        }
        if self.decode_errors >= CORRUPT_REPORTS_BEFORE_SWITCH && nanos_since_switch > SWITCH_COOLDOWN_NANOS {
            self.decode_errors = 0;
            true
        } else {
            false
        }
    }
}

/// How many times a live stream is restarted after the player fails.
pub const LIVE_RESTARTS: usize = 3;

/// What to do after the live player has exited.
#[derive(Debug, Clone, Copy, PartialEq, Eq, Structural)]
pub enum LiveStep {
    /// Give up, or the stream ended normally.
    Stop,
    /// Every known address was tried: fetch fresh addresses first.
    Refresh,
    /// Start the player again on the address at this index.
    Play(usize),
}

/// Restarts of a live stream over its list of addresses.
#[derive(Debug, Clone, Copy, PartialEq, Eq, Structural)]
pub struct LiveRestart {
    pub next_url: usize,
    pub retries: usize,
}

impl LiveRestart {
    /// The state after the first address was started.
    pub fn new() -> (r: LiveRestart)
        ensures
            r.next_url == 1,
            r.retries == 0,
    {
        LiveRestart { next_url: 1, retries: 0 }
    }

    /// Decides what follows an exit of the player, knowing how many addresses
    /// there are.
    pub fn after_exit(&mut self, success: bool, url_count: usize) -> (step: LiveStep)
        requires
            old(self).next_url < usize::MAX,
        ensures
            success || old(self).retries >= 3 ==> step == LiveStep::Stop && *final(self) == *old(self),
            old(self).retries <= 3 ==> final(self).retries <= 3,
            !success && old(self).retries < 3 ==> {
                &&& final(self).retries == old(self).retries + 1
                &&& old(self).next_url >= url_count ==> step == LiveStep::Refresh && final(self).next_url == old(self).next_url
                &&& old(self).next_url < url_count ==> step == LiveStep::Play(old(self).next_url) && final(self).next_url == old(self).next_url + 1
            },
    {
        if success || self.retries >= LIVE_RESTARTS {
            return LiveStep::Stop;
        }
        self.retries = self.retries + 1;
        if self.next_url >= url_count {
            return LiveStep::Refresh;
        }
        let index = self.next_url;
        self.next_url = self.next_url + 1;
        LiveStep::Play(index)
    }

    /// Decides what follows a refresh that brought `url_count` addresses.
    pub fn after_refresh(&mut self, url_count: usize) -> (step: LiveStep)
        ensures
            url_count == 0 ==> step == LiveStep::Stop && final(self).next_url == 0,
            url_count > 0 ==> step == LiveStep::Play(0) && final(self).next_url == 1,
            final(self).retries == old(self).retries,
    {
        self.next_url = 0;
        if url_count == 0 {
            return LiveStep::Stop;
        }
        self.next_url = 1;
        LiveStep::Play(0)
    }
}

} // verus!
