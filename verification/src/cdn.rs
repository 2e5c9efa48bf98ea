//! Play-address data, the CDN reliability history and the choice of streams
//! and CDN candidates to probe.

use vstd::prelude::*;
use crate::text::{
    chars_of, compare_chars, lemma_lex_asymmetric, lemma_lex_transitive, lex_less, owned, texts, Rank,
};

verus! {

broadcast use vstd::string::group_string_axioms;

/// The play-address answer of the video service.
#[derive(Debug, Clone)]
pub struct PlayUrlData {
    pub dash: Dash,
}

/// The DASH streams of a video.
#[derive(Debug, Clone)]
pub struct Dash {
    pub video: Vec<DashStream>,
    pub audio: Vec<DashStream>,
    pub dolby: Option<Dolby>,
    pub flac: Option<Flac>,
}

/// Dolby audio streams.
#[derive(Debug, Clone)]
pub struct Dolby {
    pub audio: Option<Vec<DashStream>>,
}

/// The lossless audio stream.
#[derive(Debug, Clone)]
pub struct Flac {
    pub audio: Option<DashStream>,
}

/// One DASH stream and the CDN addresses it can be fetched from. The service
/// spells the address fields in two ways; both are kept.
#[derive(Debug, Clone)]
pub struct DashStream {
    pub id: i64,
    pub bandwidth: i64,
    pub codecid: i64,
    pub base_url: Option<String>,
    pub base_url_camel: Option<String>,
    pub backup_url: Option<Vec<String>>,
    pub backup_url_camel: Option<Vec<String>>,
}

/// The texts of an optional list of strings; nothing when it is absent.
pub open spec fn optional_texts(v: Option<Vec<String>>) -> Seq<Seq<char>> {
    match v {
        Some(v) => texts(v@),
        None => Seq::empty(),
    }
}

impl DashStream {
    /// The main address: the snake-case field, else the camel-case one.
    pub open spec fn primary(&self) -> Option<Seq<char>> {
        match self.base_url {
            Some(u) => Some(u@),
            None => match self.base_url_camel {
                Some(u) => Some(u@),
                None => None,
            },
        }
    }

    /// The backup addresses: the snake-case list, then the camel-case one.
    pub open spec fn backups(&self) -> Seq<Seq<char>> {
        optional_texts(self.backup_url) + optional_texts(self.backup_url_camel)
    }

    /// Every address of the stream: the main one first, then the backups.
    pub open spec fn addresses(&self) -> Seq<Seq<char>> {
        match self.primary() {
            Some(p) => seq![p] + self.backups(),
            None => self.backups(),
        }
    }

    pub fn primary_url(&self) -> (r: Option<&str>)
        ensures
            r matches Some(u) ==> self.primary() == Some(u@),
            r is None ==> self.primary() is None,
    {
        match &self.base_url {
            Some(u) => Some(u.as_str()),
            None => match &self.base_url_camel {
                Some(u) => Some(u.as_str()),
                None => None,
            },
        }
    }

    pub fn backup_urls(&self) -> (r: Vec<String>)
        ensures
            texts(r@) == self.backups(),
    {
        let mut r: Vec<String> = Vec::new();
        append_copies(&mut r, &self.backup_url);
        append_copies(&mut r, &self.backup_url_camel);
        r
    }
}

fn append_copies(out: &mut Vec<String>, from: &Option<Vec<String>>)
    ensures
        texts(final(out)@) == texts(old(out)@) + optional_texts(*from),
{
    match from {
        Some(v) => {
            let ghost start = out@;
            for i in 0..v.len()
                invariant
                    texts(out@) == texts(start) + texts(v@.take(i as int)),
            {
                let ghost before = out@;
                let copy = v[i].clone();
                out.push(copy);
                assert(texts(v@.take(i + 1)) =~= texts(v@.take(i as int)).push(v@[i as int]@));
                assert(texts(out@) =~= texts(before).push(v@[i as int]@));
            }
            assert(v@.take(v@.len() as int) =~= v@);
        },
        None => {
            assert(texts(out@) + Seq::<Seq<char>>::empty() =~= texts(out@));
        },
    }
}

} // verus!

verus! {

/// How often a CDN host was used, and how often it delivered corrupt video.
#[derive(Debug, Clone, Copy, PartialEq, Eq, Structural)]
pub struct CdnHistory {
    pub attempts: u64,
    pub corruptions: u64,
}

impl Default for CdnHistory {
    fn default() -> (r: CdnHistory)
        ensures
            r == (CdnHistory { attempts: 0, corruptions: 0 }),
    {
        CdnHistory { attempts: 0, corruptions: 0 }
    }
}

/// The saturating increment of a counter.
pub open spec fn bumped(n: u64) -> u64 {
    if n < u64::MAX {
        (n + 1) as u64
    } else {
        n
    }
}

/// A history after one more use of its host.
pub open spec fn after_use(h: CdnHistory, corrupted: bool) -> CdnHistory {
    CdnHistory {
        attempts: bumped(h.attempts),
        corruptions: if corrupted {
            bumped(h.corruptions)
        } else {
            h.corruptions
        },
    }
}

/// One use of a host counts one more attempt, and one more corruption
/// exactly when the video was corrupt; a counter at its largest value stays
/// there.
pub proof fn a_use_is_counted_once(h: CdnHistory, corrupted: bool)
    ensures
        h.attempts < u64::MAX ==> after_use(h, corrupted).attempts == h.attempts + 1,
        h.attempts == u64::MAX ==> after_use(h, corrupted).attempts == u64::MAX,
        corrupted && h.corruptions < u64::MAX ==> after_use(h, corrupted).corruptions
            == h.corruptions + 1,
        corrupted && h.corruptions == u64::MAX ==> after_use(h, corrupted).corruptions == u64::MAX,
        !corrupted ==> after_use(h, corrupted).corruptions == h.corruptions,
{
}

/// The history recorded for `host` among `entries` (the last entry for it).
pub open spec fn lookup(entries: Seq<(Seq<char>, CdnHistory)>, host: Seq<char>) -> Option<CdnHistory>
    decreases entries.len(),
{
    if entries.len() == 0 {
        None
    } else if entries.last().0 == host {
        Some(entries.last().1)
    } else {
        lookup(entries.drop_last(), host)
    }
}

/// The reliability history of every CDN host seen so far.
#[derive(Debug)]
pub struct CdnHistoryStore {
    entries: Vec<(String, CdnHistory)>,
}

proof fn lemma_lookup_absent(entries: Seq<(Seq<char>, CdnHistory)>, host: Seq<char>)
    requires
        forall|i: int| 0 <= i < entries.len() ==> entries[i].0 != host,
    ensures
        lookup(entries, host) is None,
    decreases entries.len(),
{
    if entries.len() > 0 {
        lemma_lookup_absent(entries.drop_last(), host);
    }
}

proof fn lemma_lookup_update(
    entries: Seq<(Seq<char>, CdnHistory)>,
    i: int,
    h: CdnHistory,
    other: Seq<char>,
)
    requires
        0 <= i < entries.len(),
        forall|a: int, b: int| 0 <= a < b < entries.len() ==> entries[a].0 != entries[b].0,
    ensures
        lookup(entries.update(i, (entries[i].0, h)), other) == if other == entries[i].0 {
            Some(h)
        } else {
            lookup(entries, other)
        },
    decreases entries.len(),
{
    let updated = entries.update(i, (entries[i].0, h));
    if i == entries.len() - 1 {
        assert(updated.drop_last() =~= entries.drop_last());
    } else {
        assert(updated.drop_last() =~= entries.drop_last().update(i, (entries[i].0, h)));
        lemma_lookup_update(entries.drop_last(), i, h, other);
        if other == entries[i].0 {
            assert(entries.last().0 != entries[i].0);
        }
    }
}

proof fn lemma_lookup_found(entries: Seq<(Seq<char>, CdnHistory)>, i: int)
    requires
        0 <= i < entries.len(),
        forall|a: int, b: int| 0 <= a < b < entries.len() ==> entries[a].0 != entries[b].0,
    ensures
        lookup(entries, entries[i].0) == Some(entries[i].1),
    decreases entries.len(),
{
    if i < entries.len() - 1 {
        assert(entries.last().0 != entries[i].0);
        lemma_lookup_found(entries.drop_last(), i);
    }
}

impl CdnHistoryStore {
    /// The entries as plain values.
    pub closed spec fn pairs(&self) -> Seq<(Seq<char>, CdnHistory)> {
        self.entries@.map_values(|e: (String, CdnHistory)| (e.0@, e.1))
    }

    /// No host is listed twice.
    pub closed spec fn well_formed(&self) -> bool {
        forall|a: int, b: int|
            0 <= a < b < self.pairs().len() ==> #[trigger] self.pairs()[a].0 != #[trigger] self.pairs()[b].0
    }

    /// The history recorded for `host`, if any.
    pub open spec fn get(&self, host: Seq<char>) -> Option<CdnHistory> {
        lookup(self.pairs(), host)
    }

    /// The history of `host`, counting from zero when none was recorded.
    pub open spec fn history_of(&self, host: Seq<char>) -> CdnHistory {
        match self.get(host) {
            Some(h) => h,
            None => CdnHistory { attempts: 0, corruptions: 0 },
        }
    }

    /// Every host has no more corruptions than attempts.
    pub open spec fn consistent(&self) -> bool {
        forall|h: Seq<char>| #[trigger] self.get(h) is Some ==> self.get(h)->0.corruptions <= self.get(h)->0.attempts
    }

    /// A store with no history.
    pub fn new() -> (r: CdnHistoryStore)
        ensures
            r.well_formed(),
            forall|h: Seq<char>| #[trigger] r.get(h) is None,
    {
        let r = CdnHistoryStore { entries: Vec::new() };
        proof {
            assert forall|h: Seq<char>| #[trigger] r.get(h) is None by {
                lemma_lookup_absent(r.pairs(), h);
            }
        }
        r
    }

    fn position(&self, host: &String) -> (r: Option<usize>)
        requires
            self.well_formed(),
        ensures
            r matches Some(i) ==> i < self.pairs().len() && self.pairs()[i as int].0 == host@,
            r is None ==> forall|i: int| 0 <= i < self.pairs().len() ==> self.pairs()[i].0 != host@,
    {
        let mut i: usize = 0;
        while i < self.entries.len()
            invariant
                i <= self.entries@.len(),
                forall|j: int| 0 <= j < i ==> self.pairs()[j].0 != host@,
            decreases self.entries@.len() - i,
        {
            if self.entries[i].0 == *host {
                return Some(i);
            }
            i = i + 1;
        }
        None
    }

    /// The history recorded for `host`, counting from zero when there is none.
    pub fn history(&self, host: &str) -> (r: CdnHistory)
        requires
            self.well_formed(),
        ensures
            r == self.history_of(host@),
    {
        let key = owned(host);
        match self.position(&key) {
            Some(i) => {
                proof {
                    lemma_lookup_found(self.pairs(), i as int);
                }
                self.entries[i].1
            },
            None => {
                proof {
                    lemma_lookup_absent(self.pairs(), host@);
                }
                CdnHistory { attempts: 0, corruptions: 0 }
            },
        }
    }

    /// Sets the history of `host`, replacing what was recorded for it.
    pub fn set(&mut self, host: String, history: CdnHistory)
        requires
            old(self).well_formed(),
        ensures
            final(self).well_formed(),
            final(self).get(host@) == Some(history),
            forall|other: Seq<char>| other != host@ ==> #[trigger] final(self).get(other) == old(self).get(other),
    {
        match self.position(&host) {
            Some(i) => {
                let ghost before = self.pairs();
                self.entries.set(i, (host, history));
                proof {
                    assert(self.pairs() =~= before.update(i as int, (before[i as int].0, history)));
                    assert forall|other: Seq<char>| #[trigger] self.get(other) == if other == before[i as int].0 {
                        Some(history)
                    } else {
                        lookup(before, other)
                    } by {
                        lemma_lookup_update(before, i as int, history, other);
                    }
                }
            },
            None => {
                let ghost before = self.pairs();
                let ghost key = host@;
                self.entries.push((host, history));
                proof {
                    assert(self.pairs() =~= before.push((key, history)));
                    assert(self.pairs().drop_last() =~= before);
                }
            },
        }
    }

    /// Every recorded host with its history.
    pub fn entries(&self) -> (r: Vec<(String, CdnHistory)>)
        ensures
            r@.map_values(|e: (String, CdnHistory)| (e.0@, e.1)) == self.pairs(),
    {
        let mut r: Vec<(String, CdnHistory)> = Vec::new();
        for i in 0..self.entries.len()
            invariant
                r@.map_values(|e: (String, CdnHistory)| (e.0@, e.1)) == self.pairs().take(i as int),
        {
            let host = self.entries[i].0.clone();
            let ghost before = r@;
            r.push((host, self.entries[i].1));
            assert(r@ =~= before.push((host, self.entries@[i as int].1)));
            assert(self.pairs().take(i + 1) =~= self.pairs().take(i as int).push(self.pairs()[i as int]));
            assert(r@.map_values(|e: (String, CdnHistory)| (e.0@, e.1)) =~= before.map_values(|e: (String, CdnHistory)| (e.0@, e.1)).push(self.pairs()[i as int]));
        }
        assert(self.pairs().take(self.pairs().len() as int) =~= self.pairs());
        r
    }
}

/// Records one use of the CDN `host`, and whether the video it delivered was corrupt.
pub fn record_cdn_result(store: &mut CdnHistoryStore, host: &str, corrupted: bool)
    requires
        old(store).well_formed(),
    ensures
        final(store).well_formed(),
        final(store).get(host@) == Some(after_use(old(store).history_of(host@), corrupted)),
        forall|other: Seq<char>| other != host@ ==> #[trigger] final(store).get(other) == old(store).get(other),
        old(store).consistent() ==> final(store).consistent(),
{
    let mut entry = store.history(host);
    entry.attempts = entry.attempts.saturating_add(1);
    if corrupted {
        entry.corruptions = entry.corruptions.saturating_add(1);
    }
    store.set(owned(host), entry);
    proof {
        if old(store).consistent() {
            assert forall|h: Seq<char>| #[trigger] store.get(h) is Some implies store.get(h)->0.corruptions <= store.get(h)->0.attempts by {
                if h != host@ {
                    assert(old(store).get(h) == store.get(h));
                } else {
                    let prior = old(store).get(host@);
                    if prior is Some {
                        assert(prior->0.corruptions <= prior->0.attempts);
                    }
                }
            }
        }
    }
}

} // verus!

verus! {

/// Why no playable streams or CDN candidates could be chosen.
#[derive(Debug, Clone, Copy, PartialEq, Eq, Structural)]
pub enum StreamError {
    NoVideoStream,
    NoAudioStream,
    MissingPrimaryUrl,
    NoReachableCdn,
}

impl StreamError {
    /// The message shown to the user.
    pub fn message(&self) -> (r: String)
        ensures
            r@ == (match *self {
                StreamError::NoVideoStream => "播放地址没有视频流"@,
                StreamError::NoAudioStream => "播放地址没有音频流"@,
                StreamError::MissingPrimaryUrl => "CDN 流缺少主地址"@,
                StreamError::NoReachableCdn => "没有可用的 CDN 节点"@,
            }),
    {
        match self {
            StreamError::NoVideoStream => owned("播放地址没有视频流"),
            StreamError::NoAudioStream => owned("播放地址没有音频流"),
            StreamError::MissingPrimaryUrl => owned("CDN 流缺少主地址"),
            StreamError::NoReachableCdn => owned("没有可用的 CDN 节点"),
        }
    }
}

/// Video streams are ranked by id (the quality), then by bandwidth.
pub open spec fn video_rank_le(a: DashStream, b: DashStream) -> bool {
    a.id < b.id || (a.id == b.id && a.bandwidth <= b.bandwidth)
}

/// `s[k]` is the last of the best-ranked video streams in `s`.
pub open spec fn is_best_video(s: Seq<DashStream>, k: int) -> bool {
    &&& 0 <= k < s.len()
    &&& forall|j: int| 0 <= j < s.len() ==> video_rank_le(#[trigger] s[j], s[k])
    &&& forall|j: int| k < j < s.len() ==> !video_rank_le(s[k], #[trigger] s[j])
}

/// The chosen video stream has the highest quality id of all, and the
/// highest bandwidth among the streams of that quality.
pub proof fn best_video_has_top_quality(s: Seq<DashStream>, k: int)
    requires
        is_best_video(s, k),
    ensures
        forall|j: int| 0 <= j < s.len() ==> (#[trigger] s[j]).id <= s[k].id,
        forall|j: int| 0 <= j < s.len() && (#[trigger] s[j]).id == s[k].id ==> s[j].bandwidth
            <= s[k].bandwidth,
{
    assert forall|j: int| 0 <= j < s.len() implies (#[trigger] s[j]).id <= s[k].id by {
        assert(video_rank_le(s[j], s[k]));
    }
    assert forall|j: int| 0 <= j < s.len() && (#[trigger] s[j]).id == s[k].id implies s[j].bandwidth
        <= s[k].bandwidth by {
        assert(video_rank_le(s[j], s[k]));
    }
}

/// `s[k]` is the last of the streams in `s` with the highest bandwidth.
pub open spec fn is_best_audio(s: Seq<DashStream>, k: int) -> bool {
    &&& 0 <= k < s.len()
    &&& forall|j: int| 0 <= j < s.len() ==> (#[trigger] s[j]).bandwidth <= s[k].bandwidth
    &&& forall|j: int| k < j < s.len() ==> (#[trigger] s[j]).bandwidth < s[k].bandwidth
}

/// The Dolby audio streams, if any.
pub open spec fn dolby_streams(dash: Dash) -> Seq<DashStream> {
    match dash.dolby {
        Some(d) => match d.audio {
            Some(v) => v@,
            None => Seq::empty(),
        },
        None => Seq::empty(),
    }
}

/// The audio streams to choose from: the plain ones, then the Dolby ones,
/// then the lossless one.
pub open spec fn audio_candidates(dash: Dash) -> Seq<DashStream> {
    dash.audio@ + dolby_streams(dash) + (match dash.flac {
        Some(f) => match f.audio {
            Some(s) => seq![s],
            None => Seq::empty(),
        },
        None => Seq::empty(),
    })
}

/// The video stream to play: the last one of the highest quality and bandwidth.
pub fn select_video_stream(dash: &Dash) -> (r: Option<&DashStream>)
    ensures
        r is None <==> dash.video@.len() == 0,
        r matches Some(s) ==> exists|k: int| is_best_video(dash.video@, k) && dash.video@[k] == *s,
{
    let mut best: Option<&DashStream> = None;
    let ghost mut best_k: int = -1;
    for i in 0..dash.video.len()
        invariant
            best is None <==> i == 0,
            best is Some ==> 0 <= best_k < i && dash.video@[best_k] == *best->0
                && forall|j: int| 0 <= j < i ==> video_rank_le(#[trigger] dash.video@[j], dash.video@[best_k])
                && forall|j: int| best_k < j < i ==> !video_rank_le(dash.video@[best_k], #[trigger] dash.video@[j]),
    {
        let s = &dash.video[i];
        let take = match best {
            None => true,
            Some(b) => b.id < s.id || (b.id == s.id && b.bandwidth <= s.bandwidth),
        };
        if take {
            best = Some(s);
            proof {
                best_k = i as int;
            }
        }
    }
    proof {
        if best is Some {
            assert(is_best_video(dash.video@, best_k));
        }
    }
    best
}

/// The audio stream to play: the last one with the highest bandwidth among
/// the plain, Dolby and lossless streams.
pub fn select_audio_stream(dash: &Dash) -> (r: Option<&DashStream>)
    ensures
        r is None <==> audio_candidates(*dash).len() == 0,
        r matches Some(s) ==> exists|k: int| is_best_audio(audio_candidates(*dash), k) && audio_candidates(*dash)[k] == *s,
{
    let ghost all = audio_candidates(*dash);
    let mut best: Option<&DashStream> = None;
    let ghost mut best_k: int = -1;
    let ghost mut seen: Seq<DashStream> = Seq::empty();
    for i in 0..dash.audio.len()
        invariant
            seen == dash.audio@.take(i as int),
            best is None <==> seen.len() == 0,
            best is Some ==> 0 <= best_k < seen.len() && seen[best_k] == *best->0
                && forall|j: int| 0 <= j < seen.len() ==> (#[trigger] seen[j]).bandwidth <= seen[best_k].bandwidth
                && forall|j: int| best_k < j < seen.len() ==> (#[trigger] seen[j]).bandwidth < seen[best_k].bandwidth,
    {
        let s = &dash.audio[i];
        let take = match best {
            None => true,
            Some(b) => b.bandwidth <= s.bandwidth,
        };
        proof {
            seen = seen.push(*s);
            assert(seen =~= dash.audio@.take(i + 1));
        }
        if take {
            best = Some(s);
            proof {
                best_k = i as int;
            }
        }
    }
    assert(seen =~= dash.audio@);
    let ghost plain_seen = seen;
    let ghost dolby_all = dolby_streams(*dash);
    match &dash.dolby {
        Some(d) => match &d.audio {
            Some(v) => {
                for i in 0..v.len()
                    invariant
                        dolby_all == v@,
                        seen == plain_seen + v@.take(i as int),
                        best is None <==> seen.len() == 0,
                        best is Some ==> 0 <= best_k < seen.len() && seen[best_k] == *best->0
                            && forall|j: int| 0 <= j < seen.len() ==> (#[trigger] seen[j]).bandwidth <= seen[best_k].bandwidth
                            && forall|j: int| best_k < j < seen.len() ==> (#[trigger] seen[j]).bandwidth < seen[best_k].bandwidth,
                {
                    let s = &v[i];
                    let take = match best {
                        None => true,
                        Some(b) => b.bandwidth <= s.bandwidth,
                    };
                    proof {
                        best_k = if take {
                            seen.len() as int
                        } else {
                            best_k
                        };
                        seen = seen.push(*s);
                        assert(seen =~= plain_seen + v@.take(i + 1));
                    }
                    if take {
                        best = Some(s);
                    }
                }
                assert(v@.take(v@.len() as int) =~= v@);
            },
            None => {
                assert(seen =~= plain_seen + dolby_all);
            },
        },
        None => {
            assert(seen =~= plain_seen + dolby_all);
        },
    }
    let ghost before_flac = seen;
    assert(before_flac == dash.audio@ + dolby_all);
    match &dash.flac {
        Some(f) => match &f.audio {
            Some(s) => {
                let take = match best {
                    None => true,
                    Some(b) => b.bandwidth <= s.bandwidth,
                };
                proof {
                    best_k = if take {
                        seen.len() as int
                    } else {
                        best_k
                    };
                    seen = seen.push(*s);
                }
                if take {
                    best = Some(s);
                }
                assert(seen =~= all);
            },
            None => {
                assert(seen =~= all);
            },
        },
        None => {
            assert(seen =~= all);
        },
    }
    proof {
        if best is Some {
            assert(is_best_audio(all, best_k));
        }
    }
    best
}

/// Chooses the video and the audio stream to play, or says which is missing
/// (video is looked at first).
pub fn select_streams(data: &PlayUrlData) -> (r: Result<(&DashStream, &DashStream), StreamError>)
    ensures
        data.dash.video@.len() == 0 ==> r == Err::<(&DashStream, &DashStream), StreamError>(StreamError::NoVideoStream),
        data.dash.video@.len() > 0 && audio_candidates(data.dash).len() == 0 ==> r == Err::<(&DashStream, &DashStream), StreamError>(StreamError::NoAudioStream),
        r matches Ok((v, a)) ==> {
            &&& exists|k: int| is_best_video(data.dash.video@, k) && data.dash.video@[k] == *v
            &&& exists|k: int| is_best_audio(audio_candidates(data.dash), k) && audio_candidates(data.dash)[k] == *a
        },
        r is Ok <==> data.dash.video@.len() > 0 && audio_candidates(data.dash).len() > 0,
{
    let video = match select_video_stream(&data.dash) {
        Some(v) => v,
        None => return Err(StreamError::NoVideoStream),
    };
    let audio = match select_audio_stream(&data.dash) {
        Some(a) => a,
        None => return Err(StreamError::NoAudioStream),
    };
    Ok((video, audio))
}

} // verus!

verus! {

/// The host that the `url` crate reads out of an address, when it has one.
pub uninterp spec fn url_host(url: Seq<char>) -> Option<Seq<char>>;

/// Parses `url` with `reqwest::Url::parse` (the `url` crate's parser) and
/// takes `Url::host_str` of the result. The contract only names the result:
/// the same text always yields the same host, and an address that does not
/// parse, or has no host, yields none.
#[verifier::external_body]
fn host(url: &str) -> (r: Option<String>)
    ensures
        r matches Some(h) ==> url_host(url@) == Some(h@),
        r is None ==> url_host(url@) is None,
{
    match reqwest::Url::parse(url) {
        Ok(parsed) => match parsed.host_str() {
            Some(h) => Some(h.to_string()),
            None => None,
        },
        Err(_) => None,
    }
}

/// The text of an optional string.
pub open spec fn opt_text(s: Option<String>) -> Option<Seq<char>> {
    match s {
        Some(t) => Some(t@),
        None => None,
    }
}

/// The order of optional host names: no host first, then hosts in
/// lexicographic order (the order of `Option<String>`).
pub open spec fn key_less(a: Option<Seq<char>>, b: Option<Seq<char>>) -> bool {
    match (a, b) {
        (None, Some(_)) => true,
        (Some(x), Some(y)) => lex_less(x, y),
        _ => false,
    }
}

proof fn lemma_key_asymmetric(a: Option<Seq<char>>, b: Option<Seq<char>>)
    ensures
        !(key_less(a, b) && key_less(b, a)),
        !key_less(a, a),
{
    if a is Some && b is Some {
        lemma_lex_asymmetric(a->0, b->0);
    }
    if a is Some {
        lemma_lex_asymmetric(a->0, a->0);
    }
}

proof fn lemma_key_transitive(a: Option<Seq<char>>, b: Option<Seq<char>>, c: Option<Seq<char>>)
    requires
        key_less(a, b),
        key_less(b, c),
    ensures
        key_less(a, c),
{
    if a is Some {
        lemma_lex_transitive(a->0, b->0, c->0);
    }
}

fn compare_keys(a: &Option<String>, b: &Option<String>) -> (r: Rank)
    ensures
        (r == Rank::Before) == key_less(opt_text(*a), opt_text(*b)),
        (r == Rank::Same) == (opt_text(*a) == opt_text(*b)),
        (r == Rank::After) == key_less(opt_text(*b), opt_text(*a)),
{
    match (a, b) {
        (None, None) => Rank::Same,
        (None, Some(_)) => Rank::Before,
        (Some(_), None) => Rank::After,
        (Some(x), Some(y)) => {
            let xs = chars_of(x.as_str());
            let ys = chars_of(y.as_str());
            compare_chars(xs.as_slice(), ys.as_slice())
        },
    }
}

/// One CDN address to probe, with the host it names.
#[derive(Debug, Clone)]
pub struct CdnUrl {
    pub url: String,
    pub host: Option<String>,
}

/// The host of a candidate, as plain text.
pub open spec fn url_key(c: CdnUrl) -> Option<Seq<char>> {
    opt_text(c.host)
}

/// No address before position `p` of `addrs` names the same host as `addrs[p]`.
pub open spec fn first_of_its_host(addrs: Seq<Seq<char>>, p: int) -> bool {
    forall|q: int| 0 <= q < p ==> url_host(#[trigger] addrs[q]) != url_host(addrs[p])
}

/// `c` lists one address per host named among `addrs`: the first address of
/// each host, in the order of the hosts.
pub open spec fn one_address_per_host(addrs: Seq<Seq<char>>, c: Seq<CdnUrl>) -> bool {
    &&& forall|i: int| 0 <= i < c.len() ==> url_key(#[trigger] c[i]) == url_host(c[i].url@)
    &&& forall|i: int, j: int| 0 <= i < j < c.len() ==> key_less(url_key(#[trigger] c[i]), url_key(#[trigger] c[j]))
    &&& forall|i: int| 0 <= i < c.len() ==> exists|p: int| 0 <= p < addrs.len() && addrs[p] == (#[trigger] c[i]).url@ && first_of_its_host(addrs, p)
    &&& forall|p: int| 0 <= p < addrs.len() ==> exists|i: int| 0 <= i < c.len() && url_key(#[trigger] c[i]) == url_host(#[trigger] addrs[p])
}

/// The candidates' hosts strictly increase.
pub open spec fn sorted_by_host(c: Seq<CdnUrl>) -> bool {
    forall|i: int, j: int| 0 <= i < j < c.len() ==> key_less(url_key(#[trigger] c[i]), url_key(#[trigger] c[j]))
}

/// Where a candidate with host `key` belongs in the sorted list `out`, and
/// whether a candidate with that host is already there.
fn find_slot(out: &Vec<CdnUrl>, key: &Option<String>) -> (r: (usize, bool))
    ensures
        r.0 <= out@.len(),
        forall|j: int| 0 <= j < r.0 ==> key_less(url_key(#[trigger] out@[j]), opt_text(*key)),
        r.1 ==> r.0 < out@.len() && url_key(out@[r.0 as int]) == opt_text(*key),
        !r.1 ==> r.0 == out@.len() || key_less(opt_text(*key), url_key(out@[r.0 as int])),
{
    let mut p: usize = 0;
    while p < out.len()
        invariant
            p <= out@.len(),
            forall|j: int| 0 <= j < p ==> key_less(url_key(#[trigger] out@[j]), opt_text(*key)),
        decreases out@.len() - p,
    {
        match compare_keys(&out[p].host, key) {
            Rank::Before => {
                p = p + 1;
            },
            Rank::Same => {
                return (p, true);
            },
            Rank::After => {
                return (p, false);
            },
        }
    }
    (p, false)
}

proof fn lemma_insert_keeps_order(out: Seq<CdnUrl>, p: int, c: CdnUrl)
    requires
        sorted_by_host(out),
        0 <= p <= out.len(),
        forall|j: int| 0 <= j < p ==> key_less(url_key(#[trigger] out[j]), url_key(c)),
        p == out.len() || key_less(url_key(c), url_key(out[p])),
    ensures
        sorted_by_host(out.insert(p, c)),
        forall|i: int| 0 <= i < out.len() ==> url_key(#[trigger] out[i]) != url_key(c),
{
    let k = url_key(c);
    let new = out.insert(p, c);
    assert forall|i: int| 0 <= i < out.len() implies url_key(#[trigger] out[i]) != k by {
        lemma_key_asymmetric(url_key(out[i]), k);
        if i > p {
            lemma_key_transitive(k, url_key(out[p]), url_key(out[i]));
            lemma_key_asymmetric(k, url_key(out[i]));
        } else if i == p {
            lemma_key_asymmetric(k, url_key(out[i]));
        }
    }
    assert forall|i: int, j: int| 0 <= i < j < new.len() implies key_less(url_key(#[trigger] new[i]), url_key(#[trigger] new[j])) by {
        if j < p {
            assert(new[i] == out[i] && new[j] == out[j]);
        } else if j == p {
            assert(new[i] == out[i]);
        } else if i < p {
            assert(new[i] == out[i] && new[j] == out[j - 1]);
            lemma_key_transitive(url_key(out[i]), k, url_key(out[p]));
            if j - 1 > p {
                lemma_key_transitive(url_key(out[i]), url_key(out[p]), url_key(out[j - 1]));
            }
        } else if i == p {
            assert(new[j] == out[j - 1]);
            if j - 1 > p {
                lemma_key_transitive(k, url_key(out[p]), url_key(out[j - 1]));
            }
        } else {
            assert(new[i] == out[i - 1] && new[j] == out[j - 1]);
        }
    }
}

/// The addresses of a stream to probe: its main address and its backups, one
/// per host (the first of each), ordered by host. A stream without a main
/// address is refused.
#[verifier::spinoff_prover]
#[verifier::rlimit(40)]
pub fn candidate_urls(stream: &DashStream) -> (r: Result<Vec<CdnUrl>, StreamError>)
    ensures
        r is Err <==> stream.primary() is None,
        r is Err ==> r == Err::<Vec<CdnUrl>, StreamError>(StreamError::MissingPrimaryUrl),
        r matches Ok(c) ==> one_address_per_host(stream.addresses(), c@),
{
    let primary = match stream.primary_url() {
        Some(p) => owned(p),
        None => return Err(StreamError::MissingPrimaryUrl),
    };
    let mut urls: Vec<String> = Vec::new();
    urls.push(primary);
    append_copies(&mut urls, &stream.backup_url);
    append_copies(&mut urls, &stream.backup_url_camel);
    let ghost addrs = texts(urls@);
    assert(addrs =~= stream.addresses());
    let mut out: Vec<CdnUrl> = Vec::new();
    let ghost mut origin: Seq<int> = Seq::empty();
    for t in 0..urls.len()
        invariant
            addrs == texts(urls@),
            addrs == stream.addresses(),
            origin.len() == out@.len(),
            forall|i: int| 0 <= i < out@.len() ==> url_key(#[trigger] out@[i]) == url_host(out@[i].url@),
            sorted_by_host(out@),
            forall|i: int| 0 <= i < out@.len() ==> 0 <= #[trigger] origin[i] < t && addrs[origin[i]] == out@[i].url@ && first_of_its_host(addrs, origin[i]),
            forall|p: int| 0 <= p < t ==> exists|i: int| 0 <= i < out@.len() && url_key(#[trigger] out@[i]) == url_host(#[trigger] addrs[p]),
    {
        let ghost start_out = out@;
        let url = urls[t].clone();
        let key = host(url.as_str());
        assert(url@ == addrs[t as int]);
        let (p, same) = find_slot(&out, &key);
        if !same {
            let candidate = CdnUrl { url, host: key };
            proof {
                lemma_insert_keeps_order(out@, p as int, candidate);
                assert(first_of_its_host(addrs, t as int)) by {
                    assert forall|q: int| 0 <= q < t implies url_host(#[trigger] addrs[q]) != url_host(addrs[t as int]) by {
                        let i = choose|i: int| 0 <= i < out@.len() && url_key(#[trigger] out@[i]) == url_host(#[trigger] addrs[q]);
                    }
                }
            }
            out.insert(p, candidate);
            proof {
                origin = origin.insert(p as int, t as int);
                assert forall|i: int| 0 <= i < out@.len() implies url_key(#[trigger] out@[i]) == url_host(out@[i].url@) && 0 <= #[trigger] origin[i] < t + 1 && addrs[origin[i]] == out@[i].url@ && first_of_its_host(addrs, origin[i]) by {
                    if i < p {
                        assert(out@[i] == start_out[i]);
                    } else if i > p {
                        assert(out@[i] == start_out[i - 1]);
                    }
                }
            }
        }
        proof {
            assert forall|q: int| 0 <= q < t + 1 implies exists|i: int| 0 <= i < out@.len() && url_key(#[trigger] out@[i]) == url_host(#[trigger] addrs[q]) by {
                if q == t {
                    assert(url_key(out@[p as int]) == url_host(addrs[q]));
                } else {
                    let i = choose|i: int| 0 <= i < start_out.len() && url_key(#[trigger] start_out[i]) == url_host(#[trigger] addrs[q]);
                    if same {
                        assert(out@[i] == start_out[i]);
                    } else if i < p {
                        assert(out@[i] == start_out[i]);
                    } else {
                        assert(out@[i + 1] == start_out[i]);
                    }
                }
            }
        }
    }
    proof {
        assert forall|i: int| 0 <= i < out@.len() implies exists|p: int| 0 <= p < addrs.len() && addrs[p] == (#[trigger] out@[i]).url@ && first_of_its_host(addrs, p) by {
            assert(0 <= origin[i] < addrs.len());
        }
        assert(addrs.len() == urls@.len());
        assert(forall|p: int| 0 <= p < addrs.len() ==> exists|i: int| 0 <= i < out@.len() && url_key(#[trigger] out@[i]) == url_host(#[trigger] addrs[p]));
        assert(forall|i: int| 0 <= i < out@.len() ==> url_key(#[trigger] out@[i]) == url_host(out@[i].url@));
        assert(sorted_by_host(out@));
    }
    Ok(out)
}

} // verus!

verus! {

/// How many bytes a CDN probe reads before it stops: half a mebibyte.
pub const PROBE_BYTES: usize = 524287;

/// Why a probe gives no measurement.
#[derive(Debug, Clone, Copy, PartialEq, Eq, Structural)]
pub enum ProbeError {
    EmptyResponse,
}

/// The bytes a probe has received so far.
#[derive(Debug, Clone, Copy, PartialEq, Eq, Structural)]
pub struct ProbeProgress {
    pub received: usize,
}

impl ProbeProgress {
    pub fn new() -> (r: ProbeProgress)
        ensures
            r.received == 0,
    {
        ProbeProgress { received: 0 }
    }

    /// Counts a received chunk; says whether the probe has read enough.
    pub fn on_chunk(&mut self, len: usize) -> (done: bool)
        requires
            old(self).received <= PROBE_BYTES,
            len <= usize::MAX - PROBE_BYTES,
        ensures
            final(self).received == old(self).received + len,
            done == (final(self).received > PROBE_BYTES),
    {
        self.received = self.received + len;
        self.received > PROBE_BYTES
    }

    /// The number of bytes measured, or an error when nothing arrived.
    pub fn finish(&self) -> (r: Result<usize, ProbeError>)
        ensures
            self.received == 0 ==> r == Err::<usize, ProbeError>(ProbeError::EmptyResponse),
            self.received > 0 ==> r == Ok::<usize, ProbeError>(self.received),
    {
        if self.received == 0 {
            Err(ProbeError::EmptyResponse)
        } else {
            Ok(self.received)
        }
    }
}

} // verus!
