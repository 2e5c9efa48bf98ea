//! The local media proxy: which CDN serves the video, how requests to the
//! proxy are read, and what it answers from cached data.

use vstd::prelude::*;
use vstd::utf8::{decode_utf8, valid_utf8};
use crate::cdn::{after_use, record_cdn_result, CdnHistoryStore};
use crate::text::{
    chars_from, chars_of, decimal, has_prefix, is_digit, lemma_decimal_reads_back,
    lemma_split_by_nonempty, owned, parse_u64, parse_usize, parse_usize_reads_decimal, parsed_u64,
    parsed_usize, push_decimal, push_str, split_by, starts_with, string_from_chars, texts, trim,
    trim_chars, words, words_of,
};

verus! {

broadcast use vstd::string::group_string_axioms;

/// The bytes that `value` holds after the `bytes=` unit, split at the first
/// `-`: a start, and an end when one is written.
pub open spec fn range_parts(value: Seq<char>) -> Option<(Seq<char>, Seq<char>)> {
    if has_prefix(value, "bytes="@) {
        let rest = value.skip(6);
        if exists|i: int| 0 <= i < rest.len() && rest[i] == '-' {
            let i = choose|i: int| 0 <= i < rest.len() && rest[i] == '-' && forall|j: int| 0 <= j < i ==> rest[j] != '-';
            Some((rest.take(i), rest.skip(i + 1)))
        } else {
            None
        }
    } else {
        None
    }
}

/// What an HTTP `Range` header asks for: a first byte, and a last byte when
/// it is given and readable.
pub open spec fn parsed_range(value: Seq<char>) -> Option<(usize, Option<usize>)> {
    match range_parts(value) {
        Some((start, end)) => match parsed_usize(start) {
            Some(s) => Some((s, if end.len() == 0 {
                None
            } else {
                parsed_usize(end)
            })),
            None => None,
        },
        None => None,
    }
}

/// Reads a `bytes=START-END` range header value; the end may be left out.
pub fn parse_range(value: &str) -> (r: Option<(usize, Option<usize>)>)
    ensures
        r == parsed_range(value@),
{
    let v = chars_of(value);
    let unit = chars_of("bytes=");
    proof {
        reveal_strlit("bytes=");
    }
    if !starts_with(v.as_slice(), unit.as_slice()) {
        return None;
    }
    let rest = chars_from(v.as_slice(), 6);
    let mut i: usize = 0;
    while i < rest.len() && rest[i] != '-'
        invariant
            i <= rest@.len(),
            forall|j: int| 0 <= j < i ==> rest@[j] != '-',
        decreases rest@.len() - i,
    {
        i = i + 1;
    }
    if i == rest.len() {
        return None;
    }
    proof {
        let first = choose|k: int| 0 <= k < rest@.len() && rest@[k] == '-' && forall|j: int| 0 <= j < k ==> rest@[j] != '-';
        assert(first == i as int) by {
            if first < i {
                assert(rest@[first] != '-');
            } else if first > i {
                assert(rest@[i as int] != '-');
            }
        }
    }
    let mut start: Vec<char> = Vec::new();
    let mut k: usize = 0;
    while k < i
        invariant
            k <= i < rest@.len(),
            start@ == rest@.take(k as int),
        decreases i - k,
    {
        start.push(rest[k]);
        assert(rest@.take(k + 1) =~= rest@.take(k as int).push(rest@[k as int]));
        k = k + 1;
    }
    let end = chars_from(rest.as_slice(), i + 1);
    let first = match parse_usize(start.as_slice()) {
        Some(s) => s,
        None => return None,
    };
    let last = if end.len() == 0 {
        None
    } else {
        parse_usize(end.as_slice())
    };
    Some((first, last))
}

/// The part of an address before its query.
pub open spec fn before_query(url: Seq<char>) -> Seq<char> {
    split_by(url, |c: char| c == '?')[0]
}

/// Why the proxy cannot be started or cannot answer.
#[derive(Debug, Clone, Copy, PartialEq, Eq, Structural)]
pub enum ProxyError {
    NoCandidates,
    EmptyRequest,
}

impl ProxyError {
    /// The message shown to the user.
    pub fn message(&self) -> (r: String)
        ensures
            r@ == (match *self {
                ProxyError::NoCandidates => "CDN 候选地址为空"@,
                ProxyError::EmptyRequest => "empty proxy request"@,
            }),
    {
        match self {
            ProxyError::NoCandidates => owned("CDN 候选地址为空"),
            ProxyError::EmptyRequest => owned("empty proxy request"),
        }
    }
}

/// The proxy needs at least one video and one audio candidate.
pub fn check_candidates(video_count: usize, audio_count: usize) -> (r: Result<(), ProxyError>)
    ensures
        r is Ok <==> video_count > 0 && audio_count > 0,
        r is Err ==> r == Err::<(), ProxyError>(ProxyError::NoCandidates),
{
    if video_count == 0 || audio_count == 0 {
        Err(ProxyError::NoCandidates)
    } else {
        Ok(())
    }
}

/// The proxy's view of its video CDNs: the hosts of the ranked candidates,
/// the one in use, and the addresses the player is given.
#[derive(Debug)]
pub struct MediaProxy {
    pub video_url: String,
    pub audio_url: String,
    pub video_hosts: Vec<String>,
    pub video_index: usize,
}

impl MediaProxy {
    /// The hosts of the video candidates, best first.
    pub open spec fn hosts(&self) -> Seq<Seq<char>> {
        texts(self.video_hosts@)
    }

    /// The position of the candidate in use.
    pub open spec fn index(&self) -> nat {
        self.video_index as nat
    }

    pub open spec fn well_formed(&self) -> bool {
        self.video_index < self.video_hosts@.len()
    }

    /// A proxy listening on `address`, using the best video candidate.
    pub fn new(address: &str, video_hosts: Vec<String>) -> (r: MediaProxy)
        requires
            video_hosts@.len() > 0,
        ensures
            r.well_formed(),
            r.hosts() == texts(video_hosts@),
            r.index() == 0,
            r.video_url@ == "http://"@ + address@ + "/video?generation=0"@,
            r.audio_url@ == "http://"@ + address@ + "/audio"@,
            names_candidate(r, address@),
    {
        proof {
            reveal_strlit("/video?generation=0");
            reveal_strlit("/video?generation=");
            assert("/video?generation=0"@ =~= "/video?generation="@ + decimal(0));
        }
        let mut video_url = owned("http://");
        push_str(&mut video_url, address);
        push_str(&mut video_url, "/video?generation=0");
        let mut audio_url = owned("http://");
        push_str(&mut audio_url, address);
        push_str(&mut audio_url, "/audio");
        assert(video_url@ =~= "http://"@ + address@ + "/video?generation="@ + decimal(0));
        MediaProxy { video_url, audio_url, video_hosts, video_index: 0 }
    }

    /// The position of the candidate in use.
    pub fn video_index(&self) -> (r: usize)
        ensures
            r == self.index(),
    {
        self.video_index
    }

    /// Moves the video to the next candidate after corrupt data, charging
    /// the corruption to the host that delivered it. Gives the new player
    /// address, or nothing when no candidate is left.
    pub fn switch_video_cdn(&mut self, history: &mut CdnHistoryStore) -> (r: Option<String>)
        requires
            old(self).well_formed(),
            old(history).well_formed(),
        ensures
            final(self).well_formed(),
            final(history).well_formed(),
            final(self).hosts() == old(self).hosts(),
            final(self).audio_url == old(self).audio_url,
            old(self).index() + 1 >= old(self).hosts().len() ==> r is None && *final(self) == *old(self) && *final(history) == *old(history),
            old(self).index() + 1 < old(self).hosts().len() ==> {
                let host = old(self).hosts()[old(self).index() as int];
                &&& final(self).index() == old(self).index() + 1
                &&& r matches Some(u) && u@ == final(self).video_url@
                &&& final(self).video_url@ == before_query(old(self).video_url@) + "?generation="@ + decimal(final(self).index())
                &&& final(history).get(host) == Some(after_use(old(history).history_of(host), true))
                &&& forall|other: Seq<char>| other != host ==> #[trigger] final(history).get(other) == old(history).get(other)
            },
    {
        self.advance_video_cdn(true, history)
    }

    /// Moves the video to the next candidate without charging the current one.
    pub fn switch_video_cdn_for_test(&mut self, history: &mut CdnHistoryStore) -> (r: Option<String>)
        requires
            old(self).well_formed(),
            old(history).well_formed(),
        ensures
            final(self).well_formed(),
            *final(history) == *old(history),
            final(self).hosts() == old(self).hosts(),
            final(self).audio_url == old(self).audio_url,
            old(self).index() + 1 >= old(self).hosts().len() ==> r is None && *final(self) == *old(self),
            old(self).index() + 1 < old(self).hosts().len() ==> {
                &&& final(self).index() == old(self).index() + 1
                &&& r matches Some(u) && u@ == final(self).video_url@
                &&& final(self).video_url@ == before_query(old(self).video_url@) + "?generation="@ + decimal(final(self).index())
            },
    {
        self.advance_video_cdn(false, history)
    }

    fn advance_video_cdn(&mut self, record_corruption: bool, history: &mut CdnHistoryStore) -> (r: Option<String>)
        requires
            old(self).well_formed(),
            old(history).well_formed(),
        ensures
            final(self).well_formed(),
            final(history).well_formed(),
            final(self).hosts() == old(self).hosts(),
            final(self).audio_url == old(self).audio_url,
            old(self).index() + 1 >= old(self).hosts().len() ==> r is None && *final(self) == *old(self) && *final(history) == *old(history),
            old(self).index() + 1 < old(self).hosts().len() ==> {
                &&& final(self).index() == old(self).index() + 1
                &&& r matches Some(u) && u@ == final(self).video_url@
                &&& final(self).video_url@ == before_query(old(self).video_url@) + "?generation="@ + decimal(final(self).index())
            },
            old(self).index() + 1 < old(self).hosts().len() && record_corruption ==> {
                let host = old(self).hosts()[old(self).index() as int];
                &&& final(history).get(host) == Some(after_use(old(history).history_of(host), true))
                &&& forall|other: Seq<char>| other != host ==> #[trigger] final(history).get(other) == old(history).get(other)
            },
            !record_corruption ==> *final(history) == *old(history),
    {
        let current = self.video_index;
        let count = self.video_hosts.len();
        let next = current + 1;
        if next >= count {
            return None;
        }
        if record_corruption {
            record_cdn_result(history, self.video_hosts[current].as_str(), true);
        }
        self.video_index = next;
        let base = query_base(self.video_url.as_str());
        let mut url = string_from_chars(base.as_slice());
        push_str(&mut url, "?generation=");
        push_decimal(&mut url, next as u64);
        self.video_url = url;
        Some(self.video_url.clone())
    }

    /// Credits the candidate in use with a clean playback.
    pub fn record_success(&self, history: &mut CdnHistoryStore)
        requires
            self.well_formed(),
            old(history).well_formed(),
        ensures
            final(history).well_formed(),
            ({
                let host = self.hosts()[self.index() as int];
                &&& final(history).get(host) == Some(after_use(old(history).history_of(host), false))
                &&& forall|other: Seq<char>| other != host ==> #[trigger] final(history).get(other) == old(history).get(other)
            }),
    {
        record_cdn_result(history, self.video_hosts[self.video_index].as_str(), false);
    }
}

/// The characters of `url` before its first `?`.
fn query_base(url: &str) -> (r: Vec<char>)
    ensures
        r@ == before_query(url@),
{
    let s = chars_of(url);
    let mut r: Vec<char> = Vec::new();
    let mut i: usize = 0;
    while i < s.len() && s[i] != '?'
        invariant
            i <= s@.len(),
            r@ == s@.take(i as int),
            forall|j: int| 0 <= j < i ==> s@[j] != '?',
        decreases s@.len() - i,
    {
        r.push(s[i]);
        assert(s@.take(i + 1) =~= s@.take(i as int).push(s@[i as int]));
        i = i + 1;
    }
    proof {
        lemma_first_piece(s@, i as int);
    }
    r
}

proof fn lemma_first_piece(s: Seq<char>, i: int)
    requires
        0 <= i <= s.len(),
        forall|j: int| 0 <= j < i ==> s[j] != '?',
        i == s.len() || s[i] == '?',
    ensures
        split_by(s, |c: char| c == '?')[0] == s.take(i),
    decreases s.len(),
{
    let sep = |c: char| c == '?';
    lemma_split_by_nonempty(s, sep);
    if s.len() == 0 {
        assert(s.take(0) =~= Seq::<char>::empty());
    } else if i == s.len() {
        lemma_first_piece(s.drop_last(), i - 1);
        lemma_split_by_nonempty(s.drop_last(), sep);
        let prev = split_by(s.drop_last(), sep);
        assert(s.drop_last().take(i - 1) =~= s.take(i - 1));
        if prev.len() == 1 {
            assert(s.take(i) =~= s.take(i - 1).push(s.last()));
        } else {
            assert(split_by(s, sep)[0] == prev[0]);
            lemma_first_piece_stable(s.drop_last(), i - 1);
        }
    } else {
        lemma_first_piece(s.drop_last(), i);
        assert(s.drop_last().take(i) =~= s.take(i));
        lemma_split_by_nonempty(s.drop_last(), sep);
        let prev = split_by(s.drop_last(), sep);
        if i == s.len() - 1 {
            assert(split_by(s, sep)[0] == prev[0]);
        } else {
            lemma_piece_count(s.drop_last(), i);
            assert(split_by(s, sep)[0] == prev[0]);
        }
    }
}

proof fn lemma_first_piece_stable(s: Seq<char>, i: int)
    requires
        0 <= i <= s.len(),
        forall|j: int| 0 <= j < i ==> s[j] != '?',
        i == s.len(),
    ensures
        split_by(s, |c: char| c == '?').len() == 1,
    decreases s.len(),
{
    if s.len() > 0 {
        lemma_first_piece_stable(s.drop_last(), i - 1);
    }
}

proof fn lemma_piece_count(s: Seq<char>, i: int)
    requires
        0 <= i < s.len(),
        s[i] == '?',
    ensures
        split_by(s, |c: char| c == '?').len() >= 2,
    decreases s.len(),
{
    let sep = |c: char| c == '?';
    lemma_split_by_nonempty(s.drop_last(), sep);
    if i < s.len() - 1 {
        lemma_piece_count(s.drop_last(), i);
    }
}

} // verus!

verus! {

/// The longest request head the proxy reads: 32 KiB.
pub const MAX_REQUEST_HEAD: usize = 32768;

/// `bytes` holds the blank line that ends an HTTP request head.
pub open spec fn has_blank_line(bytes: Seq<u8>) -> bool {
    exists|i: int| 0 <= i && i + 4 <= bytes.len() && #[trigger] bytes.subrange(i, i + 4) == seq![13u8, 10u8, 13u8, 10u8]
}

/// Whether the proxy has read enough of a request: its head is complete, or
/// it has grown to the limit.
pub fn request_head_done(bytes: &[u8]) -> (r: bool)
    ensures
        r == (has_blank_line(bytes@) || bytes@.len() >= MAX_REQUEST_HEAD),
{
    let n = bytes.len();
    if n >= MAX_REQUEST_HEAD {
        return true;
    }
    let mut i: usize = 0;
    while i + 4 <= n
        invariant
            n == bytes@.len(),
            i <= n,
            n < MAX_REQUEST_HEAD,
            forall|j: int| 0 <= j < i && j + 4 <= n ==> #[trigger] bytes@.subrange(j, j + 4) != seq![13u8, 10u8, 13u8, 10u8],
        decreases n - i,
    {
        if bytes[i] == 13 && bytes[i + 1] == 10 && bytes[i + 2] == 13 && bytes[i + 3] == 10 {
            assert(bytes@.subrange(i as int, i + 4) =~= seq![13u8, 10u8, 13u8, 10u8]);
            return true;
        }
        assert(bytes@.subrange(i as int, i + 4) != seq![13u8, 10u8, 13u8, 10u8]) by {
            let w = bytes@.subrange(i as int, i + 4);
            if w == seq![13u8, 10u8, 13u8, 10u8] {
                assert(w[0] == bytes@[i as int] && w[1] == bytes@[i + 1] && w[2] == bytes@[i + 2] && w[3] == bytes@[i + 3]);
            }
        }
        i = i + 1;
    }
    false
}

/// The text of some bytes with each invalid UTF-8 sequence replaced by
/// U+FFFD, as `String::from_utf8_lossy` makes it.
pub uninterp spec fn lossy_text(bytes: Seq<u8>) -> Seq<char>;

/// `String::from_utf8_lossy`: the contract names the result, and states what
/// the std documentation says of valid input: it is decoded unchanged.
#[verifier::external_body]
fn text_of_bytes(bytes: &[u8]) -> (r: String)
    ensures
        r@ == lossy_text(bytes@),
        valid_utf8(bytes@) ==> r@ == decode_utf8(bytes@),
{
    String::from_utf8_lossy(bytes).into_owned()
}

/// A line without the carriage return that ended it.
pub open spec fn strip_cr(line: Seq<char>) -> Seq<char> {
    if line.len() > 0 && line.last() == '\r' {
        line.drop_last()
    } else {
        line
    }
}

/// The lines of a text as `str::lines` yields them: split at `\n`, each
/// terminated line without a closing `\r`, and no empty line after a final
/// line break.
pub open spec fn text_lines(text: Seq<char>) -> Seq<Seq<char>> {
    let pieces = split_by(text, |c: char| c == '\n');
    let terminated = pieces.drop_last().map_values(|p: Seq<char>| strip_cr(p));
    if pieces.last().len() == 0 {
        terminated
    } else {
        terminated.push(pieces.last())
    }
}

/// The path a request line asks for: its second word, or `/`.
pub open spec fn request_path(line: Seq<char>) -> Seq<char> {
    if words(line).len() > 1 {
        words(line)[1]
    } else {
        "/"@
    }
}

/// The value of a `Range:` (or `range:`) header line, trimmed.
pub open spec fn range_header(line: Seq<char>) -> Option<Seq<char>> {
    if has_prefix(line, "Range:"@) || has_prefix(line, "range:"@) {
        Some(trim(line.skip(6)))
    } else {
        None
    }
}

/// The first range header among `lines`.
pub open spec fn first_range_header(lines: Seq<Seq<char>>) -> Option<Seq<char>>
    decreases lines.len(),
{
    if lines.len() == 0 {
        None
    } else {
        match range_header(lines[0]) {
            Some(v) => Some(v),
            None => first_range_header(lines.skip(1)),
        }
    }
}

/// What the player asked the proxy for.
#[derive(Debug)]
pub struct ProxyRequest {
    pub path: String,
    pub range: Option<String>,
}

fn split_lines(s: &[char]) -> (r: Vec<Vec<char>>)
    ensures
        r@.map_values(|w: Vec<char>| w@) == split_by(s@, |c: char| c == '\n'),
{
    let n = s.len();
    let mut out: Vec<Vec<char>> = Vec::new();
    let mut cur: Vec<char> = Vec::new();
    let ghost sep = |c: char| c == '\n';
    assert(s@.take(0) =~= Seq::<char>::empty());
    for i in 0..n
        invariant
            n == s@.len(),
            sep == (|c: char| c == '\n'),
            out@.map_values(|w: Vec<char>| w@) == split_by(s@.take(i as int), sep).drop_last(),
            cur@ == split_by(s@.take(i as int), sep).last(),
    {
        let c = s[i];
        let ghost prefix = s@.take(i as int);
        let ghost pieces = split_by(prefix, sep);
        proof {
            lemma_split_by_nonempty(prefix, sep);
            assert(s@.take(i + 1).drop_last() =~= prefix);
            assert(s@.take(i + 1).last() == c);
        }
        if c == '\n' {
            let ghost before = out@;
            let line = cur;
            out.push(line);
            assert(out@.map_values(|w: Vec<char>| w@) =~= before.map_values(|w: Vec<char>| w@).push(pieces.last()));
            proof {
                let next = pieces.push(Seq::empty());
                assert(next.drop_last() =~= pieces);
                assert(pieces.drop_last().push(pieces.last()) =~= pieces);
            }
            cur = Vec::new();
        } else {
            cur.push(c);
            proof {
                let next = pieces.drop_last().push(pieces.last().push(c));
                assert(next.drop_last() =~= pieces.drop_last());
            }
        }
    }
    proof {
        lemma_split_by_nonempty(s@, sep);
        assert(s@.take(n as int) =~= s@);
        let pieces = split_by(s@, sep);
        assert(pieces.drop_last().push(pieces.last()) =~= pieces);
    }
    let ghost before = out@;
    out.push(cur);
    assert(out@.map_values(|w: Vec<char>| w@) =~= before.map_values(|w: Vec<char>| w@).push(split_by(s@, sep).last()));
    out
}

fn lines_of(s: &[char]) -> (r: Vec<Vec<char>>)
    ensures
        r@.map_values(|w: Vec<char>| w@) == text_lines(s@),
{
    let mut pieces = split_lines(s);
    let ghost all = pieces@.map_values(|w: Vec<char>| w@);
    proof {
        lemma_split_by_nonempty(s@, |c: char| c == '\n');
    }
    let last = pieces.pop().unwrap();
    let ghost terminated = all.drop_last().map_values(|p: Seq<char>| strip_cr(p));
    let mut out: Vec<Vec<char>> = Vec::new();
    for i in 0..pieces.len()
        invariant
            pieces@.map_values(|w: Vec<char>| w@) == all.drop_last(),
            out@.map_values(|w: Vec<char>| w@) == terminated.take(i as int),
            terminated == all.drop_last().map_values(|p: Seq<char>| strip_cr(p)),
    {
        let piece = &pieces[i];
        let ghost p = pieces@[i as int]@;
        assert(p == all.drop_last()[i as int]);
        let mut line: Vec<char> = Vec::new();
        let keep = if piece.len() > 0 && piece[piece.len() - 1] == '\r' {
            piece.len() - 1
        } else {
            piece.len()
        };
        let mut k: usize = 0;
        while k < keep
            invariant
                keep <= piece@.len(),
                k <= keep,
                line@ == piece@.take(k as int),
            decreases keep - k,
        {
            line.push(piece[k]);
            assert(piece@.take(k + 1) =~= piece@.take(k as int).push(piece@[k as int]));
            k = k + 1;
        }
        assert(line@ =~= strip_cr(p));
        let ghost before = out@;
        out.push(line);
        assert(out@.map_values(|w: Vec<char>| w@) =~= before.map_values(|w: Vec<char>| w@).push(strip_cr(p)));
        assert(terminated.take(i + 1) =~= terminated.take(i as int).push(strip_cr(p)));
    }
    assert(terminated.take(terminated.len() as int) =~= terminated);
    if last.len() > 0 {
        let ghost before = out@;
        out.push(last);
        assert(out@.map_values(|w: Vec<char>| w@) =~= before.map_values(|w: Vec<char>| w@).push(all.last()));
    }
    out
}

/// Reads the path and the range header out of a request head.
pub fn parse_request_head(text: &str) -> (r: Result<ProxyRequest, ProxyError>)
    ensures
        text_lines(text@).len() == 0 ==> r == Err::<ProxyRequest, ProxyError>(ProxyError::EmptyRequest),
        text_lines(text@).len() > 0 ==> (r matches Ok(req) && req.path@ == request_path(text_lines(text@)[0])
            && match req.range {
            Some(v) => first_range_header(text_lines(text@).skip(1)) == Some(v@),
            None => first_range_header(text_lines(text@).skip(1)) is None,
        }),
{
    let chars = chars_of(text);
    let lines = lines_of(chars.as_slice());
    let ghost ls = text_lines(text@);
    if lines.len() == 0 {
        return Err(ProxyError::EmptyRequest);
    }
    assert(lines@[0]@ == ls[0]);
    let first_words = words_of(lines[0].as_slice());
    let path = if first_words.len() > 1 {
        assert(first_words@[1]@ == words(ls[0])[1]);
        string_from_chars(first_words[1].as_slice())
    } else {
        proof {
            reveal_strlit("/");
        }
        owned("/")
    };
    let upper = chars_of("Range:");
    let lower = chars_of("range:");
    proof {
        reveal_strlit("Range:");
        reveal_strlit("range:");
    }
    let mut range: Option<String> = None;
    let mut i: usize = 1;
    while i < lines.len()
        invariant_except_break
            range is None,
        invariant
            1 <= i <= lines@.len(),
            upper@.len() == 6,
            lower@.len() == 6,
            lines@.map_values(|w: Vec<char>| w@) == ls,
            upper@ == "Range:"@,
            lower@ == "range:"@,
            "Range:"@.len() == 6,
            first_range_header(ls.skip(1)) == first_range_header(ls.skip(i as int)),
        ensures
            range matches Some(v) ==> first_range_header(ls.skip(1)) == Some(v@),
            range is None ==> i == lines@.len(),
        decreases lines@.len() - i,
    {
        let line = &lines[i];
        assert(line@ == ls[i as int]);
        assert(ls.skip(i as int)[0] == ls[i as int]);
        if starts_with(line.as_slice(), upper.as_slice()) || starts_with(line.as_slice(), lower.as_slice()) {
            let rest = chars_from(line.as_slice(), 6);
            let value = trim_chars(rest.as_slice());
            range = Some(string_from_chars(value.as_slice()));
            break;
        }
        assert(ls.skip(i as int).skip(1) =~= ls.skip(i + 1));
        i = i + 1;
    }
    proof {
        if range is None {
            assert(ls.skip(i as int) =~= Seq::<Seq<char>>::empty());
        }
    }
    Ok(ProxyRequest { path, range })
}

} // verus!

verus! {

/// Which stream a proxy request is for.
#[derive(Debug, Clone, Copy, PartialEq, Eq, Structural)]
pub enum Route {
    Video,
    Audio,
    NotFound,
}

/// The stream a request path names: paths under `/video` and `/audio`.
pub fn route_of(path: &str) -> (r: Route)
    ensures
        r == (if has_prefix(path@, "/video"@) {
            Route::Video
        } else if has_prefix(path@, "/audio"@) {
            Route::Audio
        } else {
            Route::NotFound
        }),
{
    let p = chars_of(path);
    let video = chars_of("/video");
    let audio = chars_of("/audio");
    if starts_with(p.as_slice(), video.as_slice()) {
        Route::Video
    } else if starts_with(p.as_slice(), audio.as_slice()) {
        Route::Audio
    } else {
        Route::NotFound
    }
}

/// The bytes `start..=end` of a cached prefix of `prefix_len` bytes that a
/// range request can be answered with, when the prefix holds them all. An
/// open range ends with the prefix.
pub open spec fn prefix_window_of(start: usize, requested_end: Option<usize>, prefix_len: usize) -> Option<(usize, usize)> {
    let end = match requested_end {
        Some(e) => e as int,
        None => if prefix_len > 0 {
            prefix_len - 1
        } else {
            0
        },
    };
    if end < prefix_len && start <= end {
        Some((start, end as usize))
    } else {
        None
    }
}

/// Whether the cached prefix answers a range request, and with which bytes.
pub fn prefix_window(start: usize, requested_end: Option<usize>, prefix_len: usize) -> (r: Option<(usize, usize)>)
    ensures
        r == prefix_window_of(start, requested_end, prefix_len),
        r matches Some((s, e)) ==> s <= e < prefix_len,
{
    let end = match requested_end {
        Some(e) => e,
        None => prefix_len.saturating_sub(1),
    };
    if end < prefix_len && start <= end {
        Some((start, end))
    } else {
        None
    }
}

/// The head of a partial answer served from the cached prefix.
pub open spec fn partial_content_head(start: usize, end: usize, total: u64) -> Seq<char> {
    "HTTP/1.1 206 Partial Content\r\nConnection: close\r\nContent-Type: video/mp4\r\nContent-Length: "@
        + decimal((end - start + 1) as nat) + "\r\nContent-Range: bytes "@ + decimal(start as nat) + "-"@
        + decimal(end as nat) + "/"@ + decimal(total as nat) + "\r\nAccept-Ranges: bytes\r\n\r\n"@
}

/// Writes the head of a partial answer for bytes `start..=end` of a file of
/// `total` bytes.
pub fn partial_content_response_head(start: usize, end: usize, total: u64) -> (r: String)
    requires
        start <= end < usize::MAX,
    ensures
        r@ == partial_content_head(start, end, total),
{
    let mut head = owned("HTTP/1.1 206 Partial Content\r\nConnection: close\r\nContent-Type: video/mp4\r\nContent-Length: ");
    push_decimal(&mut head, (end - start + 1) as u64);
    push_str(&mut head, "\r\nContent-Range: bytes ");
    push_decimal(&mut head, start as u64);
    push_str(&mut head, "-");
    push_decimal(&mut head, end as u64);
    push_str(&mut head, "/");
    push_decimal(&mut head, total);
    push_str(&mut head, "\r\nAccept-Ranges: bytes\r\n\r\n");
    head
}

/// The answer to a request for neither stream.
pub fn not_found_response() -> (r: String)
    ensures
        r@ == "HTTP/1.1 404 Not Found\r\nContent-Length: 0\r\n\r\n"@,
{
    owned("HTTP/1.1 404 Not Found\r\nContent-Length: 0\r\n\r\n")
}

/// One response header passed on from the CDN.
pub struct HeaderLine {
    pub name: String,
    pub value: String,
}

/// The header lines `name: value` for each passed-on header.
pub open spec fn header_lines(headers: Seq<HeaderLine>) -> Seq<char>
    decreases headers.len(),
{
    if headers.len() == 0 {
        Seq::empty()
    } else {
        header_lines(headers.drop_last()) + headers.last().name@ + ": "@ + headers.last().value@
            + "\r\n"@
    }
}

/// Adding a header to the passed-on ones adds exactly its line
/// `name: value` after the lines of the others: every passed-on header is
/// relayed, in order, and none is dropped or changed.
pub proof fn header_lines_grow_by_each_header(headers: Seq<HeaderLine>, h: HeaderLine)
    ensures
        header_lines(headers.push(h)) == header_lines(headers) + h.name@ + ": "@ + h.value@
            + "\r\n"@,
        header_lines(Seq::<HeaderLine>::empty()).len() == 0,
{
    assert(headers.push(h).drop_last() =~= headers);
    assert(headers.push(h).last() == h);
}

/// The head of an answer relayed from the CDN: its status, the passed-on
/// headers, and that ranges are accepted.
pub open spec fn relayed_head(status: u16, reason: Seq<char>, headers: Seq<HeaderLine>) -> Seq<char> {
    "HTTP/1.1 "@ + decimal(status as nat) + " "@ + reason + "\r\nConnection: close\r\n"@
        + header_lines(headers) + "Accept-Ranges: bytes\r\n\r\n"@
}

/// Writes the head of an answer relayed from the CDN.
pub fn relayed_response_head(status: u16, reason: &str, headers: &Vec<HeaderLine>) -> (r: String)
    ensures
        r@ == relayed_head(status, reason@, headers@),
{
    let mut head = owned("HTTP/1.1 ");
    push_decimal(&mut head, status as u64);
    push_str(&mut head, " ");
    push_str(&mut head, reason);
    push_str(&mut head, "\r\nConnection: close\r\n");
    let ghost start = head@;
    for i in 0..headers.len()
        invariant
            head@ == start + header_lines(headers@.take(i as int)),
    {
        let ghost before = head@;
        push_str(&mut head, headers[i].name.as_str());
        push_str(&mut head, ": ");
        push_str(&mut head, headers[i].value.as_str());
        push_str(&mut head, "\r\n");
        assert(headers@.take(i + 1).drop_last() =~= headers@.take(i as int));
        assert(head@ =~= start + header_lines(headers@.take(i + 1)));
    }
    assert(headers@.take(headers@.len() as int) =~= headers@);
    push_str(&mut head, "Accept-Ranges: bytes\r\n\r\n");
    assert(head@ =~= relayed_head(status, reason@, headers@));
    head
}

} // verus!

verus! {

/// The range header value a player writes for bytes from `start`, up to
/// `end` when it names one.
pub open spec fn range_request(start: usize, end: Option<usize>) -> Seq<char> {
    "bytes="@ + decimal(start as nat) + "-"@ + match end {
        Some(e) => decimal(e as nat),
        None => Seq::empty(),
    }
}

/// The proxy reads back exactly the range a player asks for.
pub proof fn range_request_reads_back(start: usize, end: Option<usize>)
    ensures
        parsed_range(range_request(start, end)) == Some((start, end)),
{
    reveal_strlit("bytes=");
    reveal_strlit("-");
    let a = decimal(start as nat);
    let b = match end {
        Some(e) => decimal(e as nat),
        None => Seq::<char>::empty(),
    };
    let v = range_request(start, end);
    lemma_decimal_reads_back(start as nat);
    parse_usize_reads_decimal(start);
    assert(v =~= "bytes="@ + (a + "-"@ + b));
    assert(v.subrange(0, 6) =~= "bytes="@);
    let rest = v.skip(6);
    assert(rest =~= a + "-"@ + b);
    let i = a.len() as int;
    assert(rest[i] == '-');
    assert(forall|j: int| 0 <= j < i ==> rest[j] == a[j]);
    assert(forall|j: int| 0 <= j < i ==> rest[j] != '-') by {
        assert forall|j: int| 0 <= j < i implies rest[j] != '-' by {
            assert(is_digit(a[j]));
        }
    }
    let k = choose|k: int| 0 <= k < rest.len() && rest[k] == '-' && forall|j: int| 0 <= j < k ==> rest[j] != '-';
    assert(k == i) by {
        if k < i {
            assert(rest[k] != '-');
        } else if k > i {
            assert(rest[i] != '-');
        }
    }
    assert(rest.take(i) =~= a);
    assert(rest.skip(i + 1) =~= b);
    match end {
        Some(e) => {
            lemma_decimal_reads_back(e as nat);
            parse_usize_reads_decimal(e);
        },
        None => {},
    }
}

} // verus!

verus! {

/// The full size a `Content-Range` value states after its last `/`, or zero
/// when that part is not a number.
pub open spec fn stated_total(value: Seq<char>) -> u64 {
    match parsed_u64(split_by(value, |c: char| c == '/').last()) {
        Some(t) => t,
        None => 0,
    }
}

/// Reads the full size out of a `Content-Range` header value.
pub fn content_range_total(value: &str) -> (r: u64)
    ensures
        r == stated_total(value@),
{
    let v = chars_of(value);
    let n = v.len();
    let mut i: usize = n;
    while i > 0 && v[i - 1] != '/'
        invariant
            n == v@.len(),
            i <= n,
            forall|j: int| i <= j < n ==> v@[j] != '/',
        decreases i,
    {
        i = i - 1;
    }
    let tail = chars_from(v.as_slice(), i);
    proof {
        lemma_last_piece(v@, i as int);
    }
    match parse_u64(tail.as_slice()) {
        Some(t) => t,
        None => 0,
    }
}

proof fn lemma_last_piece(s: Seq<char>, i: int)
    requires
        0 <= i <= s.len(),
        forall|j: int| i <= j < s.len() ==> s[j] != '/',
        i == 0 || s[i - 1] == '/',
    ensures
        split_by(s, |c: char| c == '/').last() == s.skip(i),
    decreases s.len(),
{
    let sep = |c: char| c == '/';
    if s.len() == 0 {
        assert(s.skip(i) =~= Seq::<char>::empty());
    } else if i == s.len() {
        assert(s.skip(i) =~= Seq::<char>::empty());
    } else {
        lemma_last_piece(s.drop_last(), i);
        lemma_split_by_nonempty(s.drop_last(), sep);
        assert(s.drop_last().skip(i).push(s.last()) =~= s.skip(i));
    }
}

} // verus!

verus! {

/// Reads the path and the range header out of the raw bytes of a request
/// head, decoding them as `String::from_utf8_lossy` does.
pub fn parse_request_bytes(bytes: &[u8]) -> (r: Result<ProxyRequest, ProxyError>)
    ensures
        text_lines(lossy_text(bytes@)).len() == 0 ==> r == Err::<ProxyRequest, ProxyError>(ProxyError::EmptyRequest),
        text_lines(lossy_text(bytes@)).len() > 0 ==> (r matches Ok(req) && req.path@ == request_path(text_lines(lossy_text(bytes@))[0])
            && match req.range {
            Some(v) => first_range_header(text_lines(lossy_text(bytes@)).skip(1)) == Some(v@),
            None => first_range_header(text_lines(lossy_text(bytes@)).skip(1)) is None,
        }),
{
    let text = text_of_bytes(bytes);
    parse_request_head(text.as_str())
}

} // verus!

verus! {

/// How the proxy answers a request.
#[derive(Debug, Clone, Copy, PartialEq, Eq, Structural)]
pub enum Answer {
    /// No stream is behind the path: an empty 404.
    NotFound,
    /// The bytes `start..=end` of the cached start of the video.
    Prefix { start: usize, end: usize },
    /// The request goes on to the CDN address in use.
    Relay,
}

/// The answer to a request for `route`, where `has_candidate` says whether
/// an address serves that stream, `range` is its range header, and
/// `prefix_len` the length of the cached start of the video in use, if any:
/// a range inside the cached start of the video is answered from it.
pub open spec fn answer_of(
    route: Route,
    has_candidate: bool,
    range: Option<Seq<char>>,
    prefix_len: Option<usize>,
) -> Answer {
    if !has_candidate {
        Answer::NotFound
    } else if route != Route::Video {
        Answer::Relay
    } else {
        match range {
            Some(v) => match parsed_range(v) {
                Some((start, end)) => match prefix_len {
                    Some(n) => match prefix_window_of(start, end, n) {
                        Some((a, b)) => Answer::Prefix { start: a, end: b },
                        None => Answer::Relay,
                    },
                    None => Answer::Relay,
                },
                None => Answer::Relay,
            },
            None => Answer::Relay,
        }
    }
}

/// Decides how to answer a request (see `answer_of`).
pub fn answer(route: Route, has_candidate: bool, range: Option<&str>, prefix_len: Option<usize>) -> (r:
    Answer)
    ensures
        r == answer_of(
            route,
            has_candidate,
            match range {
                Some(v) => Some(v@),
                None => None,
            },
            prefix_len,
        ),
        r matches Answer::Prefix { start, end } ==> prefix_len matches Some(n) && start <= end < n,
{
    if !has_candidate {
        return Answer::NotFound;
    }
    if route != Route::Video {
        return Answer::Relay;
    }
    let value = match range {
        Some(v) => v,
        None => return Answer::Relay,
    };
    let (start, end) = match parse_range(value) {
        Some(p) => p,
        None => return Answer::Relay,
    };
    let n = match prefix_len {
        Some(n) => n,
        None => return Answer::Relay,
    };
    match prefix_window(start, end, n) {
        Some((a, b)) => Answer::Prefix { start: a, end: b },
        None => Answer::Relay,
    }
}

/// The player's video address names the candidate in use, behind the
/// proxy's listening `address`.
pub open spec fn names_candidate(proxy: MediaProxy, address: Seq<char>) -> bool {
    proxy.video_url@ == "http://"@ + address + "/video?generation="@ + decimal(proxy.index())
}

proof fn lemma_base_of_video_address(address: Seq<char>, d: Seq<char>)
    requires
        forall|j: int| 0 <= j < address.len() ==> address[j] != '?',
    ensures
        before_query("http://"@ + address + "/video?generation="@ + d) == "http://"@ + address + "/video"@,
{
    reveal_strlit("http://");
    reveal_strlit("/video?generation=");
    reveal_strlit("/video");
    let base = "http://"@ + address + "/video"@;
    let s = "http://"@ + address + "/video?generation="@ + d;
    assert(s =~= base + ("?generation="@ + d)) by {
        reveal_strlit("?generation=");
    }
    reveal_strlit("?generation=");
    let i = base.len() as int;
    assert(s[i] == '?');
    assert forall|j: int| 0 <= j < i implies s[j] != '?' by {
        assert(s[j] == base[j]);
        if j < 7 {
        } else if j < 7 + address.len() {
            assert(base[j] == address[j - 7]);
        } else {
        }
    }
    lemma_first_piece(s, i);
    assert(s.take(i) =~= base);
}

/// Every video address the proxy hands out names the candidate it serves:
/// a new proxy names its first candidate, and a switch keeps the address
/// naming the candidate in use.
pub proof fn video_address_names_candidate(before: MediaProxy, after: MediaProxy, address: Seq<char>)
    requires
        forall|j: int| 0 <= j < address.len() ==> address[j] != '?',
        names_candidate(before, address),
        after.video_url@ == before_query(before.video_url@) + "?generation="@ + decimal(after.index()),
    ensures
        names_candidate(after, address),
{
    reveal_strlit("/video?generation=");
    reveal_strlit("/video");
    reveal_strlit("?generation=");
    lemma_base_of_video_address(address, decimal(before.index()));
    assert("http://"@ + address + "/video"@ + "?generation="@ + decimal(after.index()) =~= "http://"@
        + address + "/video?generation="@ + decimal(after.index()));
}

} // verus!
