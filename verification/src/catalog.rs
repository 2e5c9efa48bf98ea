//! The catalog of Bilibili CDN hosts: which hosts exist, how they are found
//! in published lists, and which serve the user's region.

use vstd::prelude::*;
use crate::text::{
    ascii_lowercase, chars_of, compare_chars, contains, ends_with, has_prefix, has_substring,
    has_suffix, is_alphanumeric_char, is_ascii_alphanumeric, is_ascii_upper, lemma_lex_transitive,
    lex_less, lowercase_string, owned, starts_with, texts, Rank,
};

verus! {

broadcast use vstd::string::group_string_axioms;

/// Where the user is, as far as CDN choice goes.
#[derive(Debug, Clone, Copy, PartialEq, Eq, Structural)]
pub enum Region {
    MainlandChina,
    Overseas,
}

/// The country code the zone service reports for mainland China.
pub const MAINLAND_CHINA_COUNTRY_CODE: i64 = 86;

/// The region of a country code reported by the zone service.
pub fn region_for_country_code(country_code: i64) -> (r: Region)
    ensures
        r == (if country_code == 86 {
            Region::MainlandChina
        } else {
            Region::Overseas
        }),
{
    if country_code == MAINLAND_CHINA_COUNTRY_CODE {
        Region::MainlandChina
    } else {
        Region::Overseas
    }
}

/// `c` may be part of a host name token.
pub open spec fn is_host_char(c: char) -> bool {
    is_ascii_alphanumeric(c) || c == '.' || c == '-'
}

/// The pieces of `s` between characters that cannot be part of a host name,
/// as `str::split` with that predicate yields them (empty pieces included).
pub open spec fn split_tokens(s: Seq<char>) -> Seq<Seq<char>>
    decreases s.len(),
{
    if s.len() == 0 {
        seq![Seq::empty()]
    } else {
        let prev = split_tokens(s.drop_last());
        if is_host_char(s.last()) {
            prev.drop_last().push(prev.last().push(s.last()))
        } else {
            prev.push(Seq::empty())
        }
    }
}

/// A token that names a Bilibili video CDN host.
pub open spec fn is_cdn_token(t: Seq<char>) -> bool {
    (has_prefix(t, "upos-"@) || has_prefix(t, "proxy-"@)) && (has_suffix(t, "bilivideo.com"@)
        || has_suffix(t, "bilibilivideo.com"@) || has_suffix(t, "akamaized.net"@))
}

/// The CDN host tokens among `tokens`, in order and in lower case.
pub open spec fn cdn_hosts_of(tokens: Seq<Seq<char>>) -> Seq<Seq<char>>
    decreases tokens.len(),
{
    if tokens.len() == 0 {
        Seq::empty()
    } else {
        let rest = cdn_hosts_of(tokens.drop_last());
        if is_cdn_token(tokens.last()) {
            rest.push(ascii_lowercase(tokens.last()))
        } else {
            rest
        }
    }
}

/// The CDN host names that occur in a text.
pub open spec fn extracted_hosts(text: Seq<char>) -> Seq<Seq<char>> {
    cdn_hosts_of(split_tokens(text))
}

struct TokenPatterns {
    upos: Vec<char>,
    proxy: Vec<char>,
    bilivideo: Vec<char>,
    bilibilivideo: Vec<char>,
    akamaized: Vec<char>,
}

impl TokenPatterns {
    spec fn valid(&self) -> bool {
        &&& self.upos@ == "upos-"@
        &&& self.proxy@ == "proxy-"@
        &&& self.bilivideo@ == "bilivideo.com"@
        &&& self.bilibilivideo@ == "bilibilivideo.com"@
        &&& self.akamaized@ == "akamaized.net"@
    }

    fn new() -> (r: TokenPatterns)
        ensures
            r.valid(),
    {
        TokenPatterns {
            upos: chars_of("upos-"),
            proxy: chars_of("proxy-"),
            bilivideo: chars_of("bilivideo.com"),
            bilibilivideo: chars_of("bilibilivideo.com"),
            akamaized: chars_of("akamaized.net"),
        }
    }

    fn matches(&self, t: &[char]) -> (r: bool)
        requires
            self.valid(),
        ensures
            r == is_cdn_token(t@),
    {
        (starts_with(t, self.upos.as_slice()) || starts_with(t, self.proxy.as_slice())) && (
        ends_with(t, self.bilivideo.as_slice()) || ends_with(t, self.bilibilivideo.as_slice())
            || ends_with(t, self.akamaized.as_slice()))
    }
}

proof fn lemma_split_tokens_nonempty(s: Seq<char>)
    ensures
        split_tokens(s).len() >= 1,
    decreases s.len(),
{
    if s.len() > 0 {
        lemma_split_tokens_nonempty(s.drop_last());
    }
}

/// The CDN host names found in `text`: the pieces between characters that
/// cannot belong to a host name, kept when they start with `upos-` or
/// `proxy-` and end with a Bilibili CDN domain, in lower case.
pub fn extract_hosts(text: &str) -> (r: Vec<String>)
    ensures
        texts(r@) == extracted_hosts(text@),
{
    let chars = chars_of(text);
    let patterns = TokenPatterns::new();
    let mut out: Vec<String> = Vec::new();
    let mut cur: Vec<char> = Vec::new();
    let n = chars.len();
    assert(chars@.take(0) =~= Seq::<char>::empty());
    for i in 0..n
        invariant
            n == chars@.len(),
            chars@ == text@,
            patterns.valid(),
            texts(out@) == cdn_hosts_of(split_tokens(chars@.take(i as int)).drop_last()),
            cur@ == split_tokens(chars@.take(i as int)).last(),
    {
        let c = chars[i];
        let ghost prefix = chars@.take(i as int);
        let ghost toks = split_tokens(prefix);
        proof {
            lemma_split_tokens_nonempty(prefix);
            assert(chars@.take(i + 1).drop_last() =~= prefix);
            assert(chars@.take(i + 1).last() == c);
        }
        let host_char = is_alphanumeric_char(c) || c == '.' || c == '-';
        if host_char {
            cur.push(c);
            proof {
                let next = toks.drop_last().push(toks.last().push(c));
                assert(next.drop_last() =~= toks.drop_last());
            }
        } else {
            let ghost before = out@;
            if patterns.matches(cur.as_slice()) {
                let host = lowercase_string(cur.as_slice());
                out.push(host);
                assert(texts(out@) =~= texts(before).push(ascii_lowercase(toks.last())));
            }
            proof {
                let next = toks.push(Seq::empty());
                assert(next.drop_last() =~= toks);
                assert(toks.drop_last().push(toks.last()) =~= toks);
            }
            cur = Vec::new();
        }
    }
    proof {
        lemma_split_tokens_nonempty(chars@);
        assert(chars@.take(n as int) =~= chars@);
        let toks = split_tokens(chars@);
        assert(toks.drop_last().push(toks.last()) =~= toks);
    }
    let ghost before = out@;
    if patterns.matches(cur.as_slice()) {
        let host = lowercase_string(cur.as_slice());
        out.push(host);
        assert(texts(out@) =~= texts(before).push(ascii_lowercase(cur@)));
    }
    out
}

/// A host served from outside mainland China.
pub open spec fn is_overseas(host: Seq<char>) -> bool {
    has_substring(host, "akamaized"@) || has_substring(host, "asiaov"@) || has_substring(
        host,
        "cosov"@,
    )
}

/// Whether `host` is one of the overseas CDN hosts.
pub fn is_overseas_host(host: &str) -> (r: bool)
    ensures
        r == is_overseas(host@),
        r <==> (has_substring(host@, "akamaized"@) || has_substring(host@, "asiaov"@)
            || has_substring(host@, "cosov"@)),
{
    let h = chars_of(host);
    let akamaized = chars_of("akamaized");
    let asiaov = chars_of("asiaov");
    let cosov = chars_of("cosov");
    contains(h.as_slice(), akamaized.as_slice()) || contains(h.as_slice(), asiaov.as_slice())
        || contains(h.as_slice(), cosov.as_slice())
}

} // verus!

verus! {

/// Each element comes strictly before the next in lexicographic order, so
/// none occurs twice.
pub open spec fn strictly_sorted(s: Seq<Seq<char>>) -> bool {
    forall|i: int, j: int| 0 <= i < j < s.len() ==> lex_less(#[trigger] s[i], #[trigger] s[j])
}

/// A set of host names kept in sorted order, as a `BTreeSet<String>` keeps them.
#[derive(Debug)]
pub struct HostSet {
    hosts: Vec<String>,
}

impl HostSet {
    /// The hosts in order.
    pub closed spec fn items(&self) -> Seq<Seq<char>> {
        texts(self.hosts@)
    }

    pub closed spec fn well_formed(&self) -> bool {
        strictly_sorted(self.items())
    }

    pub fn new() -> (r: HostSet)
        ensures
            r.well_formed(),
            r.items().len() == 0,
    {
        HostSet { hosts: Vec::new() }
    }

    fn slot(&self, host: &String) -> (r: (usize, bool))
        ensures
            r.0 <= self.items().len(),
            forall|j: int| 0 <= j < r.0 ==> lex_less(#[trigger] self.items()[j], host@),
            r.1 ==> r.0 < self.items().len() && self.items()[r.0 as int] == host@,
            !r.1 ==> r.0 == self.items().len() || lex_less(host@, self.items()[r.0 as int]),
    {
        let key = chars_of(host.as_str());
        let mut p: usize = 0;
        while p < self.hosts.len()
            invariant
                key@ == host@,
                p <= self.hosts@.len(),
                forall|j: int| 0 <= j < p ==> lex_less(#[trigger] self.items()[j], host@),
            decreases self.hosts@.len() - p,
        {
            let other = chars_of(self.hosts[p].as_str());
            match compare_chars(other.as_slice(), key.as_slice()) {
                Rank::Before => {
                    p = p + 1;
                },
                Rank::Same => {
                    return (p, true);
                },
                Rank::After => {
                    return (p, false);
                },
            }
        }
        (p, false)
    }

    /// Adds `host` unless it is there already.
    pub fn insert(&mut self, host: String)
        requires
            old(self).well_formed(),
        ensures
            final(self).well_formed(),
            forall|h: Seq<char>| #[trigger] final(self).items().contains(h) <==> old(self).items().contains(h) || h == host@,
    {
        let ghost items = self.items();
        let (p, same) = self.slot(&host);
        if same {
            return;
        }
        proof {
            let s = items.insert(p as int, host@);
            assert forall|i: int, j: int| 0 <= i < j < s.len() implies lex_less(
                #[trigger] s[i],
                #[trigger] s[j],
            ) by {
                if j < p {
                } else if j == p {
                } else if i < p {
                    assert(s[j] == items[j - 1]);
                    lemma_lex_transitive(items[i], host@, items[p as int]);
                    if j - 1 > p {
                        lemma_lex_transitive(items[i], items[p as int], items[j - 1]);
                    }
                } else if i == p {
                    assert(s[j] == items[j - 1]);
                    if j - 1 > p {
                        lemma_lex_transitive(host@, items[p as int], items[j - 1]);
                    }
                } else {
                    assert(s[i] == items[i - 1] && s[j] == items[j - 1]);
                }
            }
        }
        let ghost old_hosts = self.hosts@;
        self.hosts.insert(p, host);
        proof {
            assert(self.items() =~= items.insert(p as int, host@));
            assert forall|h: Seq<char>| #[trigger] self.items().contains(h) <==> items.contains(h) || h == host@ by {
                let s = self.items();
                if s.contains(h) {
                    let i = choose|i: int| 0 <= i < s.len() && s[i] == h;
                    if i < p {
                        assert(items[i] == h);
                    } else if i > p {
                        assert(items[i - 1] == h);
                    }
                }
                if items.contains(h) {
                    let i = choose|i: int| 0 <= i < items.len() && items[i] == h;
                    if i < p {
                        assert(s[i] == h);
                    } else {
                        assert(s[i + 1] == h);
                    }
                }
                if h == host@ {
                    assert(s[p as int] == h);
                }
            }
        }
    }

    /// The hosts in order.
    pub fn into_vec(self) -> (r: Vec<String>)
        ensures
            texts(r@) == self.items(),
    {
        self.hosts
    }
}

} // verus!

verus! {

/// How long a catalog or a detected region stays fresh: one day, in seconds.
pub const REFRESH_SECS: i64 = 86400;

/// The CDN hosts that are always in the catalog.
pub open spec fn builtin_hosts() -> Seq<Seq<char>> {
    seq![
        "upos-sz-mirrorali.bilivideo.com"@,
        "upos-sz-mirrorali02.bilivideo.com"@,
        "upos-sz-mirrorbos.bilivideo.com"@,
        "upos-sz-mirrorcos.bilivideo.com"@,
        "upos-sz-mirrorhw.bilivideo.com"@,
        "upos-sz-mirrorks3.bilivideo.com"@,
        "upos-sz-mirrorkodo.bilivideo.com"@,
        "upos-sz-mirrorwcs.bilivideo.com"@,
        "upos-sz-mirrorxycdn.bilivideo.com"@,
        "upos-sz-upcdntx.bilivideo.com"@,
        "upos-hz-mirrorakam.akamaized.net"@,
        "upos-sz-mirrorasiaov.bilibilivideo.com"@,
        "upos-sz-mirrorcosov.bilivideo.com"@,
    ]
}

/// A host belongs in a refreshed catalog: it is built in, or it was found
/// in one of the fetched lists.
pub open spec fn in_refreshed_catalog(h: Seq<char>, fetched: Seq<Seq<char>>) -> bool {
    builtin_hosts().contains(h) || exists|i: int| 0 <= i < fetched.len() && (#[trigger] extracted_hosts(fetched[i])).contains(h)
}

/// A host serves `region`.
pub open spec fn serves(host: Seq<char>, region: Region) -> bool {
    match region {
        Region::MainlandChina => !is_overseas(host),
        Region::Overseas => is_overseas(host),
    }
}

/// The hosts of `hosts` that serve `region`, in order.
pub open spec fn hosts_serving(hosts: Seq<Seq<char>>, region: Region) -> Seq<Seq<char>>
    decreases hosts.len(),
{
    if hosts.len() == 0 {
        Seq::empty()
    } else {
        let rest = hosts_serving(hosts.drop_last(), region);
        if serves(hosts.last(), region) {
            rest.push(hosts.last())
        } else {
            rest
        }
    }
}

/// The cached CDN catalog and detected region, with the times they were refreshed.
#[derive(Debug, Clone)]
pub struct CatalogCache {
    pub updated_at: i64,
    pub region_updated_at: i64,
    pub region: Option<Region>,
    pub hosts: Vec<String>,
}

fn add_builtin_hosts(set: &mut HostSet)
    requires
        old(set).well_formed(),
    ensures
        final(set).well_formed(),
        forall|h: Seq<char>| #[trigger] final(set).items().contains(h) <==> old(set).items().contains(h) || builtin_hosts().contains(h),
{
    let ghost start = set.items();
    set.insert(owned("upos-sz-mirrorali.bilivideo.com"));
    set.insert(owned("upos-sz-mirrorali02.bilivideo.com"));
    set.insert(owned("upos-sz-mirrorbos.bilivideo.com"));
    set.insert(owned("upos-sz-mirrorcos.bilivideo.com"));
    set.insert(owned("upos-sz-mirrorhw.bilivideo.com"));
    set.insert(owned("upos-sz-mirrorks3.bilivideo.com"));
    set.insert(owned("upos-sz-mirrorkodo.bilivideo.com"));
    set.insert(owned("upos-sz-mirrorwcs.bilivideo.com"));
    set.insert(owned("upos-sz-mirrorxycdn.bilivideo.com"));
    set.insert(owned("upos-sz-upcdntx.bilivideo.com"));
    set.insert(owned("upos-hz-mirrorakam.akamaized.net"));
    set.insert(owned("upos-sz-mirrorasiaov.bilibilivideo.com"));
    set.insert(owned("upos-sz-mirrorcosov.bilivideo.com"));
    proof {
        let b = builtin_hosts();
        assert forall|h: Seq<char>| #[trigger] set.items().contains(h) <==> start.contains(h) || b.contains(h) by {
            if b.contains(h) {
                let i = choose|i: int| 0 <= i < b.len() && b[i] == h;
            }
            if h == b[0] || h == b[1] || h == b[2] || h == b[3] || h == b[4] || h == b[5] || h == b[6]
                || h == b[7] || h == b[8] || h == b[9] || h == b[10] || h == b[11] || h == b[12] {
                assert(b.contains(h));
            }
        }
    }
}

impl CatalogCache {
    /// An empty cache, as when nothing was saved yet.
    pub fn empty() -> (r: CatalogCache)
        ensures
            r.updated_at == 0,
            r.region_updated_at == 0,
            r.region is None,
            r.hosts@.len() == 0,
    {
        CatalogCache { updated_at: 0, region_updated_at: 0, region: None, hosts: Vec::new() }
    }

    /// The host list is a day old, or empty, and should be fetched again.
    pub fn needs_host_refresh(&self, now: i64) -> (r: bool)
        requires
            i64::MIN <= now - self.updated_at <= i64::MAX,
        ensures
            r == (now - self.updated_at >= REFRESH_SECS || self.hosts@.len() == 0),
    {
        now - self.updated_at >= REFRESH_SECS || self.hosts.len() == 0
    }

    /// Rebuilds the host list from the built-in hosts and the host names found
    /// in the fetched lists, sorted and without repetition, stamped with `now`.
    pub fn refresh_hosts(&mut self, fetched: &Vec<String>, now: i64)
        ensures
            final(self).updated_at == now,
            final(self).region_updated_at == old(self).region_updated_at,
            final(self).region == old(self).region,
            strictly_sorted(texts(final(self).hosts@)),
            forall|h: Seq<char>| #[trigger] texts(final(self).hosts@).contains(h) <==> in_refreshed_catalog(h, texts(fetched@)),
    {
        let mut set = HostSet::new();
        add_builtin_hosts(&mut set);
        let ghost lists = texts(fetched@);
        for i in 0..fetched.len()
            invariant
                lists == texts(fetched@),
                set.well_formed(),
                forall|h: Seq<char>| #[trigger] set.items().contains(h) <==> builtin_hosts().contains(h) || exists|k: int| 0 <= k < i && (#[trigger] extracted_hosts(lists[k])).contains(h),
        {
            let found = extract_hosts(fetched[i].as_str());
            let ghost before = set.items();
            let ghost found_texts = texts(found@);
            for j in 0..found.len()
                invariant
                    found_texts == texts(found@),
                    set.well_formed(),
                    forall|h: Seq<char>| #[trigger] set.items().contains(h) <==> before.contains(h) || found_texts.take(j as int).contains(h),
            {
                let ghost mid = set.items();
                set.insert(found[j].clone());
                proof {
                    assert forall|h: Seq<char>| #[trigger] set.items().contains(h) <==> before.contains(h) || found_texts.take(j + 1).contains(h) by {
                        let t1 = found_texts.take(j as int);
                        let t2 = found_texts.take(j + 1);
                        if t2.contains(h) {
                            let k = choose|k: int| 0 <= k < t2.len() && t2[k] == h;
                            if k < j {
                                assert(t1[k] == h);
                            }
                        }
                        if t1.contains(h) {
                            let k = choose|k: int| 0 <= k < t1.len() && t1[k] == h;
                            assert(t2[k] == h);
                        }
                        if h == found_texts[j as int] {
                            assert(t2[j as int] == h);
                        }
                    }
                }
            }
            proof {
                assert(found_texts.take(found_texts.len() as int) =~= found_texts);
                assert(found_texts == extracted_hosts(lists[i as int]));
                assert forall|h: Seq<char>| #[trigger] set.items().contains(h) <==> builtin_hosts().contains(h) || exists|k: int| 0 <= k < i + 1 && (#[trigger] extracted_hosts(lists[k])).contains(h) by {
                    if exists|k: int| 0 <= k < i + 1 && (#[trigger] extracted_hosts(lists[k])).contains(h) {
                        let k = choose|k: int| 0 <= k < i + 1 && (#[trigger] extracted_hosts(lists[k])).contains(h);
                    }
                }
            }
        }
        self.hosts = set.into_vec();
        self.updated_at = now;
    }

    /// The region is a day old, or unknown, and should be detected again.
    pub fn needs_region_refresh(&self, now: i64) -> (r: bool)
        requires
            i64::MIN <= now - self.region_updated_at <= i64::MAX,
        ensures
            r == (now - self.region_updated_at >= REFRESH_SECS || self.region is None),
    {
        now - self.region_updated_at >= REFRESH_SECS || self.region.is_none()
    }

    /// Records a freshly detected region.
    pub fn set_region(&mut self, region: Region, now: i64)
        ensures
            final(self).region == Some(region),
            final(self).region_updated_at == now,
            final(self).updated_at == old(self).updated_at,
            final(self).hosts == old(self).hosts,
    {
        self.region = Some(region);
        self.region_updated_at = now;
    }

    /// The region to serve: the detected one, or overseas when none is known.
    pub fn current_region(&self) -> (r: Region)
        ensures
            r == (match self.region {
                Some(region) => region,
                None => Region::Overseas,
            }),
    {
        match self.region {
            Some(region) => region,
            None => Region::Overseas,
        }
    }

    /// The region and the catalog hosts that serve it, in catalog order.
    pub fn regional_hosts(&self) -> (r: (Region, Vec<String>))
        ensures
            r.0 == (match self.region {
                Some(region) => region,
                None => Region::Overseas,
            }),
            texts(r.1@) == hosts_serving(texts(self.hosts@), r.0),
    {
        let region = self.current_region();
        let mut out: Vec<String> = Vec::new();
        let ghost all = texts(self.hosts@);
        for i in 0..self.hosts.len()
            invariant
                all == texts(self.hosts@),
                texts(out@) == hosts_serving(all.take(i as int), region),
        {
            let overseas = is_overseas_host(self.hosts[i].as_str());
            let keep = match region {
                Region::MainlandChina => !overseas,
                Region::Overseas => overseas,
            };
            let ghost before = out@;
            proof {
                assert(all.take(i + 1).drop_last() =~= all.take(i as int));
                assert(all.take(i + 1).last() == all[i as int]);
            }
            if keep {
                out.push(self.hosts[i].clone());
                assert(texts(out@) =~= texts(before).push(all[i as int]));
            }
        }
        assert(all.take(all.len() as int) =~= all);
        (region, out)
    }
}

} // verus!

verus! {

proof fn lemma_hosts_serving_contains(hosts: Seq<Seq<char>>, region: Region, h: Seq<char>)
    ensures
        hosts_serving(hosts, region).contains(h) <==> hosts.contains(h) && serves(h, region),
    decreases hosts.len(),
{
    if hosts.len() > 0 {
        let init = hosts.drop_last();
        lemma_hosts_serving_contains(init, region, h);
        let rest = hosts_serving(init, region);
        assert(hosts =~= init.push(hosts.last()));
        if hosts.contains(h) {
            let i = choose|i: int| 0 <= i < hosts.len() && hosts[i] == h;
            if i < hosts.len() - 1 {
                assert(init[i] == h);
            }
        }
        if init.contains(h) {
            let i = choose|i: int| 0 <= i < init.len() && init[i] == h;
            assert(hosts[i] == h);
        }
        if serves(hosts.last(), region) {
            let r = rest.push(hosts.last());
            if rest.contains(h) {
                let i = choose|i: int| 0 <= i < rest.len() && rest[i] == h;
                assert(r[i] == h);
            }
            if r.contains(h) {
                let i = choose|i: int| 0 <= i < r.len() && r[i] == h;
                if i < rest.len() {
                    assert(rest[i] == h);
                }
            }
            if h == hosts.last() {
                assert(r[rest.len() as int] == h);
            }
        }
    }
}

/// A host is an overseas host exactly when its name holds one of the
/// markers `akamaized`, `asiaov` or `cosov`: a catalog host with none of them
/// is offered in mainland China and not overseas, and one with any of them
/// is offered overseas and not in mainland China.
pub proof fn overseas_exactly_by_markers(hosts: Seq<Seq<char>>, h: Seq<char>)
    ensures
        !has_substring(h, "akamaized"@) && !has_substring(h, "asiaov"@) && !has_substring(h, "cosov"@)
            ==> serves(h, Region::MainlandChina) && !serves(h, Region::Overseas),
        has_substring(h, "akamaized"@) || has_substring(h, "asiaov"@) || has_substring(h, "cosov"@)
            ==> serves(h, Region::Overseas) && !serves(h, Region::MainlandChina),
        hosts.contains(h) && !has_substring(h, "akamaized"@) && !has_substring(h, "asiaov"@)
            && !has_substring(h, "cosov"@) ==> hosts_serving(hosts, Region::MainlandChina).contains(h)
            && !hosts_serving(hosts, Region::Overseas).contains(h),
{
    lemma_hosts_serving_contains(hosts, Region::MainlandChina, h);
    lemma_hosts_serving_contains(hosts, Region::Overseas, h);
}

/// The two regions split the catalog: every catalog host is offered in
/// exactly one of them, and each region offers only catalog hosts.
pub proof fn regions_partition_catalog(hosts: Seq<Seq<char>>, h: Seq<char>)
    ensures
        hosts.contains(h) ==> hosts_serving(hosts, Region::MainlandChina).contains(h) != hosts_serving(hosts, Region::Overseas).contains(h),
        hosts_serving(hosts, Region::MainlandChina).contains(h) ==> hosts.contains(h),
        hosts_serving(hosts, Region::Overseas).contains(h) ==> hosts.contains(h),
{
    lemma_hosts_serving_contains(hosts, Region::MainlandChina, h);
    lemma_hosts_serving_contains(hosts, Region::Overseas, h);
}

} // verus!

verus! {

/// No character of `p` is an ASCII upper-case letter.
pub open spec fn has_no_upper(p: Seq<char>) -> bool {
    forall|j: int| 0 <= j < p.len() ==> !is_ascii_upper(#[trigger] p[j])
}

proof fn lemma_lowering_keeps_affixes(t: Seq<char>, p: Seq<char>)
    requires
        has_no_upper(p),
    ensures
        has_prefix(t, p) ==> has_prefix(ascii_lowercase(t), p),
        has_suffix(t, p) ==> has_suffix(ascii_lowercase(t), p),
{
    let l = ascii_lowercase(t);
    if has_prefix(t, p) {
        assert(l.subrange(0, p.len() as int) =~= p) by {
            assert forall|j: int| 0 <= j < p.len() implies l.subrange(0, p.len() as int)[j] == p[j] by {
                assert(t.subrange(0, p.len() as int)[j] == t[j]);
            }
        }
    }
    if has_suffix(t, p) {
        let o = t.len() - p.len();
        assert(l.subrange(o, t.len() as int) =~= p) by {
            assert forall|j: int| 0 <= j < p.len() implies l.subrange(o, t.len() as int)[j] == p[j] by {
                assert(t.subrange(o, o + p.len())[j] == t[o + j]);
            }
        }
    }
}

proof fn lemma_lowering_is_idempotent(t: Seq<char>)
    ensures
        ascii_lowercase(ascii_lowercase(t)) == ascii_lowercase(t),
{
    assert(ascii_lowercase(ascii_lowercase(t)) =~= ascii_lowercase(t));
}

proof fn lemma_cdn_affixes_are_lower_case()
    ensures
        has_no_upper("upos-"@),
        has_no_upper("proxy-"@),
        has_no_upper("bilivideo.com"@),
        has_no_upper("bilibilivideo.com"@),
        has_no_upper("akamaized.net"@),
{
    reveal_strlit("upos-");
    reveal_strlit("proxy-");
    reveal_strlit("bilivideo.com");
    reveal_strlit("bilibilivideo.com");
    reveal_strlit("akamaized.net");
}

/// Every host found in a text is a CDN host name in lower case: it starts
/// with `upos-` or `proxy-`, ends with a Bilibili CDN domain, and lowering
/// it again changes nothing.
pub proof fn extracted_hosts_are_normalized(text: Seq<char>, i: int)
    requires
        0 <= i < extracted_hosts(text).len(),
    ensures
        is_cdn_token(extracted_hosts(text)[i]),
        ascii_lowercase(extracted_hosts(text)[i]) == extracted_hosts(text)[i],
{
    lemma_cdn_hosts_normalized(split_tokens(text), i);
}

proof fn lemma_cdn_hosts_normalized(tokens: Seq<Seq<char>>, i: int)
    requires
        0 <= i < cdn_hosts_of(tokens).len(),
    ensures
        is_cdn_token(cdn_hosts_of(tokens)[i]),
        ascii_lowercase(cdn_hosts_of(tokens)[i]) == cdn_hosts_of(tokens)[i],
    decreases tokens.len(),
{
    let rest = cdn_hosts_of(tokens.drop_last());
    if i < rest.len() {
        lemma_cdn_hosts_normalized(tokens.drop_last(), i);
    } else {
        let t = tokens.last();
        lemma_cdn_affixes_are_lower_case();
        lemma_lowering_keeps_affixes(t, "upos-"@);
        lemma_lowering_keeps_affixes(t, "proxy-"@);
        lemma_lowering_keeps_affixes(t, "bilivideo.com"@);
        lemma_lowering_keeps_affixes(t, "bilibilivideo.com"@);
        lemma_lowering_keeps_affixes(t, "akamaized.net"@);
        lemma_lowering_is_idempotent(t);
    }
}

} // verus!
