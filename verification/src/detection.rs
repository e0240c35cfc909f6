//! IOC lookups on hashes, addresses and domains, rare ports and beaconing.
use vstd::prelude::*;
use crate::beacon::{BeaconLog, lemma_cleanup_keeps_recent, recent, recent_pred};
use crate::records::{IocEntry, opt_string_view};
use crate::text::{concat, str_eq};
use crate::winpath::{extension, extension_of};

verus! {

/// Result of a lookup against the IOC cache.
#[derive(Debug, Clone)]
pub struct IocMatch {
    pub ioc_type: String,
    pub value: String,
    pub source: String,
    pub confidence: i64,
    pub tags: Option<String>,
    pub is_allowlist: bool,
}

impl IocMatch {
    /// The match reported for a cached IOC entry.
    pub fn from_entry(e: IocEntry) -> (r: IocMatch)
        ensures
            r.ioc_type@ == e.ioc_type@,
            r.value@ == e.value@,
            r.source@ == e.source@,
            r.confidence == e.confidence,
            opt_string_view(r.tags) == opt_string_view(e.tags),
            r.is_allowlist == e.is_allowlist,
    {
        IocMatch {
            ioc_type: e.ioc_type,
            value: e.value,
            source: e.source,
            confidence: e.confidence,
            tags: e.tags,
            is_allowlist: e.is_allowlist,
        }
    }
}

/// The lookup hit an allowlist entry: such a hash annuls any detection.
pub open spec fn allowlisted(m: Option<IocMatch>) -> bool {
    m matches Some(x) && x.is_allowlist
}

/// The (IOC type, value) lookups a file's hashes need, in the order the cache
/// is asked: SHA-256, SHA-1, MD5, each only when present.
pub open spec fn hash_query_list(sha256: Seq<char>, sha1: Seq<char>, md5: Seq<char>) -> Seq<
    (Seq<char>, Seq<char>),
> {
    (if sha256.len() > 0 {
        seq![("sha256"@, sha256)]
    } else {
        seq![]
    }) + (if sha1.len() > 0 {
        seq![("sha1"@, sha1)]
    } else {
        seq![]
    }) + (if md5.len() > 0 {
        seq![("md5"@, md5)]
    } else {
        seq![]
    })
}

/// The lookups to make for a file's hashes, in the order `best_hash_match`
/// weighs their answers.
pub fn hash_queries(sha256: &str, sha1: &str, md5: &str) -> (r: Vec<(&'static str, String)>)
    ensures
        r@.map_values(|q: (&'static str, String)| (q.0@, q.1@)) == hash_query_list(
            sha256@,
            sha1@,
            md5@,
        ),
{
    let mut r: Vec<(&'static str, String)> = Vec::new();
    if !sha256.is_empty() {
        r.push(("sha256", String::from_str(sha256)));
    }
    if !sha1.is_empty() {
        r.push(("sha1", String::from_str(sha1)));
    }
    if !md5.is_empty() {
        r.push(("md5", String::from_str(md5)));
    }
    assert(r@.map_values(|q: (&'static str, String)| (q.0@, q.1@)) =~= hash_query_list(
        sha256@,
        sha1@,
        md5@,
    ));
    r
}

/// The single lookup to make for a value of the given IOC type: none for an
/// empty value, which is never looked up.
pub fn single_query(ioc_type: &'static str, value: &str) -> (r: Option<(&'static str, String)>)
    ensures
        r is Some <==> value@.len() > 0,
        r matches Some(q) ==> q.0@ == ioc_type@ && q.1@ == value@,
{
    if value.is_empty() {
        None
    } else {
        Some((ioc_type, String::from_str(value)))
    }
}

/// The confidence of a cache answer that hit.
pub open spec fn hit_confidence(o: Option<IocEntry>) -> int {
    match o {
        Some(e) => e.confidence as int,
        None => 0,
    }
}

/// Among the first `n` cache answers, the index of the first hit with the
/// highest confidence, or -1 when none of them hit.
pub open spec fn best_index(hits: Seq<Option<IocEntry>>, n: int) -> int
    decreases n,
{
    if n <= 0 {
        -1
    } else {
        let b = best_index(hits, n - 1);
        if hits[n - 1] is Some && (b < 0 || hit_confidence(hits[n - 1]) > hit_confidence(hits[b])) {
            n - 1
        } else {
            b
        }
    }
}

/// The best hit is a hit, none has a higher confidence, and every earlier hit
/// has a lower one: it is the first of the highest-confidence hits. There is
/// none only when no answer hit.
pub proof fn lemma_best_index(hits: Seq<Option<IocEntry>>, n: int)
    requires
        0 <= n <= hits.len(),
    ensures
        -1 <= best_index(hits, n) < n,
        best_index(hits, n) >= 0 ==> hits[best_index(hits, n)] is Some,
        best_index(hits, n) < 0 ==> forall|j: int| 0 <= j < n ==> #[trigger] hits[j] is None,
        best_index(hits, n) >= 0 ==> forall|j: int|
            0 <= j < n && #[trigger] hits[j] is Some ==> hit_confidence(hits[j]) <= hit_confidence(
                hits[best_index(hits, n)],
            ),
        best_index(hits, n) >= 0 ==> forall|j: int|
            0 <= j < best_index(hits, n) && #[trigger] hits[j] is Some ==> hit_confidence(hits[j])
                < hit_confidence(hits[best_index(hits, n)]),
    decreases n,
{
    if n > 0 {
        lemma_best_index(hits, n - 1);
    }
}

/// The match reported for a file: of the cache's answers to the lookups
/// `hash_queries` lists, in that order, the first hit with the highest
/// confidence (`lemma_best_index`); `None` when none hit.
pub fn best_hash_match(hits: Vec<Option<IocEntry>>) -> (r: Option<IocMatch>)
    ensures
        ({
            let b = best_index(hits@, hits@.len() as int);
            match r {
                None => b < 0,
                Some(m) => {
                    &&& b >= 0
                    &&& hits@[b] matches Some(e)
                    &&& m.ioc_type@ == e.ioc_type@
                    &&& m.value@ == e.value@
                    &&& m.source@ == e.source@
                    &&& m.confidence == e.confidence
                    &&& opt_string_view(m.tags) == opt_string_view(e.tags)
                    &&& m.is_allowlist == e.is_allowlist
                },
            }
        }),
{
    let mut best: usize = 0;
    let mut found = false;
    let mut i: usize = 0;
    while i < hits.len()
        invariant
            i <= hits.len(),
            found ==> best < i && best_index(hits@, i as int) == best as int,
            !found ==> best_index(hits@, i as int) == -1,
        decreases hits.len() - i,
    {
        proof {
            lemma_best_index(hits@, i as int);
        }
        match &hits[i] {
            Some(e) => {
                let better = if found {
                    match &hits[best] {
                        Some(b) => e.confidence > b.confidence,
                        None => false,
                    }
                } else {
                    true
                };
                if better {
                    best = i;
                    found = true;
                }
            },
            None => {},
        }
        i += 1;
    }
    if !found {
        return None;
    }
    let ghost h0 = hits@;
    proof {
        lemma_best_index(h0, h0.len() as int);
    }
    let mut hits = hits;
    let chosen = hits.remove(best);
    assert(chosen == h0[best as int]);
    match chosen {
        Some(e) => Some(IocMatch::from_entry(e)),
        None => None,
    }
}

/// Ports considered common/expected for outbound traffic.
pub open spec fn common_port_list() -> Seq<u16> {
    seq![20, 21, 22, 25, 53, 80, 110, 143, 443, 465, 587, 993, 995, 3389, 8080, 8443, 8888]
}

/// The common ports, in the order `common_port_list` gives.
pub fn common_ports() -> (r: Vec<u16>)
    ensures
        r@ == common_port_list(),
{
    let r = vec![20u16, 21, 22, 25, 53, 80, 110, 143, 443, 465, 587, 993, 995, 3389, 8080, 8443, 8888];
    assert(r@ =~= common_port_list());
    r
}

fn port_in(list: &Vec<u16>, port: u16) -> (r: bool)
    ensures
        r == list@.contains(port),
{
    let mut i: usize = 0;
    while i < list.len()
        invariant
            i <= list.len(),
            forall|k: int| 0 <= k < i ==> list@[k] != port,
        decreases list.len() - i,
    {
        if list[i] == port {
            return true;
        }
        i += 1;
    }
    false
}

/// Result from network IOC or behaviour analysis.
#[derive(Debug, Clone)]
pub struct NetworkThreatResult {
    pub ip: String,
    pub port: u16,
    pub pid: u32,
    pub threat_type: NetworkThreatType,
    pub score: u8,
    pub ioc_source: Option<String>,
    pub details: String,
}

#[derive(Debug, Clone, Copy, PartialEq, Eq, Structural)]
pub enum NetworkThreatType {
    IocIp,
    IocDomain,
    Beaconing,
    RarePort,
    TorExitNode,
    HighFrequency,
}

/// The score of an IOC hit: its confidence truncated to a byte, at most 100.
pub open spec fn confidence_score(c: i64) -> u8 {
    if (c as u8) < 100 {
        c as u8
    } else {
        100
    }
}

fn score_of_confidence(c: i64) -> (r: u8)
    ensures
        r == confidence_score(c),
{
    let b = c as u8;
    if b < 100 {
        b
    } else {
        100
    }
}

/// The score a blocking IOC hit carries is its confidence capped at 100: a
/// confidence in 0..=100 is the score itself, one in 101..=255 scores 100, and
/// no score exceeds 100.
pub proof fn lemma_confidence_is_score(c: i64)
    ensures
        0 <= c <= 100 ==> confidence_score(c) == c,
        100 < c <= 255 ==> confidence_score(c) == 100,
        confidence_score(c) <= 100,
{
}

/// An address is worth looking up: it is neither empty nor unspecified.
pub open spec fn ip_worth_checking(ip: Seq<char>) -> bool {
    !(ip.len() == 0 || ip == "0.0.0.0"@ || ip == "::"@)
}

/// A cache hit that reports a threat: found and not allowlisted.
pub open spec fn blocking_hit(lookup: Option<IocEntry>) -> bool {
    lookup matches Some(e) && !e.is_allowlist
}

/// A cache hit on an allowlist (warninglist) entry.
pub open spec fn allowlist_hit(lookup: Option<IocEntry>) -> bool {
    lookup matches Some(e) && e.is_allowlist
}

/// Beaconing: more than this many connections to one host within the window.
pub const BEACON_THRESHOLD: usize = 10;

/// Connections count towards beaconing while less than this many seconds old (60 s inclusive).
pub const BEACON_LIMIT_SECS: i64 = 61;

/// Cleanup keeps timestamps less than this many seconds old (5 minutes inclusive).
pub const CLEANUP_LIMIT_SECS: i64 = 301;

/// Cleaning up the beacon tracker at `now` (which keeps five minutes) never
/// changes what a beaconing check at `now` or any later instant counts (one
/// minute), and what the cleanup keeps lies within five minutes of `now`.
pub proof fn lemma_cleanup_preserves_beaconing(ts: Seq<i64>, now: i64, later: i64)
    requires
        now <= later,
    ensures
        recent(recent(ts, now, CLEANUP_LIMIT_SECS as int), later, BEACON_LIMIT_SECS as int)
            == recent(ts, later, BEACON_LIMIT_SECS as int),
        forall|k: int|
            0 <= k < recent(ts, now, CLEANUP_LIMIT_SECS as int).len() ==> now - #[trigger] recent(
                ts,
                now,
                CLEANUP_LIMIT_SECS as int,
            )[k] <= 300,
{
    lemma_cleanup_keeps_recent(
        ts,
        now,
        later,
        BEACON_LIMIT_SECS as int,
        CLEANUP_LIMIT_SECS as int,
    );
    let kept = recent(ts, now, CLEANUP_LIMIT_SECS as int);
    assert forall|k: int| 0 <= k < kept.len() implies now - #[trigger] kept[k] <= 300 by {
        ts.lemma_filter_pred(recent_pred(now, CLEANUP_LIMIT_SECS as int), k);
    }
}

/// Decides on cache hits for remote peers and tracks beaconing.
pub struct NetworkDetector {
    beacon_tracker: BeaconLog,
}

impl NetworkDetector {
    /// The connection timestamps recorded for a process and remote address.
    pub closed spec fn beacon_times(self, pid: u32, remote: Seq<char>) -> Seq<i64> {
        self.beacon_tracker.times(pid, remote)
    }

    /// A detector with no recorded connections.
    pub fn new() -> (r: NetworkDetector)
        ensures
            forall|pid: u32, remote: Seq<char>| #[trigger] r.beacon_times(pid, remote) == Seq::<i64>::empty(),
    {
        NetworkDetector { beacon_tracker: BeaconLog::new() }
    }

    /// Report a remote IP whose cache lookup (`lookup`, for IOC type `ip`) is a
    /// non-allowlisted hit; empty and unspecified addresses are never reported.
    pub fn check_ip(&self, ip: &str, port: u16, pid: u32, lookup: Option<IocEntry>) -> (r: Option<
        NetworkThreatResult,
    >)
        ensures
            r is Some <==> (ip_worth_checking(ip@) && blocking_hit(lookup)),
            r matches Some(t) ==> {
                &&& t.ip@ == ip@
                &&& t.port == port
                &&& t.pid == pid
                &&& t.threat_type == NetworkThreatType::IocIp
                &&& t.score == confidence_score(lookup->0.confidence)
                &&& opt_string_view(t.ioc_source) == Some(lookup->0.source@)
                &&& t.details@ == "IP "@ + ip@ + " found in IOC feed"@
            },
    {
        if ip.is_empty() || str_eq(ip, "0.0.0.0") || str_eq(ip, "::") {
            return None;
        }
        match lookup {
            Some(entry) => {
                if !entry.is_allowlist {
                    let d = concat("IP ", ip);
                    Some(
                        NetworkThreatResult {
                            ip: String::from_str(ip),
                            port,
                            pid,
                            threat_type: NetworkThreatType::IocIp,
                            score: score_of_confidence(entry.confidence),
                            ioc_source: Some(entry.source),
                            details: concat(d.as_str(), " found in IOC feed"),
                        },
                    )
                } else {
                    None
                }
            },
            None => None,
        }
    }

    /// Report a domain whose cache lookup (for IOC type `domain`) is a
    /// non-allowlisted hit; the empty domain is never reported.
    pub fn check_domain(&self, domain: &str, pid: u32, lookup: Option<IocEntry>) -> (r: Option<
        NetworkThreatResult,
    >)
        ensures
            r is Some <==> (domain@.len() > 0 && blocking_hit(lookup)),
            r matches Some(t) ==> {
                &&& t.ip@ == domain@
                &&& t.port == 0
                &&& t.pid == pid
                &&& t.threat_type == NetworkThreatType::IocDomain
                &&& t.score == confidence_score(lookup->0.confidence)
                &&& opt_string_view(t.ioc_source) == Some(lookup->0.source@)
                &&& t.details@ == "Domain "@ + domain@ + " found in IOC feed"@
            },
    {
        if domain.is_empty() {
            return None;
        }
        match lookup {
            Some(entry) => {
                if !entry.is_allowlist {
                    let d = concat("Domain ", domain);
                    Some(
                        NetworkThreatResult {
                            ip: String::from_str(domain),
                            port: 0,
                            pid,
                            threat_type: NetworkThreatType::IocDomain,
                            score: score_of_confidence(entry.confidence),
                            ioc_source: Some(entry.source),
                            details: concat(d.as_str(), " found in IOC feed"),
                        },
                    )
                } else {
                    None
                }
            },
            None => None,
        }
    }

    /// Determine if a port is unusual for outbound connections: not a common
    /// one, and either a well-known port (below 1024) or a dynamic one (above
    /// 49151). Port 0 stands for no port and is never rare.
    pub fn is_rare_port(&self, port: u16) -> (r: bool)
        ensures
            r == (port != 0 && !common_port_list().contains(port) && (port < 1024 || port
                > 49151)),
    {
        let common = common_ports();
        port != 0 && !port_in(&common, port) && (port < 1024 || port > 49151)
    }

    /// Record a connection event and detect beaconing: more than 10 connections
    /// to the same host within the last 60 seconds, this one included.
    pub fn record_and_check_beaconing(&mut self, pid: u32, remote_ip: &str, now_epoch: i64) -> (r:
        bool)
        ensures
            final(self).beacon_times(pid, remote_ip@) == recent(
                old(self).beacon_times(pid, remote_ip@),
                now_epoch,
                61,
            ).push(now_epoch),
            forall|p: u32, q: Seq<char>|
                !(p == pid && q == remote_ip@) ==> #[trigger] final(self).beacon_times(p, q)
                    == old(self).beacon_times(p, q),
            r == (final(self).beacon_times(pid, remote_ip@).len() > 10),
    {
        self.beacon_tracker.record(pid, remote_ip, now_epoch, BEACON_LIMIT_SECS, BEACON_THRESHOLD)
    }

    /// Clean up stale beacon tracking entries older than 5 minutes.
    pub fn cleanup_beacon_tracker(&mut self, now_epoch: i64)
        ensures
            forall|p: u32, q: Seq<char>|
                #[trigger] final(self).beacon_times(p, q) == recent(
                    old(self).beacon_times(p, q),
                    now_epoch,
                    301,
                ),
    {
        self.beacon_tracker.cleanup(now_epoch, CLEANUP_LIMIT_SECS);
    }
}

/// A string match inside a YARA rule match.
#[derive(Debug, Clone)]
pub struct YaraStringMatch {
    pub identifier: String,
    pub offset: u64,
    pub data: Vec<u8>,
}

/// A YARA rule that matched.
#[derive(Debug, Clone)]
pub struct YaraMatch {
    /// YARA rule identifier
    pub rule_name: String,
    /// Namespace of the matched rule
    pub namespace: String,
    /// Tag annotations from the rule
    pub tags: Vec<String>,
    /// Offset and data of matched strings
    pub strings: Vec<YaraStringMatch>,
}

/// The rules compiled into every YARA detector before any other.
pub const BUILTIN_RULES: &'static str = r#"
rule PE_Executable
{
    meta:
        description = "Detects Windows PE executable"
        severity = "info"
    strings:
        $mz = { 4D 5A }
    condition:
        $mz at 0
}

rule Suspicious_PowerShell_Download
{
    meta:
        description = "PowerShell download cradle"
        severity = "high"
    strings:
        $a = "DownloadString" nocase
        $b = "IEX" nocase
        $c = "Invoke-Expression" nocase
        $d = "Net.WebClient" nocase
    condition:
        2 of ($a, $b, $c, $d)
}

rule Ransomware_Extension_Rename
{
    meta:
        description = "Potential ransomware file extension rename pattern"
        severity = "critical"
    strings:
        $a = ".encrypted" nocase
        $b = ".locked" nocase
        $c = ".crypto" nocase
        $d = "YOUR_FILES_ARE_ENCRYPTED" nocase
        $e = "HOW_TO_DECRYPT" nocase
    condition:
        any of them
}

rule LOLBin_CertUtil_Download
{
    meta:
        description = "CertUtil used for file download (LOLBin)"
        severity = "high"
    strings:
        $a = "certutil" nocase
        $b = "-urlcache" nocase
        $c = "-decode" nocase
    condition:
        $a and ($b or $c)
}

rule Suspicious_Base64_Payload
{
    meta:
        description = "Large base64 encoded payload in script"
        severity = "medium"
    strings:
        $b64 = /[A-Za-z0-9+\/]{200,}={0,2}/
    condition:
        $b64
}

rule Mimikatz_Strings
{
    meta:
        description = "Mimikatz credential dumper strings"
        severity = "critical"
    strings:
        $a = "mimikatz" nocase
        $b = "sekurlsa" nocase
        $c = "lsadump" nocase
        $d = "wdigest" nocase
    condition:
        2 of them
}
"#;

/// A file of YARA rules is one whose extension is `yar` or `yara`.
pub open spec fn rule_file(path: Seq<char>) -> bool {
    extension_of(path) == Some("yar"@) || extension_of(path) == Some("yara"@)
}

/// Whether a file holds YARA rules, by its extension.
pub fn is_rule_file(path: &str) -> (r: bool)
    ensures
        r == rule_file(path@),
{
    match extension(path) {
        Some(e) => str_eq(e.as_str(), "yar") || str_eq(e.as_str(), "yara"),
        None => false,
    }
}

/// The matches of one string of a rule: its identifier and, per match, the
/// offset and the matched bytes.
#[derive(Debug, Clone)]
pub struct StringHits {
    pub identifier: String,
    pub hits: Vec<(u64, Vec<u8>)>,
}

/// One string match, as character and byte sequences.
pub ghost struct StringMatchView {
    pub identifier: Seq<char>,
    pub offset: u64,
    pub data: Seq<u8>,
}

/// The view of a string match.
pub open spec fn string_match_view(m: YaraStringMatch) -> StringMatchView {
    StringMatchView { identifier: m.identifier@, offset: m.offset, data: m.data@ }
}

/// The matches of one string, each under the string's identifier.
pub open spec fn hits_of(s: StringHits) -> Seq<StringMatchView> {
    s.hits@.map_values(|h: (u64, Vec<u8>)| StringMatchView { identifier: s.identifier@, offset: h.0, data: h.1@ })
}

/// The matches of all strings, string by string.
pub open spec fn all_hits(ss: Seq<StringHits>) -> Seq<StringMatchView>
    decreases ss.len(),
{
    if ss.len() == 0 {
        seq![]
    } else {
        all_hits(ss.drop_last()) + hits_of(ss.last())
    }
}

/// Flatten the matches of a rule's strings into one list, string by string
/// and match by match.
pub fn flatten_string_matches(strings: &Vec<StringHits>) -> (r: Vec<YaraStringMatch>)
    ensures
        r@.map_values(|m: YaraStringMatch| string_match_view(m)) == all_hits(strings@),
{
    let mut out: Vec<YaraStringMatch> = Vec::new();
    let mut i: usize = 0;
    while i < strings.len()
        invariant
            i <= strings.len(),
            out@.map_values(|m: YaraStringMatch| string_match_view(m)) == all_hits(strings@.take(i as int)),
        decreases strings.len() - i,
    {
        let s = &strings[i];
        let ghost base = out@.map_values(|m: YaraStringMatch| string_match_view(m));
        let mut j: usize = 0;
        while j < s.hits.len()
            invariant
                j <= s.hits.len(),
                out@.map_values(|m: YaraStringMatch| string_match_view(m)) == base + hits_of(*s).take(j as int),
            decreases s.hits.len() - j,
        {
            let data = copy_bytes(&s.hits[j].1);
            let m = YaraStringMatch { identifier: s.identifier.clone(), offset: s.hits[j].0, data };
            let ghost before = out@;
            out.push(m);
            assert(out@.map_values(|m: YaraStringMatch| string_match_view(m)) =~= before.map_values(
                |m: YaraStringMatch| string_match_view(m),
            ).push(string_match_view(m)));
            assert(hits_of(*s).take(j + 1) =~= hits_of(*s).take(j as int).push(hits_of(*s)[j as int]));
            j += 1;
        }
        assert(hits_of(*s).take(s.hits.len() as int) =~= hits_of(*s));
        assert(strings@.take(i + 1).drop_last() =~= strings@.take(i as int));
        i += 1;
    }
    assert(strings@.take(strings.len() as int) =~= strings@);
    out
}

fn copy_bytes(v: &Vec<u8>) -> (r: Vec<u8>)
    ensures
        r@ == v@,
{
    let mut r: Vec<u8> = Vec::new();
    let mut i: usize = 0;
    while i < v.len()
        invariant
            i <= v.len(),
            r@ =~= v@.take(i as int),
        decreases v.len() - i,
    {
        r.push(v[i]);
        i += 1;
        assert(r@ =~= v@.take(i as int));
    }
    assert(v@.take(v.len() as int) =~= v@);
    r
}

} // verus!
