//! Decisions of the file monitor: bursts of modifications in a directory, and
//! what a scanned file scores and records.
use vstd::prelude::*;
use crate::beacon::{BeaconLog, recent};
use crate::detection::{IocMatch, allowlisted};
use crate::heuristic::{
    HeuristicResult, analyse_file, analysed_factors, analysed_flags, appdata_hint,
    is_suspicious_extension, suspicious_extension_names, temp_hint,
};
use crate::jsontext::{json_list, json_quoted, json_string, json_string_list};
use crate::records::{Event, Threat, opt_string_view};
use crate::scoring::{RiskLevel, ScoreFactors, calculate_score, level_of, risk_level, score_of};
use crate::text::{str_lowercase, views};
use crate::winpath::{extension, extension_of, parent, parent_of, path_starts_with, starts_with_path};

verus! {

/// Modifications within this many seconds of the latest count towards a burst.
pub const BURST_WINDOW_SECS: i64 = 10;

/// This many recent modifications in one directory suggest ransomware.
pub const BURST_THRESHOLD: usize = 50;

/// Files larger than this many bytes (50 MiB) are not hashed.
pub const MAX_SCAN_BYTES: u64 = 52_428_800;

/// Timestamps (seconds) of recent modifications, per directory.
pub struct ModificationTracker {
    log: BeaconLog,
}

impl ModificationTracker {
    /// The modification times recorded for a directory.
    pub closed spec fn times(self, dir: Seq<char>) -> Seq<i64> {
        self.log.times(0, dir)
    }

    /// A tracker with no recorded modification.
    pub fn new() -> (r: ModificationTracker)
        ensures
            forall|dir: Seq<char>| #[trigger] r.times(dir) == Seq::<i64>::empty(),
    {
        ModificationTracker { log: BeaconLog::new() }
    }

    /// Record a modification of `path` at `now` (seconds since the epoch) under
    /// its parent directory, first dropping that directory's times more than
    /// 10 seconds before `now`. The directory is returned when more than 50
    /// times remain; a path without a parent is not recorded.
    pub fn record(&mut self, path: &str, now: i64) -> (r: Option<String>)
        ensures
            match parent_of(path@) {
                None => {
                    &&& r is None
                    &&& forall|d: Seq<char>| #[trigger] final(self).times(d) == old(self).times(d)
                },
                Some(dir) => {
                    &&& final(self).times(dir) == recent(
                        old(self).times(dir),
                        now,
                        BURST_WINDOW_SECS + 1,
                    ).push(now)
                    &&& forall|d: Seq<char>|
                        d != dir ==> #[trigger] final(self).times(d) == old(self).times(d)
                    &&& (r is Some <==> final(self).times(dir).len() > BURST_THRESHOLD)
                    &&& (r matches Some(x) ==> x@ == dir)
                },
            },
    {
        match parent(path) {
            None => None,
            Some(dir) => {
                let burst = self.log.record(0, dir.as_str(), now, BURST_WINDOW_SECS + 1, BURST_THRESHOLD);
                proof {
                    assert forall|d: Seq<char>| d != dir@ implies #[trigger] self.times(d) == old(
                        self,
                    ).times(d) by {
                        assert(!(0u32 == 0u32 && d == dir@));
                    }
                }
                if burst {
                    Some(dir)
                } else {
                    None
                }
            },
        }
    }
}

/// Whether `path` lies under one of the excluded paths, compared component
/// by component as `Path::starts_with` does.
pub fn is_excluded(path: &str, excluded: &Vec<String>) -> (r: bool)
    ensures
        r == exists|i: int| 0 <= i < excluded@.len() && path_starts_with(path@, #[trigger] excluded@[i]@),
{
    let mut i: usize = 0;
    while i < excluded.len()
        invariant
            i <= excluded.len(),
            forall|k: int| 0 <= k < i ==> !path_starts_with(path@, #[trigger] excluded@[k]@),
        decreases excluded.len() - i,
    {
        if starts_with_path(path, excluded[i].as_str()) {
            return true;
        }
        i += 1;
    }
    false
}

/// A file of this size is too large to hash.
pub fn file_too_large(size: u64) -> (r: bool)
    ensures
        r == (size > MAX_SCAN_BYTES),
{
    size > MAX_SCAN_BYTES
}

/// The extension of a path, or the empty string when it has none.
pub open spec fn extension_or_empty(path: Seq<char>) -> Seq<char> {
    match extension_of(path) {
        Some(e) => e,
        None => seq![],
    }
}

/// The path's extension is one of the suspicious ones.
pub open spec fn suspicious_path_extension(path: Seq<char>) -> bool {
    suspicious_extension_names().contains("."@ + str_lowercase(extension_or_empty(path)))
}

/// The flags the heuristics raise for a scanned file (no command line, no parent).
pub open spec fn scan_flags(path: Seq<char>) -> Seq<Seq<char>> {
    analysed_flags(path, None, None)
}

/// The factors a scanned file scores: the heuristics' factors, `hash_in_feed`
/// on a cache hit, and `no_digital_signature` when a suspicious extension sits
/// in a temp or app-data directory.
pub open spec fn scan_factors(path: Seq<char>, hit: bool) -> ScoreFactors {
    let h = analysed_factors(path, None, None);
    ScoreFactors {
        hash_in_feed: h.hash_in_feed || hit,
        no_digital_signature: h.no_digital_signature || (suspicious_path_extension(path) && (
        h.exec_from_temp || h.exec_from_appdata)),
        ..h
    }
}

/// A scanned file scores the heuristics' factors on its path, `hash_in_feed`
/// exactly on a cache hit, and `no_digital_signature` exactly when its
/// extension is a suspicious one and it lies in a temporary directory or under
/// AppData (either suffices).
pub proof fn lemma_scan_factors(path: Seq<char>, hit: bool)
    ensures
        scan_factors(path, hit) == (ScoreFactors {
            hash_in_feed: hit,
            no_digital_signature: suspicious_path_extension(path) && (temp_hint(str_lowercase(path))
                || appdata_hint(str_lowercase(path))),
            ..analysed_factors(path, None, None)
        }),
        suspicious_path_extension(path) && temp_hint(str_lowercase(path)) ==> scan_factors(
            path,
            hit,
        ).no_digital_signature,
        suspicious_path_extension(path) && appdata_hint(str_lowercase(path)) ==> scan_factors(
            path,
            hit,
        ).no_digital_signature,
{
}

/// The severity recorded for a level that is not clean.
pub open spec fn severity_name(level: RiskLevel) -> Seq<char> {
    match level {
        RiskLevel::Critical => "Critical"@,
        RiskLevel::High => "High"@,
        _ => "Medium"@,
    }
}

/// The details of a file scan: its hashes, flags and the source of the IOC
/// hit, as `serde_json` writes the object (keys in order).
pub open spec fn file_details(
    sha256: Seq<char>,
    sha1: Seq<char>,
    md5: Seq<char>,
    flags: Seq<Seq<char>>,
    source: Option<Seq<char>>,
) -> Seq<char> {
    "{\"flags\":"@ + json_string_list(flags) + ",\"ioc_match\":"@ + match source {
        Some(s) => json_quoted(s),
        None => "null"@,
    } + ",\"md5\":"@ + json_quoted(md5) + ",\"sha1\":"@ + json_quoted(sha1) + ",\"sha256\":"@
        + json_quoted(sha256) + "}"@
}

/// The source of an optional IOC match.
pub open spec fn match_source(m: Option<IocMatch>) -> Option<Seq<char>> {
    match m {
        Some(x) => Some(x.source@),
        None => None,
    }
}

/// The tags of an optional IOC match.
pub open spec fn match_tags(m: Option<IocMatch>) -> Option<Seq<char>> {
    match m {
        Some(x) => opt_string_view(x.tags),
        None => None,
    }
}

/// What the file monitor concludes about a file that did not score clean.
#[derive(Debug)]
pub struct FileVerdict {
    pub factors: ScoreFactors,
    pub score: u8,
    pub level: RiskLevel,
    pub event: Event,
    pub threat: Option<Threat>,
}

/// The event that records a file scan.
pub open spec fn is_file_event(e: Event, path: Seq<char>, now: Seq<char>, level: RiskLevel, score: u8, details: Seq<char>) -> bool {
    &&& e.id is None
    &&& e.timestamp@ == now
    &&& e.event_type@ == "FileScan"@
    &&& e.severity@ == severity_name(level)
    &&& opt_string_view(e.source) == Some("FileMonitor"@)
    &&& opt_string_view(e.path) == Some(path)
    &&& e.pid is None
    &&& e.process_name is None
    &&& e.score == Some(score as i64)
    &&& opt_string_view(e.details) == Some(details)
    &&& !e.resolved
}

/// The threat that records a file scoring high or critical.
pub open spec fn is_file_threat(
    t: Threat,
    path: Seq<char>,
    now: Seq<char>,
    sha256: Seq<char>,
    sha1: Seq<char>,
    md5: Seq<char>,
    m: Option<IocMatch>,
    score: u8,
    details: Seq<char>,
) -> bool {
    &&& t.id is None
    &&& t.detected_at@ == now
    &&& t.threat_type@ == (if m is Some { "Malware"@ } else { "Suspicious"@ })
    &&& opt_string_view(t.name) == match_tags(m)
    &&& opt_string_view(t.path) == Some(path)
    &&& t.pid is None
    &&& t.process_name is None
    &&& opt_string_view(t.hash_sha256) == Some(sha256)
    &&& opt_string_view(t.hash_sha1) == Some(sha1)
    &&& opt_string_view(t.hash_md5) == Some(md5)
    &&& t.score == score as i64
    &&& t.detection_method@ == (if m is Some { "Hash"@ } else { "Heuristic"@ })
    &&& opt_string_view(t.ioc_source) == match_source(m)
    &&& t.status@ == "Active"@
    &&& t.action_taken is None
    &&& opt_string_view(t.details) == Some(details)
}

fn severity_text(level: RiskLevel) -> (r: String)
    requires
        level != RiskLevel::Clean,
    ensures
        r@ == severity_name(level),
{
    match level {
        RiskLevel::Critical => String::from_str("Critical"),
        RiskLevel::High => String::from_str("High"),
        _ => String::from_str("Medium"),
    }
}

fn scan_details(
    sha256: &str,
    sha1: &str,
    md5: &str,
    flags: &Vec<String>,
    ioc_match: &Option<IocMatch>,
) -> (r: String)
    ensures
        r@ == file_details(sha256@, sha1@, md5@, views(flags@), match_source(*ioc_match)),
{
    let mut d = String::from_str("{\"flags\":");
    let fl = json_list(flags);
    d.append(fl.as_str());
    d.append(",\"ioc_match\":");
    match ioc_match {
        Some(m) => {
            let q = json_string(m.source.as_str());
            d.append(q.as_str());
        },
        None => {
            d.append("null");
        },
    }
    d.append(",\"md5\":");
    let q = json_string(md5);
    d.append(q.as_str());
    d.append(",\"sha1\":");
    let q = json_string(sha1);
    d.append(q.as_str());
    d.append(",\"sha256\":");
    let q = json_string(sha256);
    d.append(q.as_str());
    d.append("}");
    d
}

fn opt_clone(o: &Option<String>) -> (r: Option<String>)
    ensures
        opt_string_view(r) == opt_string_view(*o),
{
    match o {
        Some(s) => Some(s.clone()),
        None => None,
    }
}

/// Assess a scanned file from its path, its hashes and the cache lookup of
/// those hashes, at time `now`: nothing when the lookup hit an allowlist entry
/// (an allowlisted hash annuls the detection) or when the file scores clean;
/// otherwise the `FileScan` event, and for a high or critical level the threat
/// to record.
pub fn assess_file(
    path: &str,
    sha256: String,
    sha1: String,
    md5: String,
    ioc_match: &Option<IocMatch>,
    now: &str,
) -> (r: Option<FileVerdict>)
    ensures
        ({
            let f = scan_factors(path@, ioc_match is Some);
            let details = file_details(
                sha256@,
                sha1@,
                md5@,
                scan_flags(path@),
                match_source(*ioc_match),
            );
            match r {
                None => allowlisted(*ioc_match) || level_of(score_of(f)) == RiskLevel::Clean,
                Some(v) => {
                    &&& !allowlisted(*ioc_match)
                    &&& v.factors == f
                    &&& v.score as int == score_of(f)
                    &&& v.level == level_of(score_of(f))
                    &&& v.level != RiskLevel::Clean
                    &&& is_file_event(v.event, path@, now@, v.level, v.score, details)
                    &&& (v.threat is Some <==> (v.level == RiskLevel::High || v.level
                        == RiskLevel::Critical))
                    &&& (v.threat matches Some(t) ==> is_file_threat(
                        t,
                        path@,
                        now@,
                        sha256@,
                        sha1@,
                        md5@,
                        *ioc_match,
                        v.score,
                        details,
                    ))
                },
            }
        }),
{
    let allowed = match ioc_match {
        Some(m) => m.is_allowlist,
        None => false,
    };
    if allowed {
        return None;
    }
    let ext = match extension(path) {
        Some(e) => e,
        None => String::new(),
    };
    let suspicious_ext = is_suspicious_extension(ext.as_str());
    let heuristic: HeuristicResult = analyse_file(path, None, None);
    let mut factors = heuristic.score_factors;
    if ioc_match.is_some() {
        factors.hash_in_feed = true;
    }
    if suspicious_ext && (factors.exec_from_temp || factors.exec_from_appdata) {
        factors.no_digital_signature = true;
    }
    assert(factors == scan_factors(path@, ioc_match is Some));
    let score = calculate_score(&factors);
    let level = risk_level(score);
    if level == RiskLevel::Clean {
        return None;
    }
    let severity = severity_text(level);
    let details = scan_details(sha256.as_str(), sha1.as_str(), md5.as_str(), &heuristic.flags, ioc_match);
    let event = Event {
        id: None,
        timestamp: String::from_str(now),
        event_type: String::from_str("FileScan"),
        severity,
        source: Some(String::from_str("FileMonitor")),
        path: Some(String::from_str(path)),
        pid: None,
        process_name: None,
        score: Some(score as i64),
        details: Some(details.clone()),
        resolved: false,
    };
    let threat = if level == RiskLevel::High || level == RiskLevel::Critical {
        let hit = ioc_match.is_some();
        let (name, source) = match ioc_match {
            Some(m) => (opt_clone(&m.tags), Some(m.source.clone())),
            None => (None, None),
        };
        Some(
            Threat {
                id: None,
                detected_at: String::from_str(now),
                threat_type: String::from_str(
                    if hit {
                        "Malware"
                    } else {
                        "Suspicious"
                    },
                ),
                name,
                path: Some(String::from_str(path)),
                pid: None,
                process_name: None,
                hash_sha256: Some(sha256),
                hash_sha1: Some(sha1),
                hash_md5: Some(md5),
                score: score as i64,
                detection_method: String::from_str(
                    if hit {
                        "Hash"
                    } else {
                        "Heuristic"
                    },
                ),
                ioc_source: source,
                status: String::from_str("Active"),
                action_taken: None,
                details: Some(details),
            },
        )
    } else {
        None
    };
    Some(FileVerdict { factors, score, level, event, threat })
}

/// The critical event raised for a burst of modifications in `dir`.
pub fn ransomware_event(dir: &str, now: &str) -> (r: Event)
    ensures
        r.id is None,
        r.timestamp@ == now@,
        r.event_type@ == "Threat"@,
        r.severity@ == "Critical"@,
        opt_string_view(r.source) == Some("FileMonitor"@),
        opt_string_view(r.path) == Some(dir@),
        r.pid is None,
        r.process_name is None,
        r.score == Some(85i64),
        opt_string_view(r.details) == Some(
            "{\"reason\":\"mass_file_modification\",\"type\":\"Ransomware\"}"@,
        ),
        !r.resolved,
{
    Event {
        id: None,
        timestamp: String::from_str(now),
        event_type: String::from_str("Threat"),
        severity: String::from_str("Critical"),
        source: Some(String::from_str("FileMonitor")),
        path: Some(String::from_str(dir)),
        pid: None,
        process_name: None,
        score: Some(85),
        details: Some(String::from_str("{\"reason\":\"mass_file_modification\",\"type\":\"Ransomware\"}")),
        resolved: false,
    }
}

} // verus!
