//! Decisions of the process monitor: what each running process scores, the
//! snapshot row stored for it, and the alert raised when it scores high.
use vstd::prelude::*;
use crate::detection::{IocMatch, allowlisted};
use crate::heuristic::{
    HeuristicResult, analyse_file, analysed_factors, analysed_flags, is_lolbin, lolbin_names,
};
use crate::jsontext::{json_list, json_string_list};
use crate::records::{Event, ProcessSnapshot, Threat, opt_string_view};
use crate::scoring::{RiskLevel, ScoreFactors, calculate_score, level_of, risk_level, score_of};
use crate::text::{concat, decode_utf16_lossy, decode_utf8_lossy, str_lowercase, utf16_lossy, utf8_lossy, views};

verus! {

/// A running process as the snapshot lists it.
#[derive(Debug, Clone)]
pub struct ProcessInfo {
    pub pid: u32,
    pub ppid: u32,
    pub name: String,
    pub path: Option<String>,
}

/// The bytes of `s` before its first NUL (all of them when it has none).
pub open spec fn before_nul_u8(s: Seq<u8>) -> Seq<u8>
    decreases s.len(),
{
    if s.len() == 0 {
        seq![]
    } else if s[0] == 0 {
        seq![]
    } else {
        seq![s[0]] + before_nul_u8(s.subrange(1, s.len() as int))
    }
}

/// The units of `s` before its first NUL (all of them when it has none).
pub open spec fn before_nul_u16(s: Seq<u16>) -> Seq<u16>
    decreases s.len(),
{
    if s.len() == 0 {
        seq![]
    } else if s[0] == 0 {
        seq![]
    } else {
        seq![s[0]] + before_nul_u16(s.subrange(1, s.len() as int))
    }
}

proof fn lemma_before_nul_u8(s: Seq<u8>, n: int)
    requires
        0 <= n <= s.len(),
        forall|k: int| 0 <= k < n ==> s[k] != 0,
        n == s.len() || s[n] == 0,
    ensures
        before_nul_u8(s) == s.subrange(0, n),
    decreases n,
{
    if n > 0 {
        let t = s.subrange(1, s.len() as int);
        lemma_before_nul_u8(t, n - 1);
        assert(seq![s[0]] + t.subrange(0, n - 1) =~= s.subrange(0, n));
    } else if s.len() > 0 {
        assert(s.subrange(0, 0) =~= Seq::<u8>::empty());
    } else {
        assert(s.subrange(0, 0) =~= Seq::<u8>::empty());
    }
}

proof fn lemma_before_nul_u16(s: Seq<u16>, n: int)
    requires
        0 <= n <= s.len(),
        forall|k: int| 0 <= k < n ==> s[k] != 0,
        n == s.len() || s[n] == 0,
    ensures
        before_nul_u16(s) == s.subrange(0, n),
    decreases n,
{
    if n > 0 {
        let t = s.subrange(1, s.len() as int);
        lemma_before_nul_u16(t, n - 1);
        assert(seq![s[0]] + t.subrange(0, n - 1) =~= s.subrange(0, n));
    } else {
        assert(s.subrange(0, 0) =~= Seq::<u16>::empty());
    }
}

/// The name a process entry holds in its NUL-terminated ANSI field,
/// decoded as UTF-8 with invalid bytes replaced.
pub fn name_from_ansi(field: &[u8]) -> (r: String)
    ensures
        r@ == utf8_lossy(before_nul_u8(field@)),
{
    let mut n: usize = 0;
    while n < field.len() && field[n] != 0
        invariant
            n <= field.len(),
            forall|k: int| 0 <= k < n ==> field@[k] != 0,
        decreases field.len() - n,
    {
        n += 1;
    }
    proof {
        lemma_before_nul_u8(field@, n as int);
    }
    let mut bytes: Vec<u8> = Vec::new();
    let mut i: usize = 0;
    while i < n
        invariant
            i <= n <= field.len(),
            bytes@ =~= field@.subrange(0, i as int),
        decreases n - i,
    {
        bytes.push(field[i]);
        i += 1;
        assert(bytes@ =~= field@.subrange(0, i as int));
    }
    decode_utf8_lossy(bytes.as_slice())
}

/// The name a process entry holds in its NUL-terminated UTF-16 field,
/// decoded with unpaired surrogates replaced.
pub fn name_from_wide(field: &[u16]) -> (r: String)
    ensures
        r@ == utf16_lossy(before_nul_u16(field@)),
{
    let mut n: usize = 0;
    while n < field.len() && field[n] != 0
        invariant
            n <= field.len(),
            forall|k: int| 0 <= k < n ==> field@[k] != 0,
        decreases field.len() - n,
    {
        n += 1;
    }
    proof {
        lemma_before_nul_u16(field@, n as int);
    }
    let mut units: Vec<u16> = Vec::new();
    let mut i: usize = 0;
    while i < n
        invariant
            i <= n <= field.len(),
            units@ =~= field@.subrange(0, i as int),
        decreases n - i,
    {
        units.push(field[i]);
        i += 1;
        assert(units@ =~= field@.subrange(0, i as int));
    }
    decode_utf16_lossy(units.as_slice())
}

/// Processes whose executable path is not queried (the idle and system processes).
pub fn path_not_queried(pid: u32) -> (r: bool)
    ensures
        r == (pid == 0 || pid == 4),
{
    pid == 0 || pid == 4
}

/// The name of the last listed process with the given pid (a later entry
/// replaces an earlier one with the same pid).
pub open spec fn name_of_pid(ps: Seq<ProcessInfo>, pid: u32) -> Option<Seq<char>>
    decreases ps.len(),
{
    if ps.len() == 0 {
        None
    } else if ps.last().pid == pid {
        Some(ps.last().name@)
    } else {
        name_of_pid(ps.drop_last(), pid)
    }
}

/// The name of the process with pid `pid` in the list, as `name_of_pid` states it.
pub fn process_name_of(processes: &Vec<ProcessInfo>, pid: u32) -> (r: Option<String>)
    ensures
        opt_string_view(r) == name_of_pid(processes@, pid),
{
    let mut i: usize = processes.len();
    assert(processes@.take(i as int) =~= processes@);
    while i > 0
        invariant
            i <= processes.len(),
            forall|k: int| i <= k < processes.len() ==> #[trigger] processes@[k].pid != pid,
            name_of_pid(processes@.take(i as int), pid) == name_of_pid(processes@, pid),
        decreases i,
    {
        let ghost pre = processes@.take(i as int);
        assert(pre.last() == processes@[i - 1]);
        assert(pre.drop_last() =~= processes@.take(i - 1));
        if processes[i - 1].pid == pid {
            return Some(processes[i - 1].name.clone());
        }
        i -= 1;
    }
    assert(processes@.take(0) =~= Seq::<ProcessInfo>::empty());
    None
}

/// The flags raised for a process: those of the heuristics on its path (with
/// the parent's name), then `ioc_hash_<source>` when its executable's hashes hit
/// the cache. A process without a path raises none.
pub open spec fn process_flags(p: ProcessInfo, parent: Option<Seq<char>>, hit: Option<Seq<char>>) -> Seq<
    Seq<char>,
> {
    match p.path {
        None => seq![],
        Some(path) => analysed_flags(path@, None, parent) + match hit {
            Some(src) => seq!["ioc_hash_"@ + src],
            None => seq![],
        },
    }
}

/// The factors a process scores: the heuristics' temp, app-data, parent,
/// LOLBin, path-shape and signature factors on its path, and `hash_in_feed` on
/// a cache hit. A process without a path, or whose executable's hash hit an
/// allowlist entry, scores nothing.
pub open spec fn process_factors(p: ProcessInfo, parent: Option<Seq<char>>, ioc: Option<IocMatch>) -> ScoreFactors {
    match p.path {
        None => ScoreFactors::none(),
        Some(path) => if allowlisted(ioc) {
            ScoreFactors::none()
        } else {
            let h = analysed_factors(path@, None, parent);
            ScoreFactors { hash_in_feed: ioc is Some, ..path_factor_part(h) }
        },
    }
}

/// The factors a process takes over from the heuristics on its path.
pub open spec fn path_factor_part(h: ScoreFactors) -> ScoreFactors {
    ScoreFactors {
        exec_from_temp: h.exec_from_temp,
        exec_from_appdata: h.exec_from_appdata,
        suspicious_parent: h.suspicious_parent,
        lolbin_suspicious: h.lolbin_suspicious,
        no_digital_signature: h.no_digital_signature,
        double_extension: h.double_extension,
        suspicious_unicode_path: h.suspicious_unicode_path,
        ransomware_extension: h.ransomware_extension,
        ransom_note: h.ransom_note,
        shadow_copy_deletion: h.shadow_copy_deletion,
        ..ScoreFactors::none()
    }
}

fn path_factors(h: &ScoreFactors) -> (r: ScoreFactors)
    ensures
        r == path_factor_part(*h),
{
    let d = ScoreFactors::default();
    ScoreFactors {
        exec_from_temp: h.exec_from_temp,
        exec_from_appdata: h.exec_from_appdata,
        suspicious_parent: h.suspicious_parent,
        lolbin_suspicious: h.lolbin_suspicious,
        no_digital_signature: h.no_digital_signature,
        double_extension: h.double_extension,
        suspicious_unicode_path: h.suspicious_unicode_path,
        ransomware_extension: h.ransomware_extension,
        ransom_note: h.ransom_note,
        shadow_copy_deletion: h.shadow_copy_deletion,
        ..d
    }
}

/// A process scores what the heuristics find on its path, plus the feed hit:
/// with a path and a hit that is not an allowlist entry, its factors are the
/// path's heuristic factors with `hash_in_feed` set exactly when the cache hit.
/// Without a path, or on an allowlisted hit, it scores nothing.
pub proof fn lemma_process_scores_its_path(p: ProcessInfo, parent: Option<Seq<char>>, ioc: Option<IocMatch>)
    ensures
        (p.path is Some && !allowlisted(ioc)) ==> process_factors(p, parent, ioc) == (ScoreFactors {
            hash_in_feed: ioc is Some,
            ..analysed_factors(p.path->0@, None, parent)
        }),
        (p.path is None || allowlisted(ioc)) ==> process_factors(p, parent, ioc) == ScoreFactors::none(),
        (p.path is None || allowlisted(ioc)) ==> score_of(process_factors(p, parent, ioc)) == 0,
{
    reveal(crate::scoring::weight);
}

/// The details of a process alert: `{"flags":[...]}`.
pub open spec fn process_details(flags: Seq<Seq<char>>) -> Seq<char> {
    "{\"flags\":"@ + json_string_list(flags) + "}"@
}

/// What the process monitor concludes about one process.
#[derive(Debug)]
pub struct ProcessVerdict {
    pub factors: ScoreFactors,
    pub score: u8,
    pub level: RiskLevel,
    pub flags: Vec<String>,
    pub snapshot: ProcessSnapshot,
    pub event: Option<Event>,
    pub threat: Option<Threat>,
}

/// The snapshot row stored for a process.
pub open spec fn is_process_snapshot(s: ProcessSnapshot, p: ProcessInfo, now: Seq<char>, score: u8, flags: Seq<Seq<char>>) -> bool {
    &&& s.id is None
    &&& s.captured_at@ == now
    &&& s.pid == p.pid as i64
    &&& s.ppid == Some(p.ppid as i64)
    &&& s.name@ == p.name@
    &&& opt_string_view(s.path) == opt_string_view(p.path)
    &&& s.cmdline is None
    &&& s.hash_sha256 is None
    &&& s.signed is None
    &&& s.signer is None
    &&& s.score == score as i64
    &&& s.connections == 0
    &&& s.status@ == "Running"@
    &&& opt_string_view(s.flags) == if flags.len() == 0 {
        None
    } else {
        Some(json_string_list(flags))
    }
}

/// The event raised for a process scoring high or critical.
pub open spec fn is_process_event(e: Event, p: ProcessInfo, now: Seq<char>, level: RiskLevel, score: u8, flags: Seq<Seq<char>>) -> bool {
    &&& e.id is None
    &&& e.timestamp@ == now
    &&& e.event_type@ == "Threat"@
    &&& e.severity@ == (if level == RiskLevel::Critical { "Critical"@ } else { "High"@ })
    &&& opt_string_view(e.source) == Some("ProcessMonitor"@)
    &&& opt_string_view(e.path) == opt_string_view(p.path)
    &&& e.pid == Some(p.pid as i64)
    &&& opt_string_view(e.process_name) == Some(p.name@)
    &&& e.score == Some(score as i64)
    &&& opt_string_view(e.details) == Some(process_details(flags))
    &&& !e.resolved
}

/// The threat recorded for a process scoring high or critical.
pub open spec fn is_process_threat(t: Threat, p: ProcessInfo, now: Seq<char>, score: u8, flags: Seq<Seq<char>>) -> bool {
    &&& t.id is None
    &&& t.detected_at@ == now
    &&& t.threat_type@ == (if lolbin_names().contains(str_lowercase(p.name@)) {
        "LOLBin"@
    } else {
        "Suspicious"@
    })
    &&& t.name is None
    &&& opt_string_view(t.path) == opt_string_view(p.path)
    &&& t.pid == Some(p.pid as i64)
    &&& opt_string_view(t.process_name) == Some(p.name@)
    &&& t.hash_sha256 is None
    &&& t.hash_sha1 is None
    &&& t.hash_md5 is None
    &&& t.score == score as i64
    &&& t.detection_method@ == "Heuristic"@
    &&& t.ioc_source is None
    &&& t.status@ == "Active"@
    &&& t.action_taken is None
    &&& opt_string_view(t.details) == Some(process_details(flags))
}

fn opt_clone(o: &Option<String>) -> (r: Option<String>)
    ensures
        opt_string_view(r) == opt_string_view(*o),
{
    match o {
        Some(s) => Some(s.clone()),
        None => None,
    }
}

/// The source of the cache hit on a process's executable, when it has a path
/// and the hit is not an allowlist entry.
pub open spec fn hit_source(p: ProcessInfo, ioc: Option<IocMatch>) -> Option<Seq<char>> {
    match (p.path, ioc) {
        (Some(_), Some(m)) => if m.is_allowlist {
            None
        } else {
            Some(m.source@)
        },
        _ => None,
    }
}

/// Assess one process of a snapshot at time `now`. `processes` is the whole
/// listing (where the parent's name is looked up by `ppid`); `ioc` is the
/// cache lookup of the hashes of the process's executable, and only counts
/// when the process has a path; a hit on an allowlist entry annuls the scoring.
pub fn assess_process(p: &ProcessInfo, processes: &Vec<ProcessInfo>, ioc: &Option<IocMatch>, now: &str) -> (r:
    ProcessVerdict)
    ensures
        ({
            let parent = name_of_pid(processes@, p.ppid);
            let flags = process_flags(*p, parent, hit_source(*p, *ioc));
            let f = process_factors(*p, parent, *ioc);
            &&& r.factors == f
            &&& r.score as int == score_of(f)
            &&& r.level == level_of(score_of(f))
            &&& views(r.flags@) == flags
            &&& is_process_snapshot(r.snapshot, *p, now@, r.score, flags)
            &&& (r.event is Some <==> (r.level == RiskLevel::High || r.level == RiskLevel::Critical))
            &&& (r.threat is Some <==> r.event is Some)
            &&& (r.event matches Some(e) ==> is_process_event(e, *p, now@, r.level, r.score, flags))
            &&& (r.threat matches Some(t) ==> is_process_threat(t, *p, now@, r.score, flags))
        }),
{
    let mut factors = ScoreFactors::default();
    let mut flags: Vec<String> = Vec::new();
    let lolbin_proc = is_lolbin(p.name.as_str());
    let parent = process_name_of(processes, p.ppid);
    match &p.path {
        Some(path) => {
            let parent_ref: Option<&str> = match &parent {
                Some(q) => Some(q.as_str()),
                None => None,
            };
            let heuristic: HeuristicResult = analyse_file(path.as_str(), None, parent_ref);
            flags = heuristic.flags;
            factors = path_factors(&heuristic.score_factors);
            let allowed = match ioc {
                Some(m) => m.is_allowlist,
                None => false,
            };
            if allowed {
                factors = ScoreFactors::default();
            }
            match ioc {
                Some(m) => if allowed {
                    assert(views(flags@) =~= views(flags@) + Seq::<Seq<char>>::empty());
                } else {
                    factors.hash_in_feed = true;
                    let tag = concat("ioc_hash_", m.source.as_str());
                    let ghost before = flags@;
                    flags.push(tag);
                    assert(views(flags@) =~= views(before) + seq![tag@]);
                },
                None => {
                    assert(views(flags@) =~= views(flags@) + Seq::<Seq<char>>::empty());
                },
            }
        },
        None => {
            assert(views(flags@) =~= Seq::<Seq<char>>::empty());
        },
    }
    assert(factors == process_factors(*p, name_of_pid(processes@, p.ppid), *ioc));
    let score = calculate_score(&factors);
    let level = risk_level(score);
    let flags_json = if flags.len() == 0 {
        None
    } else {
        Some(json_list(&flags))
    };
    let snapshot = ProcessSnapshot {
        id: None,
        captured_at: String::from_str(now),
        pid: p.pid as i64,
        ppid: Some(p.ppid as i64),
        name: p.name.clone(),
        path: opt_clone(&p.path),
        cmdline: None,
        hash_sha256: None,
        signed: None,
        signer: None,
        score: score as i64,
        connections: 0,
        status: String::from_str("Running"),
        flags: flags_json,
    };
    let (event, threat) = if level == RiskLevel::High || level == RiskLevel::Critical {
        let listed = json_list(&flags);
        let mut details = String::from_str("{\"flags\":");
        details.append(listed.as_str());
        details.append("}");
        let event = Event {
            id: None,
            timestamp: String::from_str(now),
            event_type: String::from_str("Threat"),
            severity: String::from_str(
                if level == RiskLevel::Critical {
                    "Critical"
                } else {
                    "High"
                },
            ),
            source: Some(String::from_str("ProcessMonitor")),
            path: opt_clone(&p.path),
            pid: Some(p.pid as i64),
            process_name: Some(p.name.clone()),
            score: Some(score as i64),
            details: Some(details.clone()),
            resolved: false,
        };
        let threat = Threat {
            id: None,
            detected_at: String::from_str(now),
            threat_type: String::from_str(
                if lolbin_proc {
                    "LOLBin"
                } else {
                    "Suspicious"
                },
            ),
            name: None,
            path: opt_clone(&p.path),
            pid: Some(p.pid as i64),
            process_name: Some(p.name.clone()),
            hash_sha256: None,
            hash_sha1: None,
            hash_md5: None,
            score: score as i64,
            detection_method: String::from_str("Heuristic"),
            ioc_source: None,
            status: String::from_str("Active"),
            action_taken: None,
            details: Some(details),
        };
        (Some(event), Some(threat))
    } else {
        (None, None)
    };
    ProcessVerdict { factors, score, level, flags, snapshot, event, threat }
}

} // verus!
