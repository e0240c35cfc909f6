//! The rows the agent stores: events, threats, quarantine entries, IOCs,
//! feed status, process and connection snapshots, statistics and YARA rules.
use vstd::prelude::*;

verus! {

#[derive(Debug, Clone)]
pub struct Event {
    pub id: Option<i64>,
    pub timestamp: String,
    pub event_type: String,
    pub severity: String,
    pub source: Option<String>,
    pub path: Option<String>,
    pub pid: Option<i64>,
    pub process_name: Option<String>,
    pub score: Option<i64>,
    pub details: Option<String>,
    pub resolved: bool,
}

#[derive(Debug, Clone)]
pub struct Threat {
    pub id: Option<i64>,
    pub detected_at: String,
    pub threat_type: String,
    pub name: Option<String>,
    pub path: Option<String>,
    pub pid: Option<i64>,
    pub process_name: Option<String>,
    pub hash_sha256: Option<String>,
    pub hash_sha1: Option<String>,
    pub hash_md5: Option<String>,
    pub score: i64,
    pub detection_method: String,
    pub ioc_source: Option<String>,
    pub status: String,
    pub action_taken: Option<String>,
    pub details: Option<String>,
}

#[derive(Debug, Clone)]
pub struct QuarantineEntry {
    pub id: String,
    pub quarantined_at: String,
    pub original_path: String,
    pub original_name: String,
    pub quarantine_path: String,
    pub hash_sha256: Option<String>,
    pub hash_sha1: Option<String>,
    pub hash_md5: Option<String>,
    pub file_size: Option<i64>,
    pub threat_name: Option<String>,
    pub score: Option<i64>,
    pub detection_method: Option<String>,
    pub status: String,
    pub restored_at: Option<String>,
    pub deleted_at: Option<String>,
    pub details: Option<String>,
}

/// A normalised indicator of compromise.
#[derive(Debug, Clone)]
pub struct IocEntry {
    pub id: Option<i64>,
    pub ioc_type: String,
    pub value: String,
    pub source: String,
    pub confidence: i64,
    pub first_seen: Option<String>,
    pub last_seen: Option<String>,
    pub tags: Option<String>,
    pub is_allowlist: bool,
}

/// The view of an optional string.
pub open spec fn opt_string_view(o: Option<String>) -> Option<Seq<char>> {
    match o {
        Some(s) => Some(s@),
        None => None,
    }
}

/// What an `IocEntry` holds, as character sequences.
pub ghost struct IocView {
    pub id: Option<i64>,
    pub ioc_type: Seq<char>,
    pub value: Seq<char>,
    pub source: Seq<char>,
    pub confidence: int,
    pub first_seen: Option<Seq<char>>,
    pub last_seen: Option<Seq<char>>,
    pub tags: Option<Seq<char>>,
    pub is_allowlist: bool,
}

impl View for IocEntry {
    type V = IocView;

    open spec fn view(&self) -> IocView {
        IocView {
            id: self.id,
            ioc_type: self.ioc_type@,
            value: self.value@,
            source: self.source@,
            confidence: self.confidence as int,
            first_seen: opt_string_view(self.first_seen),
            last_seen: opt_string_view(self.last_seen),
            tags: opt_string_view(self.tags),
            is_allowlist: self.is_allowlist,
        }
    }
}

/// The views of a sequence of IOC entries.
pub open spec fn ioc_views(v: Seq<IocEntry>) -> Seq<IocView> {
    v.map_values(|e: IocEntry| e@)
}

#[derive(Debug, Clone)]
pub struct FeedStatusRow {
    pub name: String,
    pub last_updated: Option<String>,
    pub next_update: Option<String>,
    pub ioc_count: i64,
    pub status: String,
    pub error_msg: Option<String>,
    pub checksum: Option<String>,
}

#[derive(Debug, Clone)]
pub struct ProcessSnapshot {
    pub id: Option<i64>,
    pub captured_at: String,
    pub pid: i64,
    pub ppid: Option<i64>,
    pub name: String,
    pub path: Option<String>,
    pub cmdline: Option<String>,
    pub hash_sha256: Option<String>,
    pub signed: Option<bool>,
    pub signer: Option<String>,
    pub score: i64,
    pub connections: i64,
    pub status: String,
    pub flags: Option<String>,
}

#[derive(Debug, Clone)]
pub struct NetworkConnection {
    pub id: Option<i64>,
    pub captured_at: String,
    pub pid: i64,
    pub process_name: Option<String>,
    pub local_addr: Option<String>,
    pub local_port: Option<i64>,
    pub remote_addr: Option<String>,
    pub remote_port: Option<i64>,
    pub protocol: Option<String>,
    pub state: Option<String>,
    pub score: i64,
    pub ioc_match: Option<String>,
    pub country: Option<String>,
    pub asn: Option<String>,
}

#[derive(Debug, Clone, Copy)]
pub struct Stats {
    pub threats: i64,
    pub quarantined: i64,
    pub ioc_count: i64,
    pub events_today: i64,
}

#[derive(Debug, Clone)]
pub struct YaraRule {
    pub id: Option<i64>,
    pub name: String,
    pub source: String,
    pub content: String,
    pub enabled: bool,
    pub last_match: Option<String>,
    pub match_count: i64,
    pub created_at: String,
}

} // verus!
