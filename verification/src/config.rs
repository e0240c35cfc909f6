//! Agent configuration and its defaults. Paths are held as Windows path strings.
use vstd::prelude::*;

verus! {

#[derive(Debug, Clone)]
pub struct Config {
    pub general: GeneralConfig,
    pub protection: ProtectionConfig,
    pub feeds: FeedsConfig,
    pub ipc: IpcConfig,
    pub quarantine: QuarantineConfig,
    pub scoring: ScoringConfig,
}

#[derive(Debug, Clone)]
pub struct GeneralConfig {
    pub log_level: String,
    pub log_dir: String,
    pub data_dir: String,
    pub db_path: String,
    pub update_interval_hours: u64,
}

#[derive(Debug, Clone)]
pub struct ProtectionConfig {
    pub realtime_enabled: bool,
    pub scan_on_access: bool,
    pub scan_on_execute: bool,
    pub monitor_network: bool,
    pub monitor_registry: bool,
    pub action_on_threat: ThreatAction,
    pub excluded_paths: Vec<String>,
    pub excluded_hashes: Vec<String>,
}

#[derive(Debug, Clone, Copy, PartialEq, Eq, Structural)]
pub enum ThreatAction {
    AlertOnly,
    Quarantine,
    Block,
    KillAndQuarantine,
}

#[derive(Debug, Clone)]
pub struct FeedsConfig {
    pub enabled: bool,
    pub auto_update: bool,
    pub update_interval_hours: u64,
    pub feeds: Vec<FeedConfig>,
}

#[derive(Debug, Clone)]
pub struct FeedConfig {
    pub name: String,
    pub url: String,
    pub feed_type: FeedType,
    pub enabled: bool,
    pub ttl_hours: u64,
}

#[derive(Debug, Clone, Copy, PartialEq, Eq, Structural)]
pub enum FeedType {
    MalwareBazaar,
    ThreatFox,
    UrlHaus,
    FeodoTracker,
    SslBlacklist,
    MispWarninglist,
    YaraRules,
    CustomCsv,
    CustomJson,
    CustomTxt,
}

#[derive(Debug, Clone)]
pub struct IpcConfig {
    pub pipe_name: String,
    pub auth_token_path: String,
}

#[derive(Debug, Clone)]
pub struct QuarantineConfig {
    pub quarantine_dir: String,
    pub max_size_mb: u64,
}

#[derive(Debug, Clone)]
pub struct ScoringConfig {
    /// Score threshold to emit an alert event (0-100)
    pub alert_threshold: u8,
    /// Score threshold to classify as High risk
    pub high_threshold: u8,
    /// Score threshold to classify as Critical risk
    pub critical_threshold: u8,
}

/// `f` is an enabled feed with the given name, URL, type and TTL.
pub open spec fn feed_is(
    f: FeedConfig,
    name: Seq<char>,
    url: Seq<char>,
    ty: FeedType,
    ttl: u64,
) -> bool {
    &&& f.name@ == name
    &&& f.url@ == url
    &&& f.feed_type == ty
    &&& f.enabled
    &&& f.ttl_hours == ttl
}

fn feed(name: &str, url: &str, ty: FeedType, ttl: u64) -> (r: FeedConfig)
    ensures
        feed_is(r, name@, url@, ty, ttl),
{
    FeedConfig {
        name: String::from_str(name),
        url: String::from_str(url),
        feed_type: ty,
        enabled: true,
        ttl_hours: ttl,
    }
}

/// The eight OSINT feeds enabled out of the box, in order.
pub open spec fn is_default_feed_list(v: Seq<FeedConfig>) -> bool {
    &&& v.len() == 8
    &&& feed_is(
        v[0],
        "MalwareBazaar"@,
        "https://bazaar.abuse.ch/export/csv/full/"@,
        FeedType::MalwareBazaar,
        24,
    )
    &&& feed_is(
        v[1],
        "ThreatFox"@,
        "https://threatfox.abuse.ch/export/csv/full/"@,
        FeedType::ThreatFox,
        12,
    )
    &&& feed_is(v[2], "URLhaus"@, "https://urlhaus.abuse.ch/downloads/csv/"@, FeedType::UrlHaus, 6)
    &&& feed_is(
        v[3],
        "Feodo Tracker"@,
        "https://feodotracker.abuse.ch/downloads/ipblocklist_recommended.txt"@,
        FeedType::FeodoTracker,
        6,
    )
    &&& feed_is(
        v[4],
        "Feodo Tracker Domains"@,
        "https://feodotracker.abuse.ch/downloads/domainblocklist.txt"@,
        FeedType::CustomTxt,
        6,
    )
    &&& feed_is(
        v[5],
        "SSL Blacklist"@,
        "https://sslbl.abuse.ch/blacklist/sslipbl.csv"@,
        FeedType::SslBlacklist,
        12,
    )
    &&& feed_is(
        v[6],
        "MISP Warninglists"@,
        "https://raw.githubusercontent.com/MISP/misp-warninglists/main/lists/alexa/list.json"@,
        FeedType::MispWarninglist,
        168,
    )
    &&& feed_is(
        v[7],
        "MISP Warninglists Microsoft"@,
        "https://raw.githubusercontent.com/MISP/misp-warninglists/main/lists/microsoft/list.json"@,
        FeedType::MispWarninglist,
        168,
    )
}

/// The OSINT feeds enabled out of the box.
pub fn default_feeds() -> (r: Vec<FeedConfig>)
    ensures
        is_default_feed_list(r@),
{
    let mut v: Vec<FeedConfig> = Vec::new();
    v.push(
        feed(
            "MalwareBazaar",
            "https://bazaar.abuse.ch/export/csv/full/",
            FeedType::MalwareBazaar,
            24,
        ),
    );
    v.push(
        feed("ThreatFox", "https://threatfox.abuse.ch/export/csv/full/", FeedType::ThreatFox, 12),
    );
    v.push(feed("URLhaus", "https://urlhaus.abuse.ch/downloads/csv/", FeedType::UrlHaus, 6));
    v.push(
        feed(
            "Feodo Tracker",
            "https://feodotracker.abuse.ch/downloads/ipblocklist_recommended.txt",
            FeedType::FeodoTracker,
            6,
        ),
    );
    v.push(
        feed(
            "Feodo Tracker Domains",
            "https://feodotracker.abuse.ch/downloads/domainblocklist.txt",
            FeedType::CustomTxt,
            6,
        ),
    );
    v.push(
        feed(
            "SSL Blacklist",
            "https://sslbl.abuse.ch/blacklist/sslipbl.csv",
            FeedType::SslBlacklist,
            12,
        ),
    );
    v.push(
        feed(
            "MISP Warninglists",
            "https://raw.githubusercontent.com/MISP/misp-warninglists/main/lists/alexa/list.json",
            FeedType::MispWarninglist,
            168,
        ),
    );
    v.push(
        feed(
            "MISP Warninglists Microsoft",
            "https://raw.githubusercontent.com/MISP/misp-warninglists/main/lists/microsoft/list.json",
            FeedType::MispWarninglist,
            168,
        ),
    );
    v
}

/// The configuration written on first start.
pub open spec fn is_default_config(c: Config) -> bool {
    &&& c.general.log_level@ == "info"@
    &&& c.general.log_dir@ == "C:\\ProgramData\\HispanShield\\logs"@
    &&& c.general.data_dir@ == "C:\\ProgramData\\HispanShield"@
    &&& c.general.db_path@ == "C:\\ProgramData\\HispanShield\\hispanshield.db"@
    &&& c.general.update_interval_hours == 6
    &&& c.protection.realtime_enabled
    &&& c.protection.scan_on_access
    &&& c.protection.scan_on_execute
    &&& c.protection.monitor_network
    &&& c.protection.monitor_registry
    &&& c.protection.action_on_threat == ThreatAction::Quarantine
    &&& c.protection.excluded_paths@.len() == 0
    &&& c.protection.excluded_hashes@.len() == 0
    &&& c.feeds.enabled
    &&& c.feeds.auto_update
    &&& c.feeds.update_interval_hours == 6
    &&& c.ipc.pipe_name@ == "\\\\.\\pipe\\HispanShieldAgent"@
    &&& c.ipc.auth_token_path@ == "C:\\ProgramData\\HispanShield\\ipc_token"@
    &&& c.quarantine.quarantine_dir@ == "C:\\ProgramData\\HispanShield\\quarantine"@
    &&& c.quarantine.max_size_mb == 2048
    &&& c.scoring.alert_threshold == 30
    &&& c.scoring.high_threshold == 60
    &&& c.scoring.critical_threshold == 80
}

impl Default for Config {
    fn default() -> (r: Config)
        ensures
            is_default_config(r),
            is_default_feed_list(r.feeds.feeds@),
    {
        let feeds = default_feeds();
        Config {
            general: GeneralConfig {
                log_level: String::from_str("info"),
                log_dir: String::from_str("C:\\ProgramData\\HispanShield\\logs"),
                data_dir: String::from_str("C:\\ProgramData\\HispanShield"),
                db_path: String::from_str("C:\\ProgramData\\HispanShield\\hispanshield.db"),
                update_interval_hours: 6,
            },
            protection: ProtectionConfig {
                realtime_enabled: true,
                scan_on_access: true,
                scan_on_execute: true,
                monitor_network: true,
                monitor_registry: true,
                action_on_threat: ThreatAction::Quarantine,
                excluded_paths: Vec::new(),
                excluded_hashes: Vec::new(),
            },
            feeds: FeedsConfig {
                enabled: true,
                auto_update: true,
                update_interval_hours: 6,
                feeds: feeds,
            },
            ipc: IpcConfig {
                pipe_name: String::from_str("\\\\.\\pipe\\HispanShieldAgent"),
                auth_token_path: String::from_str("C:\\ProgramData\\HispanShield\\ipc_token"),
            },
            quarantine: QuarantineConfig {
                quarantine_dir: String::from_str("C:\\ProgramData\\HispanShield\\quarantine"),
                max_size_mb: 2048,
            },
            scoring: ScoringConfig { alert_threshold: 30, high_threshold: 60, critical_threshold: 80 },
        }
    }
}

} // verus!
