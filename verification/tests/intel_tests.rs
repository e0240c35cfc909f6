use hispanshield_agent::config::{default_feeds, Config, FeedConfig, FeedType, FeedsConfig};
use hispanshield_agent::intel::{
    extract_host_from_url, feed_needs_update_at, infer_ioc_type, is_ip, ok_status,
    updating_status, error_status, FeedManager,
};
use hispanshield_agent::records::FeedStatusRow;

fn manager() -> FeedManager {
    FeedManager::new(FeedsConfig {
        enabled: true,
        auto_update: true,
        update_interval_hours: 6,
        feeds: Vec::new(),
    })
}

fn feed(name: &str, ttl_hours: u64) -> FeedConfig {
    FeedConfig {
        name: name.to_string(),
        url: "https://example.org/feed".to_string(),
        feed_type: FeedType::CustomTxt,
        enabled: true,
        ttl_hours,
    }
}

#[test]
fn host_extraction_from_urls() {
    assert_eq!(extract_host_from_url("https://evil.com:8080/x?y=1"), Some("evil.com".to_string()));
    assert_eq!(extract_host_from_url("http://1.2.3.4/payload.bin"), Some("1.2.3.4".to_string()));
    assert_eq!(extract_host_from_url("evil.org?q=1"), Some("evil.org".to_string()));
    assert_eq!(extract_host_from_url("http://"), None);
    assert_eq!(extract_host_from_url("https:///path"), None);
    assert_eq!(extract_host_from_url("http://[::1]/x"), Some("::1".to_string()));
    assert_eq!(extract_host_from_url("[::1]:80"), Some("::1".to_string()));
    assert_eq!(extract_host_from_url("http://[2001:db8::1]:8080/a"), Some("2001:db8::1".to_string()));
    assert_eq!(extract_host_from_url("https://[]:443/"), None);
}

#[test]
fn ioc_type_inference() {
    assert_eq!(infer_ioc_type("10.0.0.1"), "ip");
    assert_eq!(infer_ioc_type("::1"), "ip");
    assert_eq!(infer_ioc_type(&"a".repeat(64)), "sha256");
    assert_eq!(infer_ioc_type(&"B".repeat(40)), "sha1");
    assert_eq!(infer_ioc_type(&"0".repeat(32)), "md5");
    assert_eq!(infer_ioc_type(&"g".repeat(32)), "domain");
    assert_eq!(infer_ioc_type("https://x.org/a"), "url");
    assert_eq!(infer_ioc_type("evil.example"), "domain");
    assert!(is_ip("192.168.1.1"));
    assert!(!is_ip("192.168.1.256"));
}

#[test]
fn feodo_lines() {
    let iocs = manager().parse_feodo_txt("# header\n1.2.3.4,443,online\n\n  \n5.6.7.8\n", "feodo");
    assert_eq!(iocs.len(), 2);
    assert_eq!(iocs[0].value, "1.2.3.4");
    assert_eq!(iocs[1].value, "5.6.7.8");
    assert_eq!(iocs[0].ioc_type, "ip");
    assert_eq!(iocs[0].confidence, 85);
    assert_eq!(iocs[0].source, "feodo");
    assert_eq!(iocs[0].tags.as_deref(), Some("[\"c2\",\"botnet\"]"));
    assert!(iocs[0].first_seen.is_none());
    assert!(iocs[0].last_seen.is_some());
    assert!(!iocs[0].is_allowlist);
}

#[test]
fn custom_text_lines_infer_their_type() {
    let iocs = manager().parse_custom_txt("#c\n 8.8.8.8 \nbad.example\n", "mine");
    assert_eq!(iocs.len(), 2);
    assert_eq!(iocs[0].value, "8.8.8.8");
    assert_eq!(iocs[0].ioc_type, "ip");
    assert_eq!(iocs[1].ioc_type, "domain");
    assert_eq!(iocs[1].confidence, 60);
    assert!(iocs[1].tags.is_none());
}

#[test]
fn misp_warninglist_entries_are_allowlisted() {
    let iocs = manager().parse_misp_warninglist(r#"{"type":"ip","list":["10.0.0.1"," ",5,"  10.0.0.2 "]}"#, "misp");
    assert_eq!(iocs.len(), 2);
    assert_eq!(iocs[0].ioc_type, "ip");
    assert_eq!(iocs[1].value, "10.0.0.2");
    assert!(iocs[0].is_allowlist);
    assert_eq!(iocs[0].confidence, 90);
    assert_eq!(iocs[0].tags.as_deref(), Some("[\"allowlist\"]"));
    let iocs = manager().parse_misp_warninglist(r#"{"list":["a.com"]}"#, "misp");
    assert_eq!(iocs[0].ioc_type, "domain");
    assert!(manager().parse_misp_warninglist("not json", "misp").is_empty());
}

#[test]
fn custom_json_items() {
    let data = r#"[{"type":" domain ","value":"evil.com","confidence":70,"tags":"x","allowlist":true},
                   {"type":"ip"},
                   {"type":"ip","value":"1.1.1.1"}]"#;
    let iocs = manager().parse_custom_json(data, "cj");
    assert_eq!(iocs.len(), 2);
    assert_eq!(iocs[0].ioc_type, "domain");
    assert_eq!(iocs[0].confidence, 70);
    assert_eq!(iocs[0].tags.as_deref(), Some("[\"x\"]"));
    assert!(iocs[0].is_allowlist);
    assert_eq!(iocs[1].confidence, 60);
    assert!(!iocs[1].is_allowlist);
    assert!(manager().parse_custom_json(r#"{"type":"ip"}"#, "cj").is_empty());
}

#[test]
fn custom_json_items_follow_the_ioc_model() {
    let data = r#"[{"type":"hash","value":"abc","confidence":500},
                   {"type":"url","value":"http://a.example/x","confidence":500},
                   {"type":"yara_rule","value":"r1","confidence":-5},
                   {"type":"IP","value":"1.1.1.1"}]"#;
    let iocs = manager().parse_custom_json(data, "cj");
    assert_eq!(iocs.len(), 2);
    assert_eq!(iocs[0].ioc_type, "url");
    assert_eq!(iocs[0].confidence, 100);
    assert_eq!(iocs[1].ioc_type, "yara_rule");
    assert_eq!(iocs[1].confidence, 0);
}

#[test]
fn threatfox_rows() {
    let data = "first_seen_utc,ioc_id,ioc_value,ioc_type,threat_type,fk,confidence\n\
                # a comment\n\
                2024-01-01,1,1.2.3.4:443,ip:port,botnet_cc,x,75\n\
                2024-01-02,2,evil.com,domain,payload,x,notanumber\n\
                2024-01-03,3,abc,SHA256_HASH,payload\n\
                2024-01-04,4,zzz,other,payload,x,10\n";
    let iocs = manager().parse_threatfox_csv(data, "tf");
    assert_eq!(iocs.len(), 3);
    assert_eq!(iocs[0].ioc_type, "ip");
    assert_eq!(iocs[0].value, "1.2.3.4");
    assert_eq!(iocs[0].confidence, 75);
    assert_eq!(iocs[0].tags.as_deref(), Some("[\"botnet_cc\"]"));
    assert_eq!(iocs[0].first_seen.as_deref(), Some("2024-01-01"));
    assert_eq!(iocs[1].ioc_type, "domain");
    assert_eq!(iocs[1].confidence, 50);
    assert_eq!(iocs[2].ioc_type, "sha256");
    assert_eq!(iocs[2].confidence, 50);
    let high = manager().parse_threatfox_csv("h\n2024-01-05,5,evil2.com,domain,payload,x,150\n", "tf");
    assert_eq!(high.len(), 1);
    assert_eq!(high[0].confidence, 100);
}

#[test]
fn malwarebazaar_rows() {
    let sha256 = "A".repeat(64);
    let md5 = "b".repeat(32);
    let data = format!("sha256_hash,md5_hash,sha1_hash,first_seen\n{},{},short,2024-05-01\n", sha256, md5);
    let iocs = manager().parse_malwarebazaar_csv(&data, "mb");
    assert_eq!(iocs.len(), 2);
    assert_eq!(iocs[0].ioc_type, "sha256");
    assert_eq!(iocs[0].value, "a".repeat(64));
    assert_eq!(iocs[0].confidence, 80);
    assert_eq!(iocs[1].ioc_type, "md5");
    assert_eq!(iocs[1].confidence, 75);
    assert_eq!(iocs[1].first_seen.as_deref(), Some("2024-05-01"));
}

#[test]
fn urlhaus_rows() {
    let data = "id,dateadded,url,url_status,last_online,threat,tags,urlhaus_link,reporter\n\
                1,2024-01-01,http://evil.com/a,online,x,malware_download,exe,l,r\n\
                2,2024-01-01,http://9.9.9.9:81/b,Offline,x,malware_download,exe,l,r\n\
                3,2024-01-02,http://1.2.3.4:8080/c,online,x,botnet,elf,l,r\n";
    let iocs = manager().parse_urlhaus_csv(data, "uh");
    assert_eq!(iocs.len(), 4);
    assert_eq!(iocs[0].ioc_type, "url");
    assert_eq!(iocs[0].confidence, 75);
    assert_eq!(iocs[0].tags.as_deref(), Some("[\"malware_download\",\"exe\"]"));
    assert_eq!(iocs[1].ioc_type, "domain");
    assert_eq!(iocs[1].value, "evil.com");
    assert_eq!(iocs[1].confidence, 65);
    assert_eq!(iocs[1].tags.as_deref(), Some("[\"malware_download\"]"));
    assert_eq!(iocs[3].ioc_type, "ip");
    assert_eq!(iocs[3].value, "1.2.3.4");
}

#[test]
fn custom_csv_rows() {
    let data = "type,value\nip,4.4.4.4\n,missing\nhash,abc\ndomain, x.org \n";
    let iocs = manager().parse_custom_csv(data, "cc");
    assert_eq!(iocs.len(), 2);
    assert_eq!(iocs[1].value, "x.org");
    assert_eq!(iocs[1].confidence, 60);
}

#[test]
fn unsupported_feed_types_give_nothing() {
    let m = manager();
    assert!(m.parse_feed(FeedType::SslBlacklist, "1.2.3.4\n", "s").is_empty());
    assert!(m.parse_feed(FeedType::YaraRules, "rule x {}", "y").is_empty());
}

#[test]
fn feed_freshness() {
    let f = feed("A", 24);
    assert!(feed_needs_update_at(None, &f, (1_700_000_000, 0)));
    let rows = vec![FeedStatusRow {
        name: "A".to_string(),
        last_updated: Some("2023-11-14T22:13:20+00:00".to_string()),
        next_update: Some("2023-11-15T22:13:20+00:00".to_string()),
        ioc_count: 3,
        status: "OK".to_string(),
        error_msg: None,
        checksum: None,
    }];
    // 1_700_000_000 is 2023-11-14T22:13:20Z; the next update is a day later.
    assert!(!feed_needs_update_at(Some(&rows), &f, (1_700_000_000, 0)));
    assert!(!feed_needs_update_at(Some(&rows), &f, (1_700_000_000 + 24 * 3600, 0)));
    assert!(feed_needs_update_at(Some(&rows), &f, (1_700_000_000 + 24 * 3600, 1)));
    assert!(feed_needs_update_at(Some(&rows), &feed("B", 24), (1_700_000_000, 0)));
    let mut bad = rows.clone();
    bad[0].next_update = Some("tomorrow".to_string());
    assert!(feed_needs_update_at(Some(&bad), &f, (1_700_000_000, 0)));
    let mut none = rows.clone();
    none[0].next_update = None;
    assert!(feed_needs_update_at(Some(&none), &f, (1_700_000_000, 0)));
}

#[test]
fn status_rows() {
    let u = updating_status("A");
    assert_eq!(u.status, "Updating");
    assert_eq!(u.ioc_count, 0);
    let e = error_status("A", "HTTP 404 Not Found".to_string());
    assert_eq!(e.status, "Error");
    assert_eq!(e.error_msg.as_deref(), Some("HTTP 404 Not Found"));
    let o = ok_status("A", "t1".to_string(), "t2".to_string(), 7, "c0ffee".to_string());
    assert_eq!(o.status, "OK");
    assert_eq!(o.ioc_count, 7);
    assert_eq!(o.next_update.as_deref(), Some("t2"));
    assert_eq!(o.checksum.as_deref(), Some("c0ffee"));
}

#[test]
fn refresh_records_count_and_times() {
    let f = feed("Mine", 6);
    let r = manager().refresh(&f, "1.1.1.1\nevil.org\n").expect("times in range");
    assert_eq!(r.iocs.len(), 2);
    assert_eq!(r.status.ioc_count, 2);
    assert_eq!(r.status.status, "OK");
    assert_eq!(r.status.name, "Mine");
    let last = chrono::DateTime::parse_from_rfc3339(r.status.last_updated.as_deref().unwrap()).unwrap();
    let next = chrono::DateTime::parse_from_rfc3339(r.status.next_update.as_deref().unwrap()).unwrap();
    assert_eq!((next - last).num_hours(), 6);
    assert_eq!(
        r.status.checksum.as_deref(),
        Some("487dcc5db9913ccdf9160a63e1d9d3ae5c649b9e6dd499348e8b5dc737898bef")
    );
}

#[test]
fn refresh_at_a_given_instant() {
    let f = feed("Mine", 6);
    let r = manager().refresh_at(&f, "1.1.1.1\nevil.org\n", (1_700_000_000, 0)).expect("in range");
    assert_eq!(r.status.last_updated.as_deref(), Some("2023-11-14T22:13:20+00:00"));
    assert_eq!(r.status.next_update.as_deref(), Some("2023-11-15T04:13:20+00:00"));
    assert_eq!(r.iocs[0].last_seen.as_deref(), Some("2023-11-14T22:13:20+00:00"));
    assert_eq!(r.iocs[1].value, "evil.org");
    assert_eq!(r.status.ioc_count, 2);
    assert!(manager().refresh_at(&f, "x", (i64::MAX - 10, 0)).is_none());
}

#[test]
fn default_configuration() {
    let c = Config::default();
    assert_eq!(c.scoring.alert_threshold, 30);
    assert_eq!(c.ipc.pipe_name, r"\\.\pipe\HispanShieldAgent");
    assert_eq!(c.feeds.feeds.len(), 8);
    let feeds = default_feeds();
    assert_eq!(feeds[0].name, "MalwareBazaar");
    assert_eq!(feeds[2].ttl_hours, 6);
    assert_eq!(feeds[4].url, "https://feodotracker.abuse.ch/downloads/domainblocklist.txt");
    assert_eq!(feeds[5].feed_type, FeedType::SslBlacklist);
    assert_eq!(feeds[5].ttl_hours, 12);
    assert_eq!(feeds[6].feed_type, FeedType::MispWarninglist);
    assert_eq!(
        feeds[7].url,
        "https://raw.githubusercontent.com/MISP/misp-warninglists/main/lists/microsoft/list.json"
    );
    assert!(feeds.iter().all(|f| f.enabled));
}

#[test]
fn feeds_due_for_update() {
    let mut off = feed("Off", 6);
    off.enabled = false;
    let m = FeedManager::new(FeedsConfig {
        enabled: true,
        auto_update: true,
        update_interval_hours: 6,
        feeds: vec![feed("A", 24), off, feed("B", 24)],
    });
    let rows = vec![FeedStatusRow {
        name: "A".to_string(),
        last_updated: Some("2023-11-14T22:13:20+00:00".to_string()),
        next_update: Some("2023-11-15T22:13:20+00:00".to_string()),
        ioc_count: 1,
        status: "OK".to_string(),
        error_msg: None,
        checksum: None,
    }];
    assert_eq!(m.feeds_due_at(Some(&rows), (1_700_000_000, 0)), vec![2]);
    assert_eq!(m.feeds_due_at(Some(&rows), (1_700_000_000 + 2 * 24 * 3600, 0)), vec![0, 2]);
    assert_eq!(m.feeds_due_at(None, (0, 0)), vec![0, 2]);
}
