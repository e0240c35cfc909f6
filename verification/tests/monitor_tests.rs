use hispanshield_agent::detection::{best_hash_match, single_query, IocMatch, NetworkDetector, NetworkThreatType};
use hispanshield_agent::file_monitor::{
    assess_file, file_too_large, is_excluded, ransomware_event, ModificationTracker,
};
use hispanshield_agent::hashing::hash_bytes;
use hispanshield_agent::monitor::{
    assess_connection, connection_from_row, connection_row, ip_u32_to_string, is_local_peer,
    tcp_state_to_string, BeaconTracker, ConnectionInfo, MonitorEvent,
};
use hispanshield_agent::process_monitor::{
    assess_process, name_from_ansi, name_from_wide, path_not_queried, process_name_of, ProcessInfo,
};
use hispanshield_agent::records::IocEntry;
use hispanshield_agent::registry_monitor::{
    autorun_keys, registry_event, registry_value_text, snapshot_autorun_keys,
};
use hispanshield_agent::scoring::RiskLevel;

fn hit(source: &str, allow: bool) -> IocEntry {
    IocEntry {
        id: None,
        ioc_type: "ip".to_string(),
        value: "203.0.113.9".to_string(),
        source: source.to_string(),
        confidence: 120,
        first_seen: None,
        last_seen: None,
        tags: Some("[\"c2\"]".to_string()),
        is_allowlist: allow,
    }
}

fn conn(remote: &str, port: u16) -> ConnectionInfo {
    ConnectionInfo {
        pid: 4242,
        local_addr: "10.0.0.5".to_string(),
        local_port: 50123,
        remote_addr: remote.to_string(),
        remote_port: port,
        protocol: "TCP".to_string(),
        state: "ESTABLISHED".to_string(),
    }
}

#[test]
fn hashes_of_abc() {
    let (sha256, sha1, md5) = hash_bytes(b"abc");
    assert_eq!(sha256, "ba7816bf8f01cfea414140de5dae2223b00361a396177a9cb410ff61f20015ad");
    assert_eq!(sha1, "a9993e364706816aba3e25717850c26c9cd0d89d");
    assert_eq!(md5, "900150983cd24fb0d6963f7d28e17f72");
    let (e256, _, emd5) = hash_bytes(b"");
    assert_eq!(e256, "e3b0c44298fc1c149afbf4c8996fb92427ae41e4649b934ca495991b7852b855");
    assert_eq!(emd5, "d41d8cd98f00b204e9800998ecf8427e");
}

#[test]
fn addresses_and_states() {
    assert_eq!(ip_u32_to_string(0xC0A8_0001), "192.168.0.1");
    assert_eq!(ip_u32_to_string(0), "0.0.0.0");
    assert_eq!(ip_u32_to_string(u32::MAX), "255.255.255.255");
    assert_eq!(tcp_state_to_string(5), "ESTABLISHED");
    assert_eq!(tcp_state_to_string(2), "LISTENING");
    assert_eq!(tcp_state_to_string(12), "DELETE_TCB");
    assert_eq!(tcp_state_to_string(0), "UNKNOWN");
    assert_eq!(tcp_state_to_string(13), "UNKNOWN");
}

#[test]
fn table_rows_are_byte_swapped() {
    let c = connection_from_row(7, 0x0100_A8C0, 0x0000_BB01, 0x0871_0CCB, 0x0000_5000, 5);
    assert_eq!(c.local_addr, "192.168.0.1");
    assert_eq!(c.local_port, 443);
    assert_eq!(c.remote_addr, "203.12.113.8");
    assert_eq!(c.remote_port, 80);
    assert_eq!(c.protocol, "TCP");
    assert_eq!(c.state, "ESTABLISHED");
    assert_eq!(c.pid, 7);
}

#[test]
fn local_peers_are_skipped() {
    assert!(is_local_peer("127.0.0.1"));
    assert!(is_local_peer("0.0.0.0"));
    assert!(is_local_peer("::"));
    assert!(!is_local_peer("::1"));
    assert!(!is_local_peer("8.8.8.8"));
}

#[test]
fn connection_assessment() {
    let a = assess_connection(&conn("203.0.113.9", 50050), &Some(hit("feed", false)), false, 30);
    assert_eq!(a.score, 90);
    assert!(a.factors.connection_to_ioc && a.factors.rare_port_connection);
    match a.alert {
        Some(MonitorEvent::NetworkAlert { pid, remote_addr, remote_port, score }) => {
            assert_eq!((pid, remote_addr.as_str(), remote_port, score), (4242, "203.0.113.9", 50050, 90));
        }
        other => panic!("unexpected {:?}", other),
    }
    let b = assess_connection(&conn("203.0.113.9", 443), &Some(hit("feed", true)), false, 30);
    assert_eq!(b.score, 0);
    assert!(b.alert.is_none());
    assert!(b.factors.misp_allowlist && !b.factors.connection_to_ioc);
    let m = assess_connection(&conn("203.0.113.9", 135), &Some(hit("misp", true)), true, 40);
    assert_eq!(m.score, 30);
    assert!(m.alert.is_none());
    let c = assess_connection(&conn("198.51.100.1", 135), &None, true, 50);
    assert_eq!(c.score, 50);
    assert!(c.alert.is_some());
    let d = assess_connection(&conn("198.51.100.1", 1024), &None, false, 30);
    assert_eq!(d.score, 0);
    let e = assess_connection(&conn("198.51.100.1", 4444), &None, false, 0);
    assert_eq!(e.score, 0);
    assert!(!e.factors.rare_port_connection);
    let f = assess_connection(&conn("198.51.100.1", 49152), &None, false, 30);
    assert_eq!(f.score, 20);
    let g = assess_connection(&conn("198.51.100.1", 443), &None, false, 30);
    assert!(!g.factors.rare_port_connection);
    let row = connection_row(&conn("203.0.113.9", 50050), None, a.score, true, "t".to_string());
    assert_eq!(row.ioc_match.as_deref(), Some("203.0.113.9"));
    assert_eq!(row.remote_port, Some(50050));
    assert_eq!(row.score, 90);
}

#[test]
fn beaconing_after_more_than_ten_connections_in_a_minute() {
    let mut t = BeaconTracker::new();
    let sec: i64 = 1_000_000_000;
    for i in 0..10 {
        assert!(!t.record_at(1, "203.0.113.9", i * sec));
    }
    assert!(t.record_at(1, "203.0.113.9", 10 * sec));
    assert!(!t.record_at(2, "203.0.113.9", 10 * sec));
    // Seventy seconds later, all but the newest have aged out.
    assert!(!t.record_at(1, "203.0.113.9", 79 * sec));
    let mut live = BeaconTracker::new();
    assert!(!live.record(5, "198.51.100.1"));
}

#[test]
fn detector_beaconing_and_lookups() {
    let mut d = NetworkDetector::new();
    for i in 0..10 {
        assert!(!d.record_and_check_beaconing(3, "198.51.100.7", 1000 + i));
    }
    assert!(d.record_and_check_beaconing(3, "198.51.100.7", 1060));
    d.cleanup_beacon_tracker(1060);
    assert!(d.record_and_check_beaconing(3, "198.51.100.7", 1060));
    d.cleanup_beacon_tracker(2000);
    assert!(!d.record_and_check_beaconing(3, "198.51.100.7", 2000));
    let r = d.check_ip("203.0.113.9", 8443, 9, Some(hit("abuse", false))).unwrap();
    assert_eq!(r.threat_type, NetworkThreatType::IocIp);
    assert_eq!(r.score, 100);
    assert_eq!(r.details, "IP 203.0.113.9 found in IOC feed");
    assert!(d.check_ip("0.0.0.0", 1, 9, Some(hit("abuse", false))).is_none());
    assert!(d.check_ip("203.0.113.9", 1, 9, Some(hit("abuse", true))).is_none());
    assert!(!d.is_rare_port(4444));
    assert!(d.is_rare_port(50000));
    assert!(d.is_rare_port(135));
    assert!(!d.is_rare_port(443));
    assert!(!d.is_rare_port(0));
    assert!(!d.is_rare_port(49151));
}

fn matched(source: &str) -> IocMatch {
    IocMatch {
        ioc_type: "sha256".to_string(),
        value: "x".to_string(),
        source: source.to_string(),
        confidence: 80,
        tags: Some("[\"malware\"]".to_string()),
        is_allowlist: false,
    }
}

#[test]
fn file_in_temp_with_feed_hit_is_critical_malware() {
    let v = assess_file(
        r"C:\Users\bob\AppData\Local\Temp\x.exe",
        "s256".to_string(),
        "s1".to_string(),
        "m5".to_string(),
        &Some(matched("feedA")),
        "2024-01-01T00:00:00+00:00",
    )
    .expect("not clean");
    assert_eq!(v.score, 100);
    assert_eq!(v.level, RiskLevel::Critical);
    assert_eq!(v.event.event_type, "FileScan");
    assert_eq!(v.event.severity, "Critical");
    assert_eq!(v.event.source.as_deref(), Some("FileMonitor"));
    assert_eq!(
        v.event.details.as_deref(),
        Some(r#"{"flags":["exec_from_temp","exec_from_appdata"],"ioc_match":"feedA","md5":"m5","sha1":"s1","sha256":"s256"}"#)
    );
    let t = v.threat.expect("threat");
    assert_eq!(t.threat_type, "Malware");
    assert_eq!(t.detection_method, "Hash");
    assert_eq!(t.name.as_deref(), Some("[\"malware\"]"));
    assert_eq!(t.ioc_source.as_deref(), Some("feedA"));
    assert_eq!(t.status, "Active");
}

#[test]
fn allowlisted_hash_annuls_detection() {
    let mut allowed = matched("allowA");
    allowed.is_allowlist = true;
    assert!(assess_file(
        r"C:\Users\bob\AppData\Local\Temp\x.exe",
        "s256".to_string(),
        "s1".to_string(),
        "m5".to_string(),
        &Some(allowed.clone()),
        "now",
    )
    .is_none());
    let ps = vec![
        proc(100, 1, "WINWORD.EXE", Some(r"C:\Office\WINWORD.EXE")),
        proc(200, 100, "powershell.exe", Some(r"C:\Windows\System32\WindowsPowerShell\v1.0\powershell.exe")),
    ];
    let v = assess_process(&ps[1], &ps, &Some(allowed), "now");
    assert_eq!(v.score, 0);
    assert_eq!(v.level, RiskLevel::Clean);
    assert_eq!(v.flags, vec!["office_spawned_powershell.exe".to_string()]);
    assert!(v.event.is_none() && v.threat.is_none());
}

#[test]
fn script_in_roaming_is_suspicious_only() {
    let v = assess_file(r"C:\Users\bob\AppData\Roaming\run.js", "a".into(), "b".into(), "c".into(), &None, "now")
        .expect("not clean");
    assert_eq!(v.score, 30);
    assert!(v.factors.no_digital_signature);
    assert_eq!(v.event.severity, "Medium");
    assert!(v.threat.is_none());
    assert_eq!(
        v.event.details.as_deref(),
        Some(r#"{"flags":["exec_from_appdata"],"ioc_match":null,"md5":"c","sha1":"b","sha256":"a"}"#)
    );
    assert!(assess_file(r"C:\Program Files\App\app.exe", "a".into(), "b".into(), "c".into(), &None, "now").is_none());
}

#[test]
fn bursts_of_modifications() {
    let mut t = ModificationTracker::new();
    for i in 0..50 {
        let p = format!(r"C:\Users\bob\Documents\f{}.docx", i);
        assert_eq!(t.record(&p, 100), None);
    }
    assert_eq!(t.record(r"C:\Users\bob\Documents\last.docx", 105), Some(r"C:\Users\bob\Documents".to_string()));
    assert_eq!(t.record(r"C:\Users\bob\Other\a.txt", 105), None);
    // Eleven seconds later the earlier ones no longer count.
    assert_eq!(t.record(r"C:\Users\bob\Documents\again.docx", 111), None);
    assert_eq!(t.record(r"C:\", 111), None);
    let e = ransomware_event(r"C:\Users\bob\Documents", "now");
    assert_eq!(e.score, Some(85));
    assert_eq!(e.details.as_deref(), Some(r#"{"reason":"mass_file_modification","type":"Ransomware"}"#));
}

#[test]
fn exclusions_and_size_limit() {
    let ex = vec![r"C:\Program Files\Trusted".to_string(), r"D:\".to_string()];
    assert!(is_excluded(r"C:\Program Files\Trusted\bin\t.exe", &ex));
    assert!(is_excluded(r"d:\data\x.bin", &ex));
    assert!(!is_excluded(r"C:\Program Files\TrustedNot\t.exe", &ex));
    assert!(!is_excluded(r"C:\x.exe", &Vec::new()));
    assert!(file_too_large(50 * 1024 * 1024 + 1));
    assert!(!file_too_large(50 * 1024 * 1024));
}

fn proc(pid: u32, ppid: u32, name: &str, path: Option<&str>) -> ProcessInfo {
    ProcessInfo { pid, ppid, name: name.to_string(), path: path.map(|p| p.to_string()) }
}

#[test]
fn process_assessment() {
    let ps = vec![
        proc(100, 1, "WINWORD.EXE", Some(r"C:\Office\WINWORD.EXE")),
        proc(200, 100, "powershell.exe", Some(r"C:\Windows\System32\WindowsPowerShell\v1.0\powershell.exe")),
        proc(4, 0, "System", None),
    ];
    assert_eq!(process_name_of(&ps, 100), Some("WINWORD.EXE".to_string()));
    assert_eq!(process_name_of(&ps, 999), None);
    let quiet = assess_process(&ps[1], &ps, &None, "now");
    assert_eq!(quiet.score, 20);
    assert_eq!(quiet.flags, vec!["office_spawned_powershell.exe".to_string()]);
    assert_eq!(quiet.snapshot.flags.as_deref(), Some(r#"["office_spawned_powershell.exe"]"#));
    assert_eq!(quiet.snapshot.status, "Running");
    assert_eq!(quiet.snapshot.ppid, Some(100));
    assert!(quiet.event.is_none() && quiet.threat.is_none());

    let loud = assess_process(&ps[1], &ps, &Some(matched("feedX")), "now");
    assert_eq!(loud.score, 100);
    assert_eq!(loud.level, RiskLevel::Critical);
    let e = loud.event.expect("event");
    assert_eq!(e.severity, "Critical");
    assert_eq!(e.details.as_deref(), Some(r#"{"flags":["office_spawned_powershell.exe","ioc_hash_feedX"]}"#));
    let t = loud.threat.expect("threat");
    assert_eq!(t.threat_type, "LOLBin");
    assert_eq!(t.detection_method, "Heuristic");

    let system = assess_process(&ps[2], &ps, &Some(matched("feedX")), "now");
    assert_eq!(system.score, 0);
    assert!(system.snapshot.flags.is_none());
    assert!(path_not_queried(4) && path_not_queried(0) && !path_not_queried(8));
}

#[test]
fn entry_names_stop_at_nul() {
    let mut ansi = [0u8; 16];
    ansi[..7].copy_from_slice(b"cmd.exe");
    assert_eq!(name_from_ansi(&ansi), "cmd.exe");
    let wide: Vec<u16> = "svchost.exe".encode_utf16().chain([0u16, 65, 66]).collect();
    assert_eq!(name_from_wide(&wide), "svchost.exe");
    assert_eq!(name_from_wide(&[0x0061, 0xD800]), "a\u{FFFD}");
}

fn pair(a: &str, b: &str) -> (String, String) {
    (a.to_string(), b.to_string())
}

#[test]
fn autorun_changes_since_baseline() {
    let keys = autorun_keys();
    assert_eq!(keys.len(), 6);
    assert_eq!(keys[0], r"SOFTWARE\Microsoft\Windows\CurrentVersion\Run");
    let base = snapshot_autorun_keys(vec![
        vec![pair("OneDrive", "C:\\od.exe")],
        vec![],
        vec![],
        vec![],
        vec![],
        vec![],
    ]);
    let now = snapshot_autorun_keys(vec![
        vec![pair("OneDrive", "C:\\od.exe"), pair("Updater", "C:\\Temp\\u.exe")],
        vec![pair("Once", "x")],
        vec![],
        vec![],
        vec![],
        vec![],
    ]);
    let changes = now.changes_since(&base);
    assert_eq!(changes.len(), 2);
    assert_eq!(changes[0].value_name, "Updater");
    assert_eq!(changes[1].key, r"SOFTWARE\Microsoft\Windows\CurrentVersion\RunOnce");
    let e = registry_event(&changes[0], "t");
    assert_eq!(e.path.as_deref(), Some(r"SOFTWARE\Microsoft\Windows\CurrentVersion\Run\Updater"));
    assert_eq!(
        e.details.as_deref(),
        Some(r#"{"key":"SOFTWARE\Microsoft\Windows\CurrentVersion\Run","value_name":"Updater","data":"C:\Temp\u.exe"}"#)
    );
    assert_eq!(e.score, Some(35));
    assert_eq!(e.severity, "High");
    assert!(base.changes_since(&now).is_empty());
    assert!(now.changes_since(&now).is_empty());
}

#[test]
fn registry_value_texts() {
    let mut data: Vec<u8> = "C:\\a.exe".encode_utf16().flat_map(|u| u.to_le_bytes()).collect();
    data.extend_from_slice(&[0, 0, 0, 0]);
    assert_eq!(registry_value_text(1, &data), "C:\\a.exe");
    assert_eq!(registry_value_text(2, &data[..3]), "C");
    assert_eq!(registry_value_text(4, &[1, 2, 3, 4]), "<binary:4>");
    assert_eq!(registry_value_text(3, &[]), "<binary:0>");
}

fn entry(source: &str, confidence: i64) -> IocEntry {
    IocEntry { confidence, source: source.to_string(), ..hit(source, false) }
}

#[test]
fn hash_match_prefers_highest_confidence() {
    assert!(best_hash_match(vec![None, None, None]).is_none());
    assert!(best_hash_match(Vec::new()).is_none());
    let m = best_hash_match(vec![Some(entry("a", 60)), None, Some(entry("c", 90))]).unwrap();
    assert_eq!(m.source, "c");
    assert_eq!(m.confidence, 90);
    let m = best_hash_match(vec![Some(entry("a", 90)), Some(entry("b", 90)), Some(entry("c", 10))]).unwrap();
    assert_eq!(m.source, "a");
    let m = best_hash_match(vec![None, Some(entry("b", -5))]).unwrap();
    assert_eq!(m.source, "b");
}

#[test]
fn details_escape_like_serde_json() {
    let v = assess_file(
        r"C:\Users\bob\AppData\Local\Temp\x.exe",
        "s\"256".to_string(),
        "s1\n".to_string(),
        "m5\u{1}é".to_string(),
        &Some(matched("fe\\ed")),
        "now",
    )
    .expect("not clean");
    assert_eq!(
        v.event.details.as_deref(),
        Some(r#"{"flags":["exec_from_temp","exec_from_appdata"],"ioc_match":"fe\\ed","md5":"m5\u0001é","sha1":"s1\n","sha256":"s\"256"}"#)
    );
}

#[test]
fn single_lookups_skip_empty_values() {
    assert_eq!(single_query("ip", ""), None);
    assert_eq!(single_query("ip", "1.2.3.4"), Some(("ip", "1.2.3.4".to_string())));
}
