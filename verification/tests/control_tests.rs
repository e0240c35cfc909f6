use hispanshield_agent::detection::{flatten_string_matches, is_rule_file, StringHits, BUILTIN_RULES};
use hispanshield_agent::firewall::{
    block_ip_command, block_ip_failure, block_program_commands, block_program_failure,
    list_rules_command, parse_rule_names, remove_all_rules_command, unblock_ip_command, RULE_PREFIX,
};
use hispanshield_agent::intel::JsonValue;
use hispanshield_agent::ipc::{
    answer_outcome, exception_key, manual_block_entry, page_params, protection_enabled, read_request,
    reply, required_pid, required_str, route, screen_line, status_result, Admission, IpcClient,
    RpcMethod, EVENTS_PAGE, INTERNAL_ERROR, PARSE_ERROR, THREATS_PAGE, UNAUTHORIZED,
};
use hispanshield_agent::service::{
    agent_command, on_control, AgentCommand, ControlReply, ServiceControlKind, SERVICE_NAME,
};

fn strs(v: &[&str]) -> Vec<String> {
    v.iter().map(|s| s.to_string()).collect()
}

#[test]
fn firewall_ip_rules() {
    assert_eq!(RULE_PREFIX, "HispanShield-Block-");
    assert_eq!(
        block_ip_command("203.0.113.9").unwrap(),
        strs(&[
            "advfirewall",
            "firewall",
            "add",
            "rule",
            "name=HispanShield-Block-203.0.113.9",
            "dir=out",
            "action=block",
            "remoteip=203.0.113.9",
            "enable=yes",
            "profile=any",
            "description=HispanShield auto-block",
        ])
    );
    assert_eq!(
        block_ip_command("1.2.3.4 & calc").unwrap_err(),
        "Invalid IP address: 1.2.3.4 & calc"
    );
    assert_eq!(
        unblock_ip_command("2001:db8::1").unwrap(),
        strs(&["advfirewall", "firewall", "delete", "rule", "name=HispanShield-Block-2001:db8::1"])
    );
    assert!(unblock_ip_command("").is_err());
    assert_eq!(block_ip_failure("1.1.1.1"), "netsh failed to block IP 1.1.1.1");
}

#[test]
fn firewall_program_rules() {
    let cmds = block_program_commands(r"C:\Tools\nc.exe").unwrap();
    assert_eq!(cmds.len(), 2);
    assert_eq!(cmds[0][4], "name=HispanShield-Block-prog-nc.exe-in");
    assert_eq!(cmds[0][5], "dir=in");
    assert_eq!(cmds[0][7], r"program=C:\Tools\nc.exe");
    assert_eq!(cmds[1][4], "name=HispanShield-Block-prog-nc.exe-out");
    assert_eq!(cmds[1][10], "description=HispanShield auto-block program");
    let quoted = block_program_commands("\"C:\\a b\\x.exe\"").unwrap();
    assert_eq!(quoted[0][7], r"program=C:\a b\x.exe");
    assert_eq!(quoted[0][4], "name=HispanShield-Block-prog-x.exe\"-in");
    let rootish = block_program_commands(r"C:\").unwrap();
    assert_eq!(rootish[1][4], "name=HispanShield-Block-prog-unknown-out");
    assert_eq!(block_program_commands("").unwrap_err(), "Empty program path");
    assert_eq!(
        block_program_failure("p.exe", "in"),
        "netsh failed to block program p.exe direction in"
    );
    assert_eq!(
        remove_all_rules_command(),
        strs(&["advfirewall", "firewall", "delete", "rule", "name=HispanShield-Block-*"])
    );
    assert_eq!(list_rules_command()[5], "verbose");
}

#[test]
fn firewall_rule_listing() {
    let listing = "\r\nRule Name:    HispanShield-Block-1.2.3.4\r\n----------\r\nEnabled: Yes\r\n   Rule Name: Indented\r\nRule Name:Rule Name: twice\n";
    assert_eq!(
        parse_rule_names(listing),
        strs(&["HispanShield-Block-1.2.3.4", "Rule Name: Indented", "twice"])
    );
    assert!(parse_rule_names("No rules match the specified criteria.").is_empty());
    assert_eq!(parse_rule_names("Rule Name: A\rRule Name: B"), strs(&["A\rRule Name: B"]));
    assert_eq!(parse_rule_names("Rule Name: A\r\n\nRule Name: B"), strs(&["A", "B"]));
}

#[test]
fn ipc_screening() {
    assert!(matches!(screen_line("  \r\n", "tok"), Admission::Ignore));
    match screen_line("not json", "tok") {
        Admission::Reject(r) => {
            let e = r.error.unwrap();
            assert_eq!((e.code, e.message.as_str()), (PARSE_ERROR, "Parse error"));
            assert!(r.id.is_none());
            assert_eq!(r.jsonrpc, "2.0");
        }
        _ => panic!("expected a parse error"),
    }
    match screen_line(r#"{"jsonrpc":"2.0","method":"get_stats","id":7}"#, "tok") {
        Admission::Reject(r) => assert_eq!(r.error.unwrap().code, PARSE_ERROR),
        _ => panic!("a request without a token does not parse"),
    }
    match screen_line(r#"{"jsonrpc":"2.0","method":"get_stats","id":7,"auth":"bad"}"#, "tok") {
        Admission::Reject(r) => {
            let e = r.error.unwrap();
            assert_eq!((e.code, e.message.as_str()), (UNAUTHORIZED, "Unauthorized"));
            assert!(matches!(r.id, Some(JsonValue::Number(Some(7), Some(7)))));
        }
        _ => panic!("expected unauthorized"),
    }
    match screen_line(
        r#" {"jsonrpc":"2.0","method":"get_threats","params":{"limit":5},"id":null,"auth":"tok","extra":1} "#,
        "tok",
    ) {
        Admission::Accept(q) => {
            assert_eq!(q.method, "get_threats");
            assert!(q.id.is_none());
            assert_eq!(page_params(&q.params, THREATS_PAGE), (5, 0));
            assert_eq!(page_params(&None, EVENTS_PAGE), (200, 0));
        }
        _ => panic!("expected acceptance"),
    }
    match screen_line(r#"["2.0","get_config",null,3,"tok"]"#, "tok") {
        Admission::Accept(q) => {
            assert_eq!(q.method, "get_config");
            assert!(q.params.is_none());
            assert!(matches!(q.id, Some(JsonValue::Number(Some(3), Some(3)))));
        }
        _ => panic!("the array form is a request too"),
    }
    assert!(read_request(JsonValue::Array(Vec::new())).is_none());
}

#[test]
fn ipc_routing_and_parameters() {
    assert_eq!(route("get_status").unwrap(), RpcMethod::GetStatus);
    assert_eq!(route("block_ioc").unwrap(), RpcMethod::BlockIoc);
    assert_eq!(route("set_config").unwrap(), RpcMethod::SetConfig);
    assert_eq!(route("scan_file").unwrap(), RpcMethod::ScanFile);
    assert_eq!(route("scan_path").unwrap(), RpcMethod::ScanPath);
    assert_eq!(route("scan").unwrap_err(), "Method not found: scan");
    assert_eq!(route("GET_STATUS").unwrap_err(), "Method not found: GET_STATUS");
    let params = Some(JsonValue::Object(vec![
        ("path".to_string(), JsonValue::Str(r"C:\x".to_string())),
        ("pid".to_string(), JsonValue::Number(None, Some(4294967297))),
        ("limit".to_string(), JsonValue::Str("5".to_string())),
    ]));
    assert_eq!(required_str(&params, "path").unwrap(), r"C:\x");
    assert_eq!(required_str(&params, "id").unwrap_err(), "id required");
    assert_eq!(required_str(&None, "path").unwrap_err(), "path required");
    assert_eq!(required_pid(&params).unwrap(), 1);
    assert_eq!(required_pid(&None).unwrap_err(), "pid required");
    assert_eq!(page_params(&params, 100), (100, 0));
    assert!(protection_enabled(&None));
    assert!(protection_enabled(&Some("false".to_string())));
    assert!(!protection_enabled(&Some("true".to_string())));
    assert_eq!(exception_key(r"C:\Tools"), r"exception:C:\Tools");
    let e = manual_block_entry("domain", "evil.example", "t0");
    assert_eq!(e.source, "manual_block");
    assert_eq!(e.confidence, 100);
    assert_eq!(e.tags.as_deref(), Some("[\"manual\"]"));
    assert_eq!(e.first_seen.as_deref(), Some("t0"));
}

#[test]
fn ipc_answers() {
    let ok = reply(Some(JsonValue::Number(Some(1), Some(1))), Ok(JsonValue::Bool(true)));
    assert!(matches!(ok.result, Some(JsonValue::Bool(true))));
    assert!(ok.error.is_none());
    let failed = reply(None, Err("boom".to_string()));
    let e = failed.error.unwrap();
    assert_eq!((e.code, e.message.as_str()), (INTERNAL_ERROR, "boom"));
    let s = status_result(false, None, 42, "0.1.0");
    match s {
        JsonValue::Object(m) => {
            assert_eq!(m.len(), 5);
            assert_eq!(m[1].0, "protection_enabled");
            assert!(matches!(m[1].1, JsonValue::Bool(false)));
            assert!(matches!(m[3].1, JsonValue::Number(Some(42), Some(42))));
        }
        _ => panic!("object expected"),
    }
}

#[test]
fn ipc_client_side() {
    let c = IpcClient::new(r"\\.\pipe\HispanShieldAgent", "secret");
    assert_eq!(c.pipe(), r"\\.\pipe\HispanShieldAgent");
    match c.request("get_stats", None) {
        JsonValue::Object(m) => {
            let keys: Vec<&str> = m.iter().map(|(k, _)| k.as_str()).collect();
            assert_eq!(keys, vec!["auth", "id", "jsonrpc", "method", "params"]);
            assert!(matches!(&m[0].1, JsonValue::Str(a) if a == "secret"));
            assert!(matches!(m[4].1, JsonValue::Null));
        }
        _ => panic!("object expected"),
    }
    let resp = JsonValue::Object(vec![
        ("jsonrpc".to_string(), JsonValue::Str("2.0".to_string())),
        ("result".to_string(), JsonValue::Bool(true)),
    ]);
    assert!(matches!(answer_outcome(resp), Ok(JsonValue::Bool(true))));
    let resp = JsonValue::Object(vec![("error".to_string(), JsonValue::Null)]);
    assert!(matches!(answer_outcome(resp), Err(JsonValue::Null)));
    assert!(matches!(answer_outcome(JsonValue::Object(Vec::new())), Ok(JsonValue::Null)));
}

#[test]
fn service_commands_and_controls() {
    assert_eq!(SERVICE_NAME, "HispanShieldAgent");
    assert_eq!(agent_command(Some("install")), AgentCommand::Install);
    assert_eq!(agent_command(Some("run")), AgentCommand::Run);
    assert_eq!(agent_command(Some("Run")), AgentCommand::Default);
    assert_eq!(agent_command(None), AgentCommand::Default);
    let stop = on_control(ServiceControlKind::Stop);
    assert!(stop.signal_shutdown);
    assert_eq!(stop.reply, ControlReply::NoError);
    let ask = on_control(ServiceControlKind::Interrogate);
    assert!(!ask.signal_shutdown);
    assert_eq!(on_control(ServiceControlKind::Other).reply, ControlReply::NotImplemented);
    assert!(on_control(ServiceControlKind::Shutdown).signal_shutdown);
}

#[test]
fn yara_helpers() {
    assert!(is_rule_file(r"C:\rules\apt.yar"));
    assert!(is_rule_file(r"C:\rules\apt.yara"));
    assert!(!is_rule_file(r"C:\rules\apt.YAR"));
    assert!(!is_rule_file(r"C:\rules\yar"));
    assert!(BUILTIN_RULES.contains("rule PE_Executable"));
    let flat = flatten_string_matches(&vec![
        StringHits { identifier: "$a".to_string(), hits: vec![(0, vec![0x4d, 0x5a]), (9, vec![1])] },
        StringHits { identifier: "$b".to_string(), hits: vec![] },
        StringHits { identifier: "$c".to_string(), hits: vec![(4, vec![])] },
    ]);
    assert_eq!(flat.len(), 3);
    assert_eq!(flat[1].identifier, "$a");
    assert_eq!(flat[1].offset, 9);
    assert_eq!(flat[2].identifier, "$c");
    assert_eq!(flat[0].data, vec![0x4d, 0x5a]);
}
