use serde_json::Value;

fn envelope(s: &str) -> Value {
    serde_json::from_str(s).expect("invalid JSON envelope")
}

#[test]
fn determinism_repeated_parses_agree() {
    let out = "Cisco IOS Software, C3750 Software (C3750-IPSERVICESK9-M), Version 12.2(55)SE10, RELEASE SOFTWARE (fc2)\nRouter01 uptime is 2 days\n";
    let a = netcli_core::parse_records("cisco_ios", "show_version", out).unwrap();
    let b = netcli_core::parse_records("cisco_ios", "show_version", out).unwrap();
    assert_eq!(a, b);
    let ja = netcli_core::parse_json("cisco_ios", "show_version", out);
    let jb = netcli_core::parse_json("cisco_ios", "show_version", out);
    assert_eq!(ja, jb);
}

#[test]
fn list_value_accumulates_captures() {
    let tpl = "Value List port (\\d+)\n\nStart\n  ^port ${port} -> NoRecord\n";
    let s = netcli_core::textfsm::parse_json("v", "k", tpl, "port 1\nport 2\nport 3\n");
    let v = envelope(&s);
    assert_eq!(v["ok"], true);
    let ports = v["records"][0]["port"].as_array().unwrap();
    assert_eq!(ports.len(), 3);
    assert_eq!(ports[0], "1");
    assert_eq!(ports[1], "2");
    assert_eq!(ports[2], "3");
}

#[test]
fn scalar_capture_overwrites() {
    let tpl = "Value host (\\S+)\n\nStart\n  ^name ${host} -> NoRecord\n";
    let s = netcli_core::textfsm::parse_json("v", "k", tpl, "name one\nname two\n");
    let v = envelope(&s);
    assert_eq!(v["ok"], true);
    assert_eq!(v["records"][0]["host"], "two");
}

#[test]
fn filldown_survives_record_reset() {
    let tpl = "Value Filldown group (\\S+)\nValue Required item (\\S+)\n\nStart\n  ^group ${group} -> NoRecord\n  ^item ${item}\n";
    let out = "group alpha\nitem one\nitem two\n";
    let s = netcli_core::textfsm::parse_json("v", "k", tpl, out);
    let v = envelope(&s);
    assert_eq!(v["ok"], true);
    let recs = v["records"].as_array().unwrap();
    assert_eq!(recs.len(), 2);
    assert_eq!(recs[0]["group"], "alpha");
    assert_eq!(recs[1]["group"], "alpha");
    assert_eq!(recs[1]["item"], "two");
}

#[test]
fn clearall_resets_filldown_cells() {
    let tpl = "Value Filldown group (\\S+)\nValue Required item (\\S+)\n\nStart\n  ^group ${group} -> NoRecord\n  ^reset -> Clearall NoRecord\n  ^item ${item}\n";
    let out = "group alpha\nreset\nitem one\n";
    let s = netcli_core::textfsm::parse_json("v", "k", tpl, out);
    let v = envelope(&s);
    assert_eq!(v["ok"], true);
    let recs = v["records"].as_array().unwrap();
    assert_eq!(recs.len(), 1);
    assert_eq!(recs[0]["group"], "");
}

#[test]
fn fillup_propagates_backward() {
    let tpl = "Value Fillup owner (\\S+)\nValue Required item (\\S+)\n\nStart\n  ^item ${item}\n  ^owner ${owner} -> NoRecord\n";
    let out = "item one\nitem two\nowner bob\nitem three\n";
    let s = netcli_core::textfsm::parse_json("v", "k", tpl, out);
    let v = envelope(&s);
    assert_eq!(v["ok"], true);
    let recs = v["records"].as_array().unwrap();
    assert_eq!(recs.len(), 3);
    assert_eq!(recs[0]["owner"], "bob");
    assert_eq!(recs[1]["owner"], "bob");
    assert_eq!(recs[2]["owner"], "bob");
}

#[test]
fn required_gating_suppresses_partial_records() {
    let tpl = "Value Required a (\\S+)\nValue Required b (\\S+)\n\nStart\n  ^a ${a}\n  ^b ${b}\n";
    let out = "a one\n";
    let s = netcli_core::textfsm::parse_json("v", "k", tpl, out);
    let v = envelope(&s);
    assert_eq!(v["ok"], true);
    assert!(v["records"].as_array().unwrap().is_empty());
}

#[test]
fn filter_values_omitted_from_records() {
    let tpl = "Value Filter secret (\\S+)\nValue name (\\S+)\n\nStart\n  ^${name} ${secret} -> NoRecord\n";
    let s = netcli_core::textfsm::parse_json("v", "k", tpl, "alice hunter2\n");
    let v = envelope(&s);
    assert_eq!(v["ok"], true);
    let rec = v["records"][0].as_object().unwrap();
    assert!(rec.contains_key("name"));
    assert!(!rec.contains_key("secret"));
}

#[test]
fn error_action_aborts_parse() {
    let tpl = "Value a (\\S+)\n\nStart\n  ^bad -> Error boom\n  ^a ${a} -> NoRecord\n";
    let s = netcli_core::textfsm::parse_json("v", "k", tpl, "a one\nbad\n");
    let v = envelope(&s);
    assert_eq!(v["ok"], false);
    assert_eq!(v["error"]["code"], "PARSE_ERROR");
    assert!(v["error"]["message"].as_str().unwrap().contains("boom"));
}

#[test]
fn continue_with_transition_is_rejected() {
    let tpl = "Value a (\\S+)\n\nStart\n  ^x -> Continue Other\n\nOther\n  ^a ${a}\n";
    let s = netcli_core::textfsm::parse_json("v", "k", tpl, "x\n");
    let v = envelope(&s);
    assert_eq!(v["ok"], false);
    assert_eq!(v["error"]["code"], "TEMPLATE_INVALID");
}

#[test]
fn duplicate_value_name_is_rejected() {
    let tpl = "Value a (\\S+)\nValue a (\\d+)\n\nStart\n  ^a ${a}\n";
    let s = netcli_core::textfsm::parse_json("v", "k", tpl, "x\n");
    let v = envelope(&s);
    assert_eq!(v["ok"], false);
    assert_eq!(v["error"]["code"], "TEMPLATE_INVALID");
    assert!(v["error"]["message"].as_str().unwrap().contains("line 2"));
}

#[test]
fn missing_start_state_is_rejected() {
    let tpl = "Value a (\\S+)\n\nBegin\n  ^a ${a}\n";
    let s = netcli_core::textfsm::parse_json("v", "k", tpl, "x\n");
    let v = envelope(&s);
    assert_eq!(v["ok"], false);
    assert_eq!(v["error"]["code"], "TEMPLATE_INVALID");
    assert!(v["error"]["message"].as_str().unwrap().contains("Start"));
}

#[test]
fn unknown_transition_is_rejected() {
    let tpl = "Value a (\\S+)\n\nStart\n  ^a ${a} -> Nowhere\n";
    let s = netcli_core::textfsm::parse_json("v", "k", tpl, "x\n");
    let v = envelope(&s);
    assert_eq!(v["ok"], false);
    assert_eq!(v["error"]["code"], "TEMPLATE_INVALID");
}

#[test]
fn undeclared_value_reference_is_rejected() {
    let tpl = "Value a (\\S+)\n\nStart\n  ^a ${missing}\n";
    let s = netcli_core::textfsm::parse_json("v", "k", tpl, "x\n");
    let v = envelope(&s);
    assert_eq!(v["ok"], false);
    assert_eq!(v["error"]["code"], "TEMPLATE_INVALID");
    assert!(v["error"]["message"].as_str().unwrap().contains("undeclared"));
}

#[test]
fn crlf_line_endings_are_stripped() {
    let tpl = "Value a (\\S+)\n\nStart\n  ^a ${a}$\n";
    let s = netcli_core::textfsm::parse_json("v", "k", tpl, "a one\r\na two\r\n");
    let v = envelope(&s);
    assert_eq!(v["ok"], true);
    let recs = v["records"].as_array().unwrap();
    assert_eq!(recs.len(), 2);
    assert_eq!(recs[0]["a"], "one");
    assert_eq!(recs[1]["a"], "two");
}

#[test]
fn eof_state_flushes_one_record() {
    let tpl = "Value a (\\S+)\n\nStart\n  ^a ${a} -> NoRecord\n\nEOF\n  ^ -> Record\n";
    let s = netcli_core::textfsm::parse_json("v", "k", tpl, "a one\n");
    let v = envelope(&s);
    assert_eq!(v["ok"], true);
    let recs = v["records"].as_array().unwrap();
    assert_eq!(recs.len(), 1);
    assert_eq!(recs[0]["a"], "one");
}

#[test]
fn end_transition_halts_the_machine() {
    let tpl = "Value Required a (\\S+)\n\nStart\n  ^stop -> End\n  ^a ${a}\n";
    let s = netcli_core::textfsm::parse_json("v", "k", tpl, "a one\nstop\na two\n");
    let v = envelope(&s);
    assert_eq!(v["ok"], true);
    let recs = v["records"].as_array().unwrap();
    assert_eq!(recs.len(), 1);
    assert_eq!(recs[0]["a"], "one");
}

#[test]
fn state_transition_switches_rule_sets() {
    let tpl = "Value Required a (\\S+)\n\nStart\n  ^begin -> NoRecord Body\n\nBody\n  ^a ${a}\n";
    let s = netcli_core::textfsm::parse_json("v", "k", tpl, "a zero\nbegin\na one\n");
    let v = envelope(&s);
    assert_eq!(v["ok"], true);
    let recs = v["records"].as_array().unwrap();
    assert_eq!(recs.len(), 1);
    assert_eq!(recs[0]["a"], "one");
}

#[test]
fn success_envelope_has_exactly_the_expected_keys() {
    let s = netcli_core::parse_json("cisco_ios", "show_version", "nothing matches\n");
    let v = envelope(&s);
    let obj = v.as_object().unwrap();
    assert_eq!(obj.len(), 4);
    assert!(obj.contains_key("ok"));
    assert!(obj.contains_key("platform"));
    assert!(obj.contains_key("commandKey"));
    assert!(obj.contains_key("records"));
}

#[test]
fn error_envelope_has_exactly_the_expected_keys() {
    let s = netcli_core::parse_json("no_such_os", "show_version", "text\n");
    let v = envelope(&s);
    let obj = v.as_object().unwrap();
    assert_eq!(obj.len(), 2);
    assert!(obj.contains_key("ok"));
    assert!(obj.contains_key("error"));
    let err = v["error"].as_object().unwrap();
    assert_eq!(err.len(), 2);
    assert!(err.contains_key("code"));
    assert!(err.contains_key("message"));
}

#[test]
fn envelope_escapes_special_characters() {
    let s = netcli_core::parse_json("we\"ird\\os", "show_version", "text\n");
    let v = envelope(&s);
    assert_eq!(v["ok"], false);
    assert!(v["error"]["message"].as_str().unwrap().contains("we\"ird\\os"));
}

#[test]
fn record_get_returns_none_for_missing_field() {
    let out = "Cisco IOS Software, C3750 Software (C3750-IPSERVICESK9-M), Version 12.2(55)SE10, RELEASE SOFTWARE (fc2)\n";
    let recs = netcli_core::parse_records("cisco_ios", "show_version", out).unwrap();
    assert_eq!(recs.len(), 1);
    assert!(recs[0].get("no_such_field").is_none());
    assert_eq!(recs[0].get("version").unwrap(), "12.2(55)SE10");
}

#[test]
fn normalize_passes_records_through() {
    let out = "Cisco IOS Software, C3750 Software (C3750-IPSERVICESK9-M), Version 12.2(55)SE10, RELEASE SOFTWARE (fc2)\n";
    let recs = netcli_core::parse_records("cisco_ios", "show_version", out).unwrap();
    let same = netcli_core::normalize::normalize("show_version", recs.clone());
    assert_eq!(same, recs);
}

#[test]
fn alternation_prefers_the_left_branch() {
    let tpl = "Value st (up|down|administratively down)\n\nStart\n  ^state ${st}$ -> NoRecord\n";
    let s = netcli_core::textfsm::parse_json("v", "k", tpl, "state administratively down\n");
    let v = envelope(&s);
    assert_eq!(v["ok"], true);
    assert_eq!(v["records"][0]["st"], "administratively down");
}

#[test]
fn bounded_repetition_matches_exact_counts() {
    let tpl = "Value mac ([0-9a-f]{2}(:[0-9a-f]{2}){5})\n\nStart\n  ^mac ${mac}$ -> NoRecord\n";
    let s = netcli_core::textfsm::parse_json("v", "k", tpl, "mac e8:c5:7a:03:56:1a\n");
    let v = envelope(&s);
    assert_eq!(v["ok"], true);
    assert_eq!(v["records"][0]["mac"], "e8:c5:7a:03:56:1a");
}

#[test]
fn parse_text_composes_compile_and_run() {
    let tpl = "Value Required name (\\S+)\n\nStart\n  ^user ${name}\n";
    let recs = netcli_core::parse::parse_text(tpl, "user alice\nuser bob\n").unwrap();
    assert_eq!(recs.len(), 2);
    assert_eq!(recs[0].get("name").unwrap(), "alice");
    assert_eq!(recs[1].get("name").unwrap(), "bob");
    let err = netcli_core::parse::parse_text("broken", "x\n").unwrap_err();
    assert_eq!(err.code(), "TEMPLATE_INVALID");
}
