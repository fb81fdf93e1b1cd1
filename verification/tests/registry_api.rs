use netcli_core::registry::expand_abbreviation;
use netcli_core::registry::lookup;
use netcli_core::registry::lookup_command;
use netcli_core::registry::load_template_text;
use netcli_core::registry::normalize_command;
use netcli_core::registry::normalize_raw;
use netcli_core::registry::resolve_platform;

#[test]
fn normalize_simple_command() {
    assert_eq!(normalize_command("show version"), "show_version");
}

#[test]
fn normalize_multi_word() {
    assert_eq!(normalize_command("show ip bgp summary"), "show_ip_bgp_summary");
}

#[test]
fn normalize_trims_whitespace() {
    assert_eq!(normalize_command("  show version  "), "show_version");
}

#[test]
fn normalize_collapses_multiple_spaces() {
    assert_eq!(normalize_command("show    ip    route"), "show_ip_route");
}

#[test]
fn normalize_lowercases() {
    assert_eq!(normalize_command("Show Version"), "show_version");
    assert_eq!(normalize_command("SHOW IP BGP"), "show_ip_bgp");
}

#[test]
fn normalize_handles_tabs_and_mixed_whitespace() {
    assert_eq!(normalize_command("show\t\tversion"), "show_version");
    assert_eq!(normalize_command(" show \t ip \n route "), "show_ip_route");
}

#[test]
fn normalize_empty_string() {
    assert_eq!(normalize_command(""), "");
}

#[test]
fn normalize_whitespace_only() {
    assert_eq!(normalize_command("   "), "");
    assert_eq!(normalize_command("\t\n"), "");
}

#[test]
fn normalize_already_normalized() {
    assert_eq!(normalize_command("show_version"), "show_version");
}

#[test]
fn normalize_converts_hyphens_to_underscores() {
    assert_eq!(normalize_command("show running-config"), "show_running_config");
    assert_eq!(normalize_command("show mac address-table"), "show_mac_address_table");
    assert_eq!(normalize_command("show spanning-tree"), "show_spanning_tree");
}

#[test]
fn normalize_strips_pipe_characters() {
    assert_eq!(normalize_command("show config | flatten"), "show_config_flatten");
    assert_eq!(
        normalize_command("show running-config | include hostname"),
        "show_running_config_include_hostname"
    );
}

#[test]
fn normalize_expands_abbreviations() {
    assert_eq!(normalize_command("sho version"), "show_version");
    assert_eq!(normalize_command("sh ver"), "show_version");
    assert_eq!(normalize_command("sho ip int br"), "show_ip_interface_brief");
    assert_eq!(
        normalize_command("sho ip int br | ex unas"),
        "show_ip_interface_brief_exclude_unassigned"
    );
    assert_eq!(normalize_command("sho line"), "show_line");
}

#[test]
fn normalize_single_word() {
    assert_eq!(normalize_command("dir"), "dir");
}

#[test]
fn normalize_full_commands_unchanged() {
    assert_eq!(normalize_command("show ip interface brief"), "show_ip_interface_brief");
    assert_eq!(normalize_command("show interfaces status"), "show_interfaces_status");
    assert_eq!(normalize_command("show system version"), "show_system_version");
}

#[test]
fn lookup_command_expanded_match() {
    let (key, entry) = lookup_command("cisco_ios", "show ip interface brief");
    assert_eq!(key, "show_ip_interface_brief");
    assert!(entry.is_some());
}

#[test]
fn lookup_command_abbreviated_expanded_match() {
    let (key, entry) = lookup_command("cisco_ios", "sho ip int br | ex unas");
    assert!(entry.is_some());
    assert_eq!(key, "show_ip_interface_brief_exclude_unassigned");
}

#[test]
fn lookup_command_abbreviated_with_existing_expanded() {
    let (key, entry) = lookup_command("cisco_ios", "show ip int br");
    assert!(entry.is_some());
    assert_eq!(key, "show_ip_interface_brief");
}

#[test]
fn normalize_raw_preserves_non_show_abbreviations() {
    assert_eq!(normalize_raw("sho ip int br | ex unas"), "show_ip_int_br_ex_unas");
    assert_eq!(normalize_raw("show running-config"), "show_running_config");
}

#[test]
fn lookup_known_entry() {
    let entry = lookup("cisco_ios", "show_version");
    assert!(entry.is_some());
    let e = entry.unwrap();
    assert_eq!(e.platform, "cisco_ios");
    assert_eq!(e.command_key, "show_version");
    assert!(e.template.ends_with(".textfsm"));
}

#[test]
fn lookup_unknown_entry() {
    assert!(lookup("nonexistent_os", "show_version").is_none());
    assert!(lookup("cisco_ios", "show_magic_unicorn").is_none());
}

#[test]
fn resolve_platform_alias() {
    assert_eq!(resolve_platform("cisco_iosxe"), "cisco_ios");
    assert_eq!(resolve_platform("cisco_ios"), "cisco_ios");
    assert_eq!(resolve_platform("arista_eos"), "arista_eos");
    assert_eq!(resolve_platform("nokia_sros"), "alcatel_sros");
    assert_eq!(resolve_platform("cisco_iosxr"), "cisco_xr");
}

#[test]
fn lookup_via_alias() {
    let entry = lookup("cisco_iosxe", "show_version");
    assert!(entry.is_some());
    let e = entry.unwrap();
    assert_eq!(e.platform, "cisco_ios");
    assert_eq!(e.command_key, "show_version");
}

#[test]
fn lookup_via_nokia_alias() {
    let entry = lookup("nokia_sros", "show_system_cpu");
    assert!(entry.is_some());
    let e = entry.unwrap();
    assert_eq!(e.platform, "alcatel_sros");
}

#[test]
fn lookup_via_iosxr_alias() {
    let entry = lookup("cisco_iosxr", "show_version");
    assert!(entry.is_some());
    let e = entry.unwrap();
    assert_eq!(e.platform, "cisco_xr");
}

#[test]
fn load_template_for_known_entry() {
    let entry = lookup("cisco_ios", "show_version").unwrap();
    let text = load_template_text(&entry);
    assert!(text.is_some());
    let content = text.unwrap();
    assert!(content.contains("Value"), "template should contain Value definitions");
    assert!(content.contains("Start"), "template should contain Start state");
}

#[test]
fn expand_abbreviation_known_words() {
    assert_eq!(expand_abbreviation("sh"), "show");
    assert_eq!(expand_abbreviation("int"), "interface");
    assert_eq!(expand_abbreviation("plain"), "plain");
}
