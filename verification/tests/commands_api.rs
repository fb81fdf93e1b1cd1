use netcli_core::CommandKey;

#[test]
fn commands_canonical_slug_round_trips() {
    for slug in [
        "show_version",
        "show_interfaces_brief",
        "show_inventory",
        "show_bgp_summary",
        "show_ip_route",
        "show_lldp_neighbors",
    ] {
        let ck: CommandKey = slug.parse().unwrap();
        assert_eq!(ck.slug(), slug);
    }
}

#[test]
fn alias_with_spaces_resolves() {
    assert_eq!(
        "show version".parse::<CommandKey>().unwrap(),
        CommandKey::ShowVersion
    );
}

#[test]
fn unknown_command_is_err() {
    assert!("show_magic".parse::<CommandKey>().is_err());
}
