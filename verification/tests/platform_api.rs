use netcli_core::Platform;

#[test]
fn platform_canonical_slug_round_trips() {
    for slug in [
        "cisco_ios",
        "cisco_nxos",
        "cisco_iosxr",
        "juniper_junos",
        "arista_eos",
        "drivenets_dnos",
    ] {
        let p: Platform = slug.parse().unwrap();
        assert_eq!(p.slug(), slug);
    }
}

#[test]
fn aliases_resolve() {
    assert_eq!("ios".parse::<Platform>().unwrap(), Platform::CiscoIos);
    assert_eq!("nxos".parse::<Platform>().unwrap(), Platform::CiscoNxos);
    assert_eq!("junos".parse::<Platform>().unwrap(), Platform::JuniperJunos);
    assert_eq!("eos".parse::<Platform>().unwrap(), Platform::AristaEos);
    assert_eq!("dnos".parse::<Platform>().unwrap(), Platform::DriveNetsDnos);
}

#[test]
fn unknown_platform_is_err() {
    assert!("foobar".parse::<Platform>().is_err());
}
