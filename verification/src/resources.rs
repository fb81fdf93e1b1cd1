//! The registry's data: the `(platform, command key)` table and the
//! template text each entry names. The data stands here as literals so
//! that lookups are verified against the very same table the
//! specification-side lookup describes.

use vstd::prelude::*;
use vstd::string::StringExecFns;
use crate::text::str_eq;

verus! {

/// One registry entry: canonical platform, command key, the path-like
/// name of its template, and an opaque shape tag kept for forward
/// compatibility.
pub struct RegistryEntry {
    pub platform: String,
    pub command_key: String,
    pub template: String,
    pub shape: String,
}

/// Ghost counterpart of `RegistryEntry`.
#[verifier::ext_equal]
pub struct GEntry {
    pub platform: Seq<char>,
    pub command_key: Seq<char>,
    pub template: Seq<char>,
    pub shape: Seq<char>,
}

pub open spec fn entry_view(e: RegistryEntry) -> GEntry {
    GEntry {
        platform: e.platform@,
        command_key: e.command_key@,
        template: e.template@,
        shape: e.shape@,
    }
}

pub open spec fn lookup_alcatel_sros_spec(k: Seq<char>) -> Option<GEntry> {
    if k == "show_version"@ {
        Some(GEntry {
            platform: "alcatel_sros"@,
            command_key: "show_version"@,
            template: "common/generic.textfsm"@,
            shape: "records"@,
        })
    } else if k == "show_system_information"@ {
        Some(GEntry {
            platform: "alcatel_sros"@,
            command_key: "show_system_information"@,
            template: "common/generic.textfsm"@,
            shape: "records"@,
        })
    } else if k == "show_system_location"@ {
        Some(GEntry {
            platform: "alcatel_sros"@,
            command_key: "show_system_location"@,
            template: "common/generic.textfsm"@,
            shape: "records"@,
        })
    } else if k == "show_chassis"@ {
        Some(GEntry {
            platform: "alcatel_sros"@,
            command_key: "show_chassis"@,
            template: "common/generic.textfsm"@,
            shape: "records"@,
        })
    } else if k == "show_chassis_detail"@ {
        Some(GEntry {
            platform: "alcatel_sros"@,
            command_key: "show_chassis_detail"@,
            template: "common/generic.textfsm"@,
            shape: "records"@,
        })
    } else if k == "show_bof"@ {
        Some(GEntry {
            platform: "alcatel_sros"@,
            command_key: "show_bof"@,
            template: "common/generic.textfsm"@,
            shape: "records"@,
        })
    } else if k == "show_mda"@ {
        Some(GEntry {
            platform: "alcatel_sros"@,
            command_key: "show_mda"@,
            template: "common/generic.textfsm"@,
            shape: "records"@,
        })
    } else if k == "show_port_optical"@ {
        Some(GEntry {
            platform: "alcatel_sros"@,
            command_key: "show_port_optical"@,
            template: "common/generic.textfsm"@,
            shape: "records"@,
        })
    } else if k == "show_port_statistics"@ {
        Some(GEntry {
            platform: "alcatel_sros"@,
            command_key: "show_port_statistics"@,
            template: "common/generic.textfsm"@,
            shape: "records"@,
        })
    } else if k == "show_port_ethernet_fec"@ {
        Some(GEntry {
            platform: "alcatel_sros"@,
            command_key: "show_port_ethernet_fec"@,
            template: "common/generic.textfsm"@,
            shape: "records"@,
        })
    } else if k == "show_router_bgp_summary"@ {
        Some(GEntry {
            platform: "alcatel_sros"@,
            command_key: "show_router_bgp_summary"@,
            template: "common/generic.textfsm"@,
            shape: "records"@,
        })
    } else if k == "show_system_lldp_neighbor"@ {
        Some(GEntry {
            platform: "alcatel_sros"@,
            command_key: "show_system_lldp_neighbor"@,
            template: "common/generic.textfsm"@,
            shape: "records"@,
        })
    } else if k == "show_router_bfd_session_detail"@ {
        Some(GEntry {
            platform: "alcatel_sros"@,
            command_key: "show_router_bfd_session_detail"@,
            template: "common/generic.textfsm"@,
            shape: "records"@,
        })
    } else if k == "show_service"@ {
        Some(GEntry {
            platform: "alcatel_sros"@,
            command_key: "show_service"@,
            template: "common/generic.textfsm"@,
            shape: "records"@,
        })
    } else if k == "show_snmp_location"@ {
        Some(GEntry {
            platform: "alcatel_sros"@,
            command_key: "show_snmp_location"@,
            template: "common/generic.textfsm"@,
            shape: "records"@,
        })
    } else if k == "admin_display_config"@ {
        Some(GEntry {
            platform: "alcatel_sros"@,
            command_key: "admin_display_config"@,
            template: "common/generic.textfsm"@,
            shape: "records"@,
        })
    } else if k == "show_system_cpu"@ {
        Some(GEntry {
            platform: "alcatel_sros"@,
            command_key: "show_system_cpu"@,
            template: "common/generic.textfsm"@,
            shape: "records"@,
        })
    } else if k == "show_port"@ {
        Some(GEntry {
            platform: "alcatel_sros"@,
            command_key: "show_port"@,
            template: "common/generic.textfsm"@,
            shape: "records"@,
        })
    } else if k == "show_router_interface"@ {
        Some(GEntry {
            platform: "alcatel_sros"@,
            command_key: "show_router_interface"@,
            template: "common/generic.textfsm"@,
            shape: "records"@,
        })
    } else {
        None
    }
}

pub open spec fn lookup_arista_eos_spec(k: Seq<char>) -> Option<GEntry> {
    if k == "show_version"@ {
        Some(GEntry {
            platform: "arista_eos"@,
            command_key: "show_version"@,
            template: "arista_eos/show_version.textfsm"@,
            shape: "records"@,
        })
    } else if k == "show_system_environment_all"@ {
        Some(GEntry {
            platform: "arista_eos"@,
            command_key: "show_system_environment_all"@,
            template: "common/generic.textfsm"@,
            shape: "records"@,
        })
    } else if k == "show_system_environment_cooling"@ {
        Some(GEntry {
            platform: "arista_eos"@,
            command_key: "show_system_environment_cooling"@,
            template: "common/generic.textfsm"@,
            shape: "records"@,
        })
    } else if k == "show_system_environment_temperature"@ {
        Some(GEntry {
            platform: "arista_eos"@,
            command_key: "show_system_environment_temperature"@,
            template: "common/generic.textfsm"@,
            shape: "records"@,
        })
    } else if k == "show_system_environment_power"@ {
        Some(GEntry {
            platform: "arista_eos"@,
            command_key: "show_system_environment_power"@,
            template: "common/generic.textfsm"@,
            shape: "records"@,
        })
    } else {
        None
    }
}

pub open spec fn lookup_cisco_ios_spec(k: Seq<char>) -> Option<GEntry> {
    if k == "show_version"@ {
        Some(GEntry {
            platform: "cisco_ios"@,
            command_key: "show_version"@,
            template: "cisco_ios/show_version.textfsm"@,
            shape: "records"@,
        })
    } else if k == "show_interfaces"@ {
        Some(GEntry {
            platform: "cisco_ios"@,
            command_key: "show_interfaces"@,
            template: "cisco_ios/show_interfaces.textfsm"@,
            shape: "records"@,
        })
    } else if k == "show_interface"@ {
        Some(GEntry {
            platform: "cisco_ios"@,
            command_key: "show_interface"@,
            template: "cisco_ios/show_interfaces.textfsm"@,
            shape: "records"@,
        })
    } else if k == "show_ip_interface_brief"@ {
        Some(GEntry {
            platform: "cisco_ios"@,
            command_key: "show_ip_interface_brief"@,
            template: "cisco_ios/show_ip_interface_brief.textfsm"@,
            shape: "records"@,
        })
    } else if k == "show_ip_interface_brief_exclude_unassigned"@ {
        Some(GEntry {
            platform: "cisco_ios"@,
            command_key: "show_ip_interface_brief_exclude_unassigned"@,
            template: "cisco_ios/show_ip_interface_brief.textfsm"@,
            shape: "records"@,
        })
    } else if k == "show_ip_int_br"@ {
        Some(GEntry {
            platform: "cisco_ios"@,
            command_key: "show_ip_int_br"@,
            template: "cisco_ios/show_ip_interface_brief.textfsm"@,
            shape: "records"@,
        })
    } else if k == "show_ip_int_br_ex_unas"@ {
        Some(GEntry {
            platform: "cisco_ios"@,
            command_key: "show_ip_int_br_ex_unas"@,
            template: "cisco_ios/show_ip_interface_brief.textfsm"@,
            shape: "records"@,
        })
    } else if k == "show_ip_bgp_summary"@ {
        Some(GEntry {
            platform: "cisco_ios"@,
            command_key: "show_ip_bgp_summary"@,
            template: "cisco_ios/show_ip_bgp_summary.textfsm"@,
            shape: "records"@,
        })
    } else if k == "show_interfaces_status"@ {
        Some(GEntry {
            platform: "cisco_ios"@,
            command_key: "show_interfaces_status"@,
            template: "cisco_ios/show_interfaces_status.textfsm"@,
            shape: "records"@,
        })
    } else if k == "show_interfaces_transceiver"@ {
        Some(GEntry {
            platform: "cisco_ios"@,
            command_key: "show_interfaces_transceiver"@,
            template: "cisco_ios/show_interfaces_transceiver.textfsm"@,
            shape: "records"@,
        })
    } else if k == "show_interfaces_transceiver_detail"@ {
        Some(GEntry {
            platform: "cisco_ios"@,
            command_key: "show_interfaces_transceiver_detail"@,
            template: "cisco_ios/show_interfaces_transceiver_detail.textfsm"@,
            shape: "records"@,
        })
    } else if k == "show_inventory"@ {
        Some(GEntry {
            platform: "cisco_ios"@,
            command_key: "show_inventory"@,
            template: "cisco_ios/show_inventory.textfsm"@,
            shape: "records"@,
        })
    } else if k == "show_ip_route_summary"@ {
        Some(GEntry {
            platform: "cisco_ios"@,
            command_key: "show_ip_route_summary"@,
            template: "cisco_ios/show_ip_route_summary.textfsm"@,
            shape: "records"@,
        })
    } else if k == "show_platform"@ {
        Some(GEntry {
            platform: "cisco_ios"@,
            command_key: "show_platform"@,
            template: "cisco_ios/show_platform.textfsm"@,
            shape: "records"@,
        })
    } else if k == "show_platform_resources"@ {
        Some(GEntry {
            platform: "cisco_ios"@,
            command_key: "show_platform_resources"@,
            template: "cisco_ios/show_platform_resources.textfsm"@,
            shape: "records"@,
        })
    } else if k == "show_environment_sensor_rpm"@ {
        Some(GEntry {
            platform: "cisco_ios"@,
            command_key: "show_environment_sensor_rpm"@,
            template: "cisco_ios/show_environment_sensor_rpm.textfsm"@,
            shape: "records"@,
        })
    } else if k == "show_environment_sensor_temperature"@ {
        Some(GEntry {
            platform: "cisco_ios"@,
            command_key: "show_environment_sensor_temperature"@,
            template: "cisco_ios/show_environment_sensor_temperature.textfsm"@,
            shape: "records"@,
        })
    } else if k == "show_interface_ge_include_bia"@ {
        Some(GEntry {
            platform: "cisco_ios"@,
            command_key: "show_interface_ge_include_bia"@,
            template: "cisco_ios/show_interface_ge_include_bia.textfsm"@,
            shape: "records"@,
        })
    } else if k == "show_line"@ {
        Some(GEntry {
            platform: "cisco_ios"@,
            command_key: "show_line"@,
            template: "cisco_ios/show_line.textfsm"@,
            shape: "records"@,
        })
    } else if k == "show_running_config_interface"@ {
        Some(GEntry {
            platform: "cisco_ios"@,
            command_key: "show_running_config_interface"@,
            template: "common/generic.textfsm"@,
            shape: "records"@,
        })
    } else if k == "show_mac_address_table"@ {
        Some(GEntry {
            platform: "cisco_ios"@,
            command_key: "show_mac_address_table"@,
            template: "common/generic.textfsm"@,
            shape: "records"@,
        })
    } else if k == "show_spanning_tree"@ {
        Some(GEntry {
            platform: "cisco_ios"@,
            command_key: "show_spanning_tree"@,
            template: "common/generic.textfsm"@,
            shape: "records"@,
        })
    } else if k == "show_environment"@ {
        Some(GEntry {
            platform: "cisco_ios"@,
            command_key: "show_environment"@,
            template: "common/generic.textfsm"@,
            shape: "records"@,
        })
    } else if k == "show_environment_all"@ {
        Some(GEntry {
            platform: "cisco_ios"@,
            command_key: "show_environment_all"@,
            template: "common/generic.textfsm"@,
            shape: "records"@,
        })
    } else if k == "show_memory_statistics"@ {
        Some(GEntry {
            platform: "cisco_ios"@,
            command_key: "show_memory_statistics"@,
            template: "common/generic.textfsm"@,
            shape: "records"@,
        })
    } else if k == "show_ip_protocols"@ {
        Some(GEntry {
            platform: "cisco_ios"@,
            command_key: "show_ip_protocols"@,
            template: "common/generic.textfsm"@,
            shape: "records"@,
        })
    } else if k == "show_diag"@ {
        Some(GEntry {
            platform: "cisco_ios"@,
            command_key: "show_diag"@,
            template: "common/generic.textfsm"@,
            shape: "records"@,
        })
    } else if k == "show_spanning_tree_summary"@ {
        Some(GEntry {
            platform: "cisco_ios"@,
            command_key: "show_spanning_tree_summary"@,
            template: "common/generic.textfsm"@,
            shape: "records"@,
        })
    } else if k == "show_aaa_sessions"@ {
        Some(GEntry {
            platform: "cisco_ios"@,
            command_key: "show_aaa_sessions"@,
            template: "common/generic.textfsm"@,
            shape: "records"@,
        })
    } else if k == "show_privilege"@ {
        Some(GEntry {
            platform: "cisco_ios"@,
            command_key: "show_privilege"@,
            template: "common/generic.textfsm"@,
            shape: "records"@,
        })
    } else if k == "show_crypto_key_mypubkey_rsa"@ {
        Some(GEntry {
            platform: "cisco_ios"@,
            command_key: "show_crypto_key_mypubkey_rsa"@,
            template: "common/generic.textfsm"@,
            shape: "records"@,
        })
    } else if k == "show_ntp_status"@ {
        Some(GEntry {
            platform: "cisco_ios"@,
            command_key: "show_ntp_status"@,
            template: "common/generic.textfsm"@,
            shape: "records"@,
        })
    } else if k == "show_terminal"@ {
        Some(GEntry {
            platform: "cisco_ios"@,
            command_key: "show_terminal"@,
            template: "common/generic.textfsm"@,
            shape: "records"@,
        })
    } else if k == "show_license_udi"@ {
        Some(GEntry {
            platform: "cisco_ios"@,
            command_key: "show_license_udi"@,
            template: "common/generic.textfsm"@,
            shape: "records"@,
        })
    } else {
        None
    }
}

pub open spec fn lookup_cisco_nxos_spec(k: Seq<char>) -> Option<GEntry> {
    if k == "show_version"@ {
        Some(GEntry {
            platform: "cisco_nxos"@,
            command_key: "show_version"@,
            template: "cisco_nxos/show_version.textfsm"@,
            shape: "records"@,
        })
    } else if k == "show_cdp_neighbors"@ {
        Some(GEntry {
            platform: "cisco_nxos"@,
            command_key: "show_cdp_neighbors"@,
            template: "cisco_nxos/show_cdp_neighbors.textfsm"@,
            shape: "records"@,
        })
    } else {
        None
    }
}

pub open spec fn lookup_cisco_xr_spec(k: Seq<char>) -> Option<GEntry> {
    if k == "show_version"@ {
        Some(GEntry {
            platform: "cisco_xr"@,
            command_key: "show_version"@,
            template: "common/generic.textfsm"@,
            shape: "records"@,
        })
    } else if k == "show_ip_bgp_summary"@ {
        Some(GEntry {
            platform: "cisco_xr"@,
            command_key: "show_ip_bgp_summary"@,
            template: "common/generic.textfsm"@,
            shape: "records"@,
        })
    } else if k == "show_controllers_optics"@ {
        Some(GEntry {
            platform: "cisco_xr"@,
            command_key: "show_controllers_optics"@,
            template: "common/generic.textfsm"@,
            shape: "records"@,
        })
    } else if k == "show_interface_accounting"@ {
        Some(GEntry {
            platform: "cisco_xr"@,
            command_key: "show_interface_accounting"@,
            template: "common/generic.textfsm"@,
            shape: "records"@,
        })
    } else if k == "show_controllers_fec"@ {
        Some(GEntry {
            platform: "cisco_xr"@,
            command_key: "show_controllers_fec"@,
            template: "common/generic.textfsm"@,
            shape: "records"@,
        })
    } else if k == "show_running_config_interface"@ {
        Some(GEntry {
            platform: "cisco_xr"@,
            command_key: "show_running_config_interface"@,
            template: "common/generic.textfsm"@,
            shape: "records"@,
        })
    } else {
        None
    }
}

pub open spec fn lookup_drivenets_dnos_spec(k: Seq<char>) -> Option<GEntry> {
    if k == "show_system_version"@ {
        Some(GEntry {
            platform: "drivenets_dnos"@,
            command_key: "show_system_version"@,
            template: "drivenets_dnos/show_system_version.textfsm"@,
            shape: "records"@,
        })
    } else if k == "show_system_status"@ {
        Some(GEntry {
            platform: "drivenets_dnos"@,
            command_key: "show_system_status"@,
            template: "drivenets_dnos/show_system_status.textfsm"@,
            shape: "records"@,
        })
    } else if k == "show_interfaces_brief"@ {
        Some(GEntry {
            platform: "drivenets_dnos"@,
            command_key: "show_interfaces_brief"@,
            template: "drivenets_dnos/show_interfaces_brief.textfsm"@,
            shape: "records"@,
        })
    } else if k == "show_interface_brief"@ {
        Some(GEntry {
            platform: "drivenets_dnos"@,
            command_key: "show_interface_brief"@,
            template: "drivenets_dnos/show_interfaces_brief.textfsm"@,
            shape: "records"@,
        })
    } else if k == "show_interfaces_detail"@ {
        Some(GEntry {
            platform: "drivenets_dnos"@,
            command_key: "show_interfaces_detail"@,
            template: "drivenets_dnos/show_interfaces_detail.textfsm"@,
            shape: "records"@,
        })
    } else if k == "show_interfaces_transceiver"@ {
        Some(GEntry {
            platform: "drivenets_dnos"@,
            command_key: "show_interfaces_transceiver"@,
            template: "drivenets_dnos/show_interfaces_transceiver.textfsm"@,
            shape: "records"@,
        })
    } else if k == "show_config_flatten"@ {
        Some(GEntry {
            platform: "drivenets_dnos"@,
            command_key: "show_config_flatten"@,
            template: "drivenets_dnos/show_config_flatten.textfsm"@,
            shape: "records"@,
        })
    } else if k == "show_lldp"@ {
        Some(GEntry {
            platform: "drivenets_dnos"@,
            command_key: "show_lldp"@,
            template: "drivenets_dnos/show_lldp.textfsm"@,
            shape: "records"@,
        })
    } else if k == "show_lldp_counters"@ {
        Some(GEntry {
            platform: "drivenets_dnos"@,
            command_key: "show_lldp_counters"@,
            template: "drivenets_dnos/show_lldp_counters.textfsm"@,
            shape: "records"@,
        })
    } else if k == "show_lldp_neighbors"@ {
        Some(GEntry {
            platform: "drivenets_dnos"@,
            command_key: "show_lldp_neighbors"@,
            template: "drivenets_dnos/show_lldp_neighbors.textfsm"@,
            shape: "records"@,
        })
    } else if k == "show_route_summary"@ {
        Some(GEntry {
            platform: "drivenets_dnos"@,
            command_key: "show_route_summary"@,
            template: "drivenets_dnos/show_route_summary.textfsm"@,
            shape: "records"@,
        })
    } else if k == "show_system_hardware"@ {
        Some(GEntry {
            platform: "drivenets_dnos"@,
            command_key: "show_system_hardware"@,
            template: "drivenets_dnos/show_system_hardware.textfsm"@,
            shape: "records"@,
        })
    } else if k == "show_system_hardware_cpu"@ {
        Some(GEntry {
            platform: "drivenets_dnos"@,
            command_key: "show_system_hardware_cpu"@,
            template: "drivenets_dnos/show_system_hardware_cpu.textfsm"@,
            shape: "records"@,
        })
    } else if k == "show_system_hardware_fan"@ {
        Some(GEntry {
            platform: "drivenets_dnos"@,
            command_key: "show_system_hardware_fan"@,
            template: "drivenets_dnos/show_system_hardware_fan.textfsm"@,
            shape: "records"@,
        })
    } else if k == "show_system_hardware_inventory"@ {
        Some(GEntry {
            platform: "drivenets_dnos"@,
            command_key: "show_system_hardware_inventory"@,
            template: "drivenets_dnos/show_system_hardware_inventory.textfsm"@,
            shape: "records"@,
        })
    } else if k == "show_system_hardware_power"@ {
        Some(GEntry {
            platform: "drivenets_dnos"@,
            command_key: "show_system_hardware_power"@,
            template: "drivenets_dnos/show_system_hardware_power.textfsm"@,
            shape: "records"@,
        })
    } else if k == "show_system_hardware_temperature"@ {
        Some(GEntry {
            platform: "drivenets_dnos"@,
            command_key: "show_system_hardware_temperature"@,
            template: "drivenets_dnos/show_system_hardware_temperature.textfsm"@,
            shape: "records"@,
        })
    } else if k == "show_version"@ {
        Some(GEntry {
            platform: "drivenets_dnos"@,
            command_key: "show_version"@,
            template: "common/generic.textfsm"@,
            shape: "records"@,
        })
    } else if k == "show_system_hardware_psu"@ {
        Some(GEntry {
            platform: "drivenets_dnos"@,
            command_key: "show_system_hardware_psu"@,
            template: "common/generic.textfsm"@,
            shape: "records"@,
        })
    } else if k == "show_interface"@ {
        Some(GEntry {
            platform: "drivenets_dnos"@,
            command_key: "show_interface"@,
            template: "common/generic.textfsm"@,
            shape: "records"@,
        })
    } else if k == "show_interface_fec"@ {
        Some(GEntry {
            platform: "drivenets_dnos"@,
            command_key: "show_interface_fec"@,
            template: "common/generic.textfsm"@,
            shape: "records"@,
        })
    } else if k == "show_interface_transceiver"@ {
        Some(GEntry {
            platform: "drivenets_dnos"@,
            command_key: "show_interface_transceiver"@,
            template: "common/generic.textfsm"@,
            shape: "records"@,
        })
    } else if k == "show_interface_counters"@ {
        Some(GEntry {
            platform: "drivenets_dnos"@,
            command_key: "show_interface_counters"@,
            template: "common/generic.textfsm"@,
            shape: "records"@,
        })
    } else if k == "show_interface_fec_counters"@ {
        Some(GEntry {
            platform: "drivenets_dnos"@,
            command_key: "show_interface_fec_counters"@,
            template: "common/generic.textfsm"@,
            shape: "records"@,
        })
    } else if k == "show_lldp_neighbor_detail"@ {
        Some(GEntry {
            platform: "drivenets_dnos"@,
            command_key: "show_lldp_neighbor_detail"@,
            template: "common/generic.textfsm"@,
            shape: "records"@,
        })
    } else if k == "show_bfd_session"@ {
        Some(GEntry {
            platform: "drivenets_dnos"@,
            command_key: "show_bfd_session"@,
            template: "common/generic.textfsm"@,
            shape: "records"@,
        })
    } else {
        None
    }
}

pub open spec fn lookup_juniper_junos_spec(k: Seq<char>) -> Option<GEntry> {
    if k == "show_version"@ {
        Some(GEntry {
            platform: "juniper_junos"@,
            command_key: "show_version"@,
            template: "juniper_junos/show_version.textfsm"@,
            shape: "records"@,
        })
    } else if k == "show_system_information"@ {
        Some(GEntry {
            platform: "juniper_junos"@,
            command_key: "show_system_information"@,
            template: "common/generic.textfsm"@,
            shape: "records"@,
        })
    } else if k == "show_system_location"@ {
        Some(GEntry {
            platform: "juniper_junos"@,
            command_key: "show_system_location"@,
            template: "common/generic.textfsm"@,
            shape: "records"@,
        })
    } else if k == "show_system_contact_information"@ {
        Some(GEntry {
            platform: "juniper_junos"@,
            command_key: "show_system_contact_information"@,
            template: "common/generic.textfsm"@,
            shape: "records"@,
        })
    } else if k == "show_system_alarms"@ {
        Some(GEntry {
            platform: "juniper_junos"@,
            command_key: "show_system_alarms"@,
            template: "common/generic.textfsm"@,
            shape: "records"@,
        })
    } else if k == "show_interfaces_terse"@ {
        Some(GEntry {
            platform: "juniper_junos"@,
            command_key: "show_interfaces_terse"@,
            template: "common/generic.textfsm"@,
            shape: "records"@,
        })
    } else if k == "show_chassis_environment"@ {
        Some(GEntry {
            platform: "juniper_junos"@,
            command_key: "show_chassis_environment"@,
            template: "common/generic.textfsm"@,
            shape: "records"@,
        })
    } else if k == "show_chassis_hardware"@ {
        Some(GEntry {
            platform: "juniper_junos"@,
            command_key: "show_chassis_hardware"@,
            template: "common/generic.textfsm"@,
            shape: "records"@,
        })
    } else {
        None
    }
}

pub open spec fn lookup_zte_zxros_spec(k: Seq<char>) -> Option<GEntry> {
    if k == "show_version"@ {
        Some(GEntry {
            platform: "zte_zxros"@,
            command_key: "show_version"@,
            template: "zte_zxros/show_version.textfsm"@,
            shape: "records"@,
        })
    } else {
        None
    }
}

#[verifier::rlimit(100)]
pub(crate) fn lookup_alcatel_sros(k: &str) -> (r: Option<RegistryEntry>)
    ensures
        ({
            let g = lookup_alcatel_sros_spec(k@);
            match r {
                Some(e) => g == Some(entry_view(e)),
                None => g is None,
            }
        }),
{
    if str_eq(k, "show_version") {
        Some(RegistryEntry {
            platform: String::from_str("alcatel_sros"),
            command_key: String::from_str("show_version"),
            template: String::from_str("common/generic.textfsm"),
            shape: String::from_str("records"),
        })
    } else if str_eq(k, "show_system_information") {
        Some(RegistryEntry {
            platform: String::from_str("alcatel_sros"),
            command_key: String::from_str("show_system_information"),
            template: String::from_str("common/generic.textfsm"),
            shape: String::from_str("records"),
        })
    } else if str_eq(k, "show_system_location") {
        Some(RegistryEntry {
            platform: String::from_str("alcatel_sros"),
            command_key: String::from_str("show_system_location"),
            template: String::from_str("common/generic.textfsm"),
            shape: String::from_str("records"),
        })
    } else if str_eq(k, "show_chassis") {
        Some(RegistryEntry {
            platform: String::from_str("alcatel_sros"),
            command_key: String::from_str("show_chassis"),
            template: String::from_str("common/generic.textfsm"),
            shape: String::from_str("records"),
        })
    } else if str_eq(k, "show_chassis_detail") {
        Some(RegistryEntry {
            platform: String::from_str("alcatel_sros"),
            command_key: String::from_str("show_chassis_detail"),
            template: String::from_str("common/generic.textfsm"),
            shape: String::from_str("records"),
        })
    } else if str_eq(k, "show_bof") {
        Some(RegistryEntry {
            platform: String::from_str("alcatel_sros"),
            command_key: String::from_str("show_bof"),
            template: String::from_str("common/generic.textfsm"),
            shape: String::from_str("records"),
        })
    } else if str_eq(k, "show_mda") {
        Some(RegistryEntry {
            platform: String::from_str("alcatel_sros"),
            command_key: String::from_str("show_mda"),
            template: String::from_str("common/generic.textfsm"),
            shape: String::from_str("records"),
        })
    } else if str_eq(k, "show_port_optical") {
        Some(RegistryEntry {
            platform: String::from_str("alcatel_sros"),
            command_key: String::from_str("show_port_optical"),
            template: String::from_str("common/generic.textfsm"),
            shape: String::from_str("records"),
        })
    } else if str_eq(k, "show_port_statistics") {
        Some(RegistryEntry {
            platform: String::from_str("alcatel_sros"),
            command_key: String::from_str("show_port_statistics"),
            template: String::from_str("common/generic.textfsm"),
            shape: String::from_str("records"),
        })
    } else if str_eq(k, "show_port_ethernet_fec") {
        Some(RegistryEntry {
            platform: String::from_str("alcatel_sros"),
            command_key: String::from_str("show_port_ethernet_fec"),
            template: String::from_str("common/generic.textfsm"),
            shape: String::from_str("records"),
        })
    } else if str_eq(k, "show_router_bgp_summary") {
        Some(RegistryEntry {
            platform: String::from_str("alcatel_sros"),
            command_key: String::from_str("show_router_bgp_summary"),
            template: String::from_str("common/generic.textfsm"),
            shape: String::from_str("records"),
        })
    } else if str_eq(k, "show_system_lldp_neighbor") {
        Some(RegistryEntry {
            platform: String::from_str("alcatel_sros"),
            command_key: String::from_str("show_system_lldp_neighbor"),
            template: String::from_str("common/generic.textfsm"),
            shape: String::from_str("records"),
        })
    } else if str_eq(k, "show_router_bfd_session_detail") {
        Some(RegistryEntry {
            platform: String::from_str("alcatel_sros"),
            command_key: String::from_str("show_router_bfd_session_detail"),
            template: String::from_str("common/generic.textfsm"),
            shape: String::from_str("records"),
        })
    } else if str_eq(k, "show_service") {
        Some(RegistryEntry {
            platform: String::from_str("alcatel_sros"),
            command_key: String::from_str("show_service"),
            template: String::from_str("common/generic.textfsm"),
            shape: String::from_str("records"),
        })
    } else if str_eq(k, "show_snmp_location") {
        Some(RegistryEntry {
            platform: String::from_str("alcatel_sros"),
            command_key: String::from_str("show_snmp_location"),
            template: String::from_str("common/generic.textfsm"),
            shape: String::from_str("records"),
        })
    } else if str_eq(k, "admin_display_config") {
        Some(RegistryEntry {
            platform: String::from_str("alcatel_sros"),
            command_key: String::from_str("admin_display_config"),
            template: String::from_str("common/generic.textfsm"),
            shape: String::from_str("records"),
        })
    } else if str_eq(k, "show_system_cpu") {
        Some(RegistryEntry {
            platform: String::from_str("alcatel_sros"),
            command_key: String::from_str("show_system_cpu"),
            template: String::from_str("common/generic.textfsm"),
            shape: String::from_str("records"),
        })
    } else if str_eq(k, "show_port") {
        Some(RegistryEntry {
            platform: String::from_str("alcatel_sros"),
            command_key: String::from_str("show_port"),
            template: String::from_str("common/generic.textfsm"),
            shape: String::from_str("records"),
        })
    } else if str_eq(k, "show_router_interface") {
        Some(RegistryEntry {
            platform: String::from_str("alcatel_sros"),
            command_key: String::from_str("show_router_interface"),
            template: String::from_str("common/generic.textfsm"),
            shape: String::from_str("records"),
        })
    } else {
        None
    }
}

#[verifier::rlimit(100)]
pub(crate) fn lookup_arista_eos(k: &str) -> (r: Option<RegistryEntry>)
    ensures
        ({
            let g = lookup_arista_eos_spec(k@);
            match r {
                Some(e) => g == Some(entry_view(e)),
                None => g is None,
            }
        }),
{
    if str_eq(k, "show_version") {
        Some(RegistryEntry {
            platform: String::from_str("arista_eos"),
            command_key: String::from_str("show_version"),
            template: String::from_str("arista_eos/show_version.textfsm"),
            shape: String::from_str("records"),
        })
    } else if str_eq(k, "show_system_environment_all") {
        Some(RegistryEntry {
            platform: String::from_str("arista_eos"),
            command_key: String::from_str("show_system_environment_all"),
            template: String::from_str("common/generic.textfsm"),
            shape: String::from_str("records"),
        })
    } else if str_eq(k, "show_system_environment_cooling") {
        Some(RegistryEntry {
            platform: String::from_str("arista_eos"),
            command_key: String::from_str("show_system_environment_cooling"),
            template: String::from_str("common/generic.textfsm"),
            shape: String::from_str("records"),
        })
    } else if str_eq(k, "show_system_environment_temperature") {
        Some(RegistryEntry {
            platform: String::from_str("arista_eos"),
            command_key: String::from_str("show_system_environment_temperature"),
            template: String::from_str("common/generic.textfsm"),
            shape: String::from_str("records"),
        })
    } else if str_eq(k, "show_system_environment_power") {
        Some(RegistryEntry {
            platform: String::from_str("arista_eos"),
            command_key: String::from_str("show_system_environment_power"),
            template: String::from_str("common/generic.textfsm"),
            shape: String::from_str("records"),
        })
    } else {
        None
    }
}

#[verifier::rlimit(100)]
pub(crate) fn lookup_cisco_ios(k: &str) -> (r: Option<RegistryEntry>)
    ensures
        ({
            let g = lookup_cisco_ios_spec(k@);
            match r {
                Some(e) => g == Some(entry_view(e)),
                None => g is None,
            }
        }),
{
    if str_eq(k, "show_version") {
        Some(RegistryEntry {
            platform: String::from_str("cisco_ios"),
            command_key: String::from_str("show_version"),
            template: String::from_str("cisco_ios/show_version.textfsm"),
            shape: String::from_str("records"),
        })
    } else if str_eq(k, "show_interfaces") {
        Some(RegistryEntry {
            platform: String::from_str("cisco_ios"),
            command_key: String::from_str("show_interfaces"),
            template: String::from_str("cisco_ios/show_interfaces.textfsm"),
            shape: String::from_str("records"),
        })
    } else if str_eq(k, "show_interface") {
        Some(RegistryEntry {
            platform: String::from_str("cisco_ios"),
            command_key: String::from_str("show_interface"),
            template: String::from_str("cisco_ios/show_interfaces.textfsm"),
            shape: String::from_str("records"),
        })
    } else if str_eq(k, "show_ip_interface_brief") {
        Some(RegistryEntry {
            platform: String::from_str("cisco_ios"),
            command_key: String::from_str("show_ip_interface_brief"),
            template: String::from_str("cisco_ios/show_ip_interface_brief.textfsm"),
            shape: String::from_str("records"),
        })
    } else if str_eq(k, "show_ip_interface_brief_exclude_unassigned") {
        Some(RegistryEntry {
            platform: String::from_str("cisco_ios"),
            command_key: String::from_str("show_ip_interface_brief_exclude_unassigned"),
            template: String::from_str("cisco_ios/show_ip_interface_brief.textfsm"),
            shape: String::from_str("records"),
        })
    } else if str_eq(k, "show_ip_int_br") {
        Some(RegistryEntry {
            platform: String::from_str("cisco_ios"),
            command_key: String::from_str("show_ip_int_br"),
            template: String::from_str("cisco_ios/show_ip_interface_brief.textfsm"),
            shape: String::from_str("records"),
        })
    } else if str_eq(k, "show_ip_int_br_ex_unas") {
        Some(RegistryEntry {
            platform: String::from_str("cisco_ios"),
            command_key: String::from_str("show_ip_int_br_ex_unas"),
            template: String::from_str("cisco_ios/show_ip_interface_brief.textfsm"),
            shape: String::from_str("records"),
        })
    } else if str_eq(k, "show_ip_bgp_summary") {
        Some(RegistryEntry {
            platform: String::from_str("cisco_ios"),
            command_key: String::from_str("show_ip_bgp_summary"),
            template: String::from_str("cisco_ios/show_ip_bgp_summary.textfsm"),
            shape: String::from_str("records"),
        })
    } else if str_eq(k, "show_interfaces_status") {
        Some(RegistryEntry {
            platform: String::from_str("cisco_ios"),
            command_key: String::from_str("show_interfaces_status"),
            template: String::from_str("cisco_ios/show_interfaces_status.textfsm"),
            shape: String::from_str("records"),
        })
    } else if str_eq(k, "show_interfaces_transceiver") {
        Some(RegistryEntry {
            platform: String::from_str("cisco_ios"),
            command_key: String::from_str("show_interfaces_transceiver"),
            template: String::from_str("cisco_ios/show_interfaces_transceiver.textfsm"),
            shape: String::from_str("records"),
        })
    } else if str_eq(k, "show_interfaces_transceiver_detail") {
        Some(RegistryEntry {
            platform: String::from_str("cisco_ios"),
            command_key: String::from_str("show_interfaces_transceiver_detail"),
            template: String::from_str("cisco_ios/show_interfaces_transceiver_detail.textfsm"),
            shape: String::from_str("records"),
        })
    } else if str_eq(k, "show_inventory") {
        Some(RegistryEntry {
            platform: String::from_str("cisco_ios"),
            command_key: String::from_str("show_inventory"),
            template: String::from_str("cisco_ios/show_inventory.textfsm"),
            shape: String::from_str("records"),
        })
    } else if str_eq(k, "show_ip_route_summary") {
        Some(RegistryEntry {
            platform: String::from_str("cisco_ios"),
            command_key: String::from_str("show_ip_route_summary"),
            template: String::from_str("cisco_ios/show_ip_route_summary.textfsm"),
            shape: String::from_str("records"),
        })
    } else if str_eq(k, "show_platform") {
        Some(RegistryEntry {
            platform: String::from_str("cisco_ios"),
            command_key: String::from_str("show_platform"),
            template: String::from_str("cisco_ios/show_platform.textfsm"),
            shape: String::from_str("records"),
        })
    } else if str_eq(k, "show_platform_resources") {
        Some(RegistryEntry {
            platform: String::from_str("cisco_ios"),
            command_key: String::from_str("show_platform_resources"),
            template: String::from_str("cisco_ios/show_platform_resources.textfsm"),
            shape: String::from_str("records"),
        })
    } else if str_eq(k, "show_environment_sensor_rpm") {
        Some(RegistryEntry {
            platform: String::from_str("cisco_ios"),
            command_key: String::from_str("show_environment_sensor_rpm"),
            template: String::from_str("cisco_ios/show_environment_sensor_rpm.textfsm"),
            shape: String::from_str("records"),
        })
    } else if str_eq(k, "show_environment_sensor_temperature") {
        Some(RegistryEntry {
            platform: String::from_str("cisco_ios"),
            command_key: String::from_str("show_environment_sensor_temperature"),
            template: String::from_str("cisco_ios/show_environment_sensor_temperature.textfsm"),
            shape: String::from_str("records"),
        })
    } else if str_eq(k, "show_interface_ge_include_bia") {
        Some(RegistryEntry {
            platform: String::from_str("cisco_ios"),
            command_key: String::from_str("show_interface_ge_include_bia"),
            template: String::from_str("cisco_ios/show_interface_ge_include_bia.textfsm"),
            shape: String::from_str("records"),
        })
    } else if str_eq(k, "show_line") {
        Some(RegistryEntry {
            platform: String::from_str("cisco_ios"),
            command_key: String::from_str("show_line"),
            template: String::from_str("cisco_ios/show_line.textfsm"),
            shape: String::from_str("records"),
        })
    } else if str_eq(k, "show_running_config_interface") {
        Some(RegistryEntry {
            platform: String::from_str("cisco_ios"),
            command_key: String::from_str("show_running_config_interface"),
            template: String::from_str("common/generic.textfsm"),
            shape: String::from_str("records"),
        })
    } else if str_eq(k, "show_mac_address_table") {
        Some(RegistryEntry {
            platform: String::from_str("cisco_ios"),
            command_key: String::from_str("show_mac_address_table"),
            template: String::from_str("common/generic.textfsm"),
            shape: String::from_str("records"),
        })
    } else if str_eq(k, "show_spanning_tree") {
        Some(RegistryEntry {
            platform: String::from_str("cisco_ios"),
            command_key: String::from_str("show_spanning_tree"),
            template: String::from_str("common/generic.textfsm"),
            shape: String::from_str("records"),
        })
    } else if str_eq(k, "show_environment") {
        Some(RegistryEntry {
            platform: String::from_str("cisco_ios"),
            command_key: String::from_str("show_environment"),
            template: String::from_str("common/generic.textfsm"),
            shape: String::from_str("records"),
        })
    } else if str_eq(k, "show_environment_all") {
        Some(RegistryEntry {
            platform: String::from_str("cisco_ios"),
            command_key: String::from_str("show_environment_all"),
            template: String::from_str("common/generic.textfsm"),
            shape: String::from_str("records"),
        })
    } else if str_eq(k, "show_memory_statistics") {
        Some(RegistryEntry {
            platform: String::from_str("cisco_ios"),
            command_key: String::from_str("show_memory_statistics"),
            template: String::from_str("common/generic.textfsm"),
            shape: String::from_str("records"),
        })
    } else if str_eq(k, "show_ip_protocols") {
        Some(RegistryEntry {
            platform: String::from_str("cisco_ios"),
            command_key: String::from_str("show_ip_protocols"),
            template: String::from_str("common/generic.textfsm"),
            shape: String::from_str("records"),
        })
    } else if str_eq(k, "show_diag") {
        Some(RegistryEntry {
            platform: String::from_str("cisco_ios"),
            command_key: String::from_str("show_diag"),
            template: String::from_str("common/generic.textfsm"),
            shape: String::from_str("records"),
        })
    } else if str_eq(k, "show_spanning_tree_summary") {
        Some(RegistryEntry {
            platform: String::from_str("cisco_ios"),
            command_key: String::from_str("show_spanning_tree_summary"),
            template: String::from_str("common/generic.textfsm"),
            shape: String::from_str("records"),
        })
    } else if str_eq(k, "show_aaa_sessions") {
        Some(RegistryEntry {
            platform: String::from_str("cisco_ios"),
            command_key: String::from_str("show_aaa_sessions"),
            template: String::from_str("common/generic.textfsm"),
            shape: String::from_str("records"),
        })
    } else if str_eq(k, "show_privilege") {
        Some(RegistryEntry {
            platform: String::from_str("cisco_ios"),
            command_key: String::from_str("show_privilege"),
            template: String::from_str("common/generic.textfsm"),
            shape: String::from_str("records"),
        })
    } else if str_eq(k, "show_crypto_key_mypubkey_rsa") {
        Some(RegistryEntry {
            platform: String::from_str("cisco_ios"),
            command_key: String::from_str("show_crypto_key_mypubkey_rsa"),
            template: String::from_str("common/generic.textfsm"),
            shape: String::from_str("records"),
        })
    } else if str_eq(k, "show_ntp_status") {
        Some(RegistryEntry {
            platform: String::from_str("cisco_ios"),
            command_key: String::from_str("show_ntp_status"),
            template: String::from_str("common/generic.textfsm"),
            shape: String::from_str("records"),
        })
    } else if str_eq(k, "show_terminal") {
        Some(RegistryEntry {
            platform: String::from_str("cisco_ios"),
            command_key: String::from_str("show_terminal"),
            template: String::from_str("common/generic.textfsm"),
            shape: String::from_str("records"),
        })
    } else if str_eq(k, "show_license_udi") {
        Some(RegistryEntry {
            platform: String::from_str("cisco_ios"),
            command_key: String::from_str("show_license_udi"),
            template: String::from_str("common/generic.textfsm"),
            shape: String::from_str("records"),
        })
    } else {
        None
    }
}

#[verifier::rlimit(100)]
pub(crate) fn lookup_cisco_nxos(k: &str) -> (r: Option<RegistryEntry>)
    ensures
        ({
            let g = lookup_cisco_nxos_spec(k@);
            match r {
                Some(e) => g == Some(entry_view(e)),
                None => g is None,
            }
        }),
{
    if str_eq(k, "show_version") {
        Some(RegistryEntry {
            platform: String::from_str("cisco_nxos"),
            command_key: String::from_str("show_version"),
            template: String::from_str("cisco_nxos/show_version.textfsm"),
            shape: String::from_str("records"),
        })
    } else if str_eq(k, "show_cdp_neighbors") {
        Some(RegistryEntry {
            platform: String::from_str("cisco_nxos"),
            command_key: String::from_str("show_cdp_neighbors"),
            template: String::from_str("cisco_nxos/show_cdp_neighbors.textfsm"),
            shape: String::from_str("records"),
        })
    } else {
        None
    }
}

#[verifier::rlimit(100)]
pub(crate) fn lookup_cisco_xr(k: &str) -> (r: Option<RegistryEntry>)
    ensures
        ({
            let g = lookup_cisco_xr_spec(k@);
            match r {
                Some(e) => g == Some(entry_view(e)),
                None => g is None,
            }
        }),
{
    if str_eq(k, "show_version") {
        Some(RegistryEntry {
            platform: String::from_str("cisco_xr"),
            command_key: String::from_str("show_version"),
            template: String::from_str("common/generic.textfsm"),
            shape: String::from_str("records"),
        })
    } else if str_eq(k, "show_ip_bgp_summary") {
        Some(RegistryEntry {
            platform: String::from_str("cisco_xr"),
            command_key: String::from_str("show_ip_bgp_summary"),
            template: String::from_str("common/generic.textfsm"),
            shape: String::from_str("records"),
        })
    } else if str_eq(k, "show_controllers_optics") {
        Some(RegistryEntry {
            platform: String::from_str("cisco_xr"),
            command_key: String::from_str("show_controllers_optics"),
            template: String::from_str("common/generic.textfsm"),
            shape: String::from_str("records"),
        })
    } else if str_eq(k, "show_interface_accounting") {
        Some(RegistryEntry {
            platform: String::from_str("cisco_xr"),
            command_key: String::from_str("show_interface_accounting"),
            template: String::from_str("common/generic.textfsm"),
            shape: String::from_str("records"),
        })
    } else if str_eq(k, "show_controllers_fec") {
        Some(RegistryEntry {
            platform: String::from_str("cisco_xr"),
            command_key: String::from_str("show_controllers_fec"),
            template: String::from_str("common/generic.textfsm"),
            shape: String::from_str("records"),
        })
    } else if str_eq(k, "show_running_config_interface") {
        Some(RegistryEntry {
            platform: String::from_str("cisco_xr"),
            command_key: String::from_str("show_running_config_interface"),
            template: String::from_str("common/generic.textfsm"),
            shape: String::from_str("records"),
        })
    } else {
        None
    }
}

#[verifier::rlimit(100)]
pub(crate) fn lookup_drivenets_dnos(k: &str) -> (r: Option<RegistryEntry>)
    ensures
        ({
            let g = lookup_drivenets_dnos_spec(k@);
            match r {
                Some(e) => g == Some(entry_view(e)),
                None => g is None,
            }
        }),
{
    if str_eq(k, "show_system_version") {
        Some(RegistryEntry {
            platform: String::from_str("drivenets_dnos"),
            command_key: String::from_str("show_system_version"),
            template: String::from_str("drivenets_dnos/show_system_version.textfsm"),
            shape: String::from_str("records"),
        })
    } else if str_eq(k, "show_system_status") {
        Some(RegistryEntry {
            platform: String::from_str("drivenets_dnos"),
            command_key: String::from_str("show_system_status"),
            template: String::from_str("drivenets_dnos/show_system_status.textfsm"),
            shape: String::from_str("records"),
        })
    } else if str_eq(k, "show_interfaces_brief") {
        Some(RegistryEntry {
            platform: String::from_str("drivenets_dnos"),
            command_key: String::from_str("show_interfaces_brief"),
            template: String::from_str("drivenets_dnos/show_interfaces_brief.textfsm"),
            shape: String::from_str("records"),
        })
    } else if str_eq(k, "show_interface_brief") {
        Some(RegistryEntry {
            platform: String::from_str("drivenets_dnos"),
            command_key: String::from_str("show_interface_brief"),
            template: String::from_str("drivenets_dnos/show_interfaces_brief.textfsm"),
            shape: String::from_str("records"),
        })
    } else if str_eq(k, "show_interfaces_detail") {
        Some(RegistryEntry {
            platform: String::from_str("drivenets_dnos"),
            command_key: String::from_str("show_interfaces_detail"),
            template: String::from_str("drivenets_dnos/show_interfaces_detail.textfsm"),
            shape: String::from_str("records"),
        })
    } else if str_eq(k, "show_interfaces_transceiver") {
        Some(RegistryEntry {
            platform: String::from_str("drivenets_dnos"),
            command_key: String::from_str("show_interfaces_transceiver"),
            template: String::from_str("drivenets_dnos/show_interfaces_transceiver.textfsm"),
            shape: String::from_str("records"),
        })
    } else if str_eq(k, "show_config_flatten") {
        Some(RegistryEntry {
            platform: String::from_str("drivenets_dnos"),
            command_key: String::from_str("show_config_flatten"),
            template: String::from_str("drivenets_dnos/show_config_flatten.textfsm"),
            shape: String::from_str("records"),
        })
    } else if str_eq(k, "show_lldp") {
        Some(RegistryEntry {
            platform: String::from_str("drivenets_dnos"),
            command_key: String::from_str("show_lldp"),
            template: String::from_str("drivenets_dnos/show_lldp.textfsm"),
            shape: String::from_str("records"),
        })
    } else if str_eq(k, "show_lldp_counters") {
        Some(RegistryEntry {
            platform: String::from_str("drivenets_dnos"),
            command_key: String::from_str("show_lldp_counters"),
            template: String::from_str("drivenets_dnos/show_lldp_counters.textfsm"),
            shape: String::from_str("records"),
        })
    } else if str_eq(k, "show_lldp_neighbors") {
        Some(RegistryEntry {
            platform: String::from_str("drivenets_dnos"),
            command_key: String::from_str("show_lldp_neighbors"),
            template: String::from_str("drivenets_dnos/show_lldp_neighbors.textfsm"),
            shape: String::from_str("records"),
        })
    } else if str_eq(k, "show_route_summary") {
        Some(RegistryEntry {
            platform: String::from_str("drivenets_dnos"),
            command_key: String::from_str("show_route_summary"),
            template: String::from_str("drivenets_dnos/show_route_summary.textfsm"),
            shape: String::from_str("records"),
        })
    } else if str_eq(k, "show_system_hardware") {
        Some(RegistryEntry {
            platform: String::from_str("drivenets_dnos"),
            command_key: String::from_str("show_system_hardware"),
            template: String::from_str("drivenets_dnos/show_system_hardware.textfsm"),
            shape: String::from_str("records"),
        })
    } else if str_eq(k, "show_system_hardware_cpu") {
        Some(RegistryEntry {
            platform: String::from_str("drivenets_dnos"),
            command_key: String::from_str("show_system_hardware_cpu"),
            template: String::from_str("drivenets_dnos/show_system_hardware_cpu.textfsm"),
            shape: String::from_str("records"),
        })
    } else if str_eq(k, "show_system_hardware_fan") {
        Some(RegistryEntry {
            platform: String::from_str("drivenets_dnos"),
            command_key: String::from_str("show_system_hardware_fan"),
            template: String::from_str("drivenets_dnos/show_system_hardware_fan.textfsm"),
            shape: String::from_str("records"),
        })
    } else if str_eq(k, "show_system_hardware_inventory") {
        Some(RegistryEntry {
            platform: String::from_str("drivenets_dnos"),
            command_key: String::from_str("show_system_hardware_inventory"),
            template: String::from_str("drivenets_dnos/show_system_hardware_inventory.textfsm"),
            shape: String::from_str("records"),
        })
    } else if str_eq(k, "show_system_hardware_power") {
        Some(RegistryEntry {
            platform: String::from_str("drivenets_dnos"),
            command_key: String::from_str("show_system_hardware_power"),
            template: String::from_str("drivenets_dnos/show_system_hardware_power.textfsm"),
            shape: String::from_str("records"),
        })
    } else if str_eq(k, "show_system_hardware_temperature") {
        Some(RegistryEntry {
            platform: String::from_str("drivenets_dnos"),
            command_key: String::from_str("show_system_hardware_temperature"),
            template: String::from_str("drivenets_dnos/show_system_hardware_temperature.textfsm"),
            shape: String::from_str("records"),
        })
    } else if str_eq(k, "show_version") {
        Some(RegistryEntry {
            platform: String::from_str("drivenets_dnos"),
            command_key: String::from_str("show_version"),
            template: String::from_str("common/generic.textfsm"),
            shape: String::from_str("records"),
        })
    } else if str_eq(k, "show_system_hardware_psu") {
        Some(RegistryEntry {
            platform: String::from_str("drivenets_dnos"),
            command_key: String::from_str("show_system_hardware_psu"),
            template: String::from_str("common/generic.textfsm"),
            shape: String::from_str("records"),
        })
    } else if str_eq(k, "show_interface") {
        Some(RegistryEntry {
            platform: String::from_str("drivenets_dnos"),
            command_key: String::from_str("show_interface"),
            template: String::from_str("common/generic.textfsm"),
            shape: String::from_str("records"),
        })
    } else if str_eq(k, "show_interface_fec") {
        Some(RegistryEntry {
            platform: String::from_str("drivenets_dnos"),
            command_key: String::from_str("show_interface_fec"),
            template: String::from_str("common/generic.textfsm"),
            shape: String::from_str("records"),
        })
    } else if str_eq(k, "show_interface_transceiver") {
        Some(RegistryEntry {
            platform: String::from_str("drivenets_dnos"),
            command_key: String::from_str("show_interface_transceiver"),
            template: String::from_str("common/generic.textfsm"),
            shape: String::from_str("records"),
        })
    } else if str_eq(k, "show_interface_counters") {
        Some(RegistryEntry {
            platform: String::from_str("drivenets_dnos"),
            command_key: String::from_str("show_interface_counters"),
            template: String::from_str("common/generic.textfsm"),
            shape: String::from_str("records"),
        })
    } else if str_eq(k, "show_interface_fec_counters") {
        Some(RegistryEntry {
            platform: String::from_str("drivenets_dnos"),
            command_key: String::from_str("show_interface_fec_counters"),
            template: String::from_str("common/generic.textfsm"),
            shape: String::from_str("records"),
        })
    } else if str_eq(k, "show_lldp_neighbor_detail") {
        Some(RegistryEntry {
            platform: String::from_str("drivenets_dnos"),
            command_key: String::from_str("show_lldp_neighbor_detail"),
            template: String::from_str("common/generic.textfsm"),
            shape: String::from_str("records"),
        })
    } else if str_eq(k, "show_bfd_session") {
        Some(RegistryEntry {
            platform: String::from_str("drivenets_dnos"),
            command_key: String::from_str("show_bfd_session"),
            template: String::from_str("common/generic.textfsm"),
            shape: String::from_str("records"),
        })
    } else {
        None
    }
}

#[verifier::rlimit(100)]
pub(crate) fn lookup_juniper_junos(k: &str) -> (r: Option<RegistryEntry>)
    ensures
        ({
            let g = lookup_juniper_junos_spec(k@);
            match r {
                Some(e) => g == Some(entry_view(e)),
                None => g is None,
            }
        }),
{
    if str_eq(k, "show_version") {
        Some(RegistryEntry {
            platform: String::from_str("juniper_junos"),
            command_key: String::from_str("show_version"),
            template: String::from_str("juniper_junos/show_version.textfsm"),
            shape: String::from_str("records"),
        })
    } else if str_eq(k, "show_system_information") {
        Some(RegistryEntry {
            platform: String::from_str("juniper_junos"),
            command_key: String::from_str("show_system_information"),
            template: String::from_str("common/generic.textfsm"),
            shape: String::from_str("records"),
        })
    } else if str_eq(k, "show_system_location") {
        Some(RegistryEntry {
            platform: String::from_str("juniper_junos"),
            command_key: String::from_str("show_system_location"),
            template: String::from_str("common/generic.textfsm"),
            shape: String::from_str("records"),
        })
    } else if str_eq(k, "show_system_contact_information") {
        Some(RegistryEntry {
            platform: String::from_str("juniper_junos"),
            command_key: String::from_str("show_system_contact_information"),
            template: String::from_str("common/generic.textfsm"),
            shape: String::from_str("records"),
        })
    } else if str_eq(k, "show_system_alarms") {
        Some(RegistryEntry {
            platform: String::from_str("juniper_junos"),
            command_key: String::from_str("show_system_alarms"),
            template: String::from_str("common/generic.textfsm"),
            shape: String::from_str("records"),
        })
    } else if str_eq(k, "show_interfaces_terse") {
        Some(RegistryEntry {
            platform: String::from_str("juniper_junos"),
            command_key: String::from_str("show_interfaces_terse"),
            template: String::from_str("common/generic.textfsm"),
            shape: String::from_str("records"),
        })
    } else if str_eq(k, "show_chassis_environment") {
        Some(RegistryEntry {
            platform: String::from_str("juniper_junos"),
            command_key: String::from_str("show_chassis_environment"),
            template: String::from_str("common/generic.textfsm"),
            shape: String::from_str("records"),
        })
    } else if str_eq(k, "show_chassis_hardware") {
        Some(RegistryEntry {
            platform: String::from_str("juniper_junos"),
            command_key: String::from_str("show_chassis_hardware"),
            template: String::from_str("common/generic.textfsm"),
            shape: String::from_str("records"),
        })
    } else {
        None
    }
}

#[verifier::rlimit(100)]
pub(crate) fn lookup_zte_zxros(k: &str) -> (r: Option<RegistryEntry>)
    ensures
        ({
            let g = lookup_zte_zxros_spec(k@);
            match r {
                Some(e) => g == Some(entry_view(e)),
                None => g is None,
            }
        }),
{
    if str_eq(k, "show_version") {
        Some(RegistryEntry {
            platform: String::from_str("zte_zxros"),
            command_key: String::from_str("show_version"),
            template: String::from_str("zte_zxros/show_version.textfsm"),
            shape: String::from_str("records"),
        })
    } else {
        None
    }
}

/// The whole table, keyed by canonical platform and command key.
pub open spec fn lookup_canon_spec(c: Seq<char>, k: Seq<char>) -> Option<GEntry> {
    if c == "alcatel_sros"@ {
        lookup_alcatel_sros_spec(k)
    } else if c == "arista_eos"@ {
        lookup_arista_eos_spec(k)
    } else if c == "cisco_ios"@ {
        lookup_cisco_ios_spec(k)
    } else if c == "cisco_nxos"@ {
        lookup_cisco_nxos_spec(k)
    } else if c == "cisco_xr"@ {
        lookup_cisco_xr_spec(k)
    } else if c == "drivenets_dnos"@ {
        lookup_drivenets_dnos_spec(k)
    } else if c == "juniper_junos"@ {
        lookup_juniper_junos_spec(k)
    } else if c == "zte_zxros"@ {
        lookup_zte_zxros_spec(k)
    } else {
        None
    }
}

pub(crate) fn lookup_canon(canon: &str, k: &str) -> (r: Option<RegistryEntry>)
    ensures
        ({
            let g = lookup_canon_spec(canon@, k@);
            match r {
                Some(e) => g == Some(entry_view(e)),
                None => g is None,
            }
        }),
{
    if str_eq(canon, "alcatel_sros") {
        lookup_alcatel_sros(k)
    } else if str_eq(canon, "arista_eos") {
        lookup_arista_eos(k)
    } else if str_eq(canon, "cisco_ios") {
        lookup_cisco_ios(k)
    } else if str_eq(canon, "cisco_nxos") {
        lookup_cisco_nxos(k)
    } else if str_eq(canon, "cisco_xr") {
        lookup_cisco_xr(k)
    } else if str_eq(canon, "drivenets_dnos") {
        lookup_drivenets_dnos(k)
    } else if str_eq(canon, "juniper_junos") {
        lookup_juniper_junos(k)
    } else if str_eq(canon, "zte_zxros") {
        lookup_zte_zxros(k)
    } else {
        None
    }
}

/// The template text behind each template name.
pub open spec fn template_text_spec(path: Seq<char>) -> Option<Seq<char>> {
    if path == "arista_eos/show_version.textfsm"@ {
        Some("Value model (\\S+)\nValue serial_number (\\S+)\nValue sys_mac (\\S+)\nValue image (\\S+)\n\nStart\n  ^Arista ${model}\\s*$ -> NoRecord\n  ^Serial number:\\s+${serial_number} -> NoRecord\n  ^System MAC address:\\s+${sys_mac} -> NoRecord\n  ^Software image version:\\s+${image} -> NoRecord\n"@)
    } else if path == "cisco_ios/show_environment_sensor_rpm.textfsm"@ {
        Some("Value Required sensor_name (\\S+)\nValue location (\\S+)\nValue state (\\S+)\nValue reading (\\d+)\n\nStart\n  ^\\s*${sensor_name}\\s+${location}\\s+${state}\\s+${reading} RPM\\s*$\n"@)
    } else if path == "cisco_ios/show_environment_sensor_temperature.textfsm"@ {
        Some("Value Required sensor_name (\\S+( \\S+)?)\nValue location (\\S+)\nValue state (\\S+)\nValue reading (\\d+)\n\nStart\n  ^\\s*${sensor_name}\\s\\s+${location}\\s+${state}\\s+${reading} Celsius\\s*$\n"@)
    } else if path == "cisco_ios/show_interface_ge_include_bia.textfsm"@ {
        Some("Value hardware_type (\\S+)\nValue mac_address (\\w+\\.\\w+\\.\\w+)\nValue bia (\\w+\\.\\w+\\.\\w+)\n\nStart\n  ^\\s+Hardware is ${hardware_type}, address is ${mac_address} \\(bia ${bia}\\) -> NoRecord\n"@)
    } else if path == "cisco_ios/show_interfaces.textfsm"@ {
        Some("Value Required interface (\\S+)\nValue link_status (up|down|administratively down)\nValue protocol_status (up|down)\nValue ip_address (\\d+\\.\\d+\\.\\d+\\.\\d+)\nValue description (.+)\nValue mac_address (\\w+\\.\\w+\\.\\w+)\n\nStart\n  ^\\S+ is (?:up|down|administratively down), line protocol is -> Record Continue\n  ^${interface} is ${link_status}, line protocol is ${protocol_status} -> NoRecord\n  ^\\s+Hardware is .+, address is ${mac_address} -> NoRecord\n  ^\\s+Description: ${description} -> NoRecord\n  ^\\s+Internet address is ${ip_address} -> NoRecord\n"@)
    } else if path == "cisco_ios/show_interfaces_status.textfsm"@ {
        Some("Value Required port (\\S+)\nValue name (\\S+)\nValue status (connected|notconnect|disabled|err-disabled)\nValue vlan (\\S+)\nValue duplex (\\S+)\nValue speed (\\S+)\nValue type (.+)\n\nStart\n  ^${port}\\s+${name}\\s+${status}\\s+${vlan}\\s+${duplex}\\s+${speed}\\s+${type}\\s*$\n"@)
    } else if path == "cisco_ios/show_interfaces_transceiver.textfsm"@ {
        Some("Value Required port (\\S+)\nValue xcvr_type (\\S+)\nValue vendor (\\S+)\nValue tx_power (-?\\d+\\.\\d+)\nValue rx_power (-?\\d+\\.\\d+)\n\nStart\n  ^${port}\\s+${xcvr_type}\\s+${vendor}\\s+${tx_power}\\s+${rx_power}\\s*$\n"@)
    } else if path == "cisco_ios/show_interfaces_transceiver_detail.textfsm"@ {
        Some("Value Required port (\\S+)\nValue temperature (-?\\d+\\.\\d+)\nValue voltage (-?\\d+\\.\\d+)\nValue tx_power (-?\\d+\\.\\d+)\nValue rx_power (-?\\d+\\.\\d+)\n\nStart\n  ^${port}\\s+${temperature}\\s+${voltage}\\s+${tx_power}\\s+${rx_power}\\s*$\n"@)
    } else if path == "cisco_ios/show_inventory.textfsm"@ {
        Some("Value Required name ([^\"]+)\nValue descr ([^\"]+)\nValue pid (\\S+)\nValue vid (\\S+)\nValue sn (\\S+)\n\nStart\n  ^NAME: \"${name}\", DESCR: \"${descr}\" -> NoRecord\n  ^PID: ${pid}\\s*,\\s*VID: ${vid}\\s*,\\s*SN: ${sn}\\s*$\n"@)
    } else if path == "cisco_ios/show_ip_bgp_summary.textfsm"@ {
        Some("Value Filldown router_id (\\d+\\.\\d+\\.\\d+\\.\\d+)\nValue Filldown local_as (\\d+)\nValue Required bgp_neighbor (\\d+\\.\\d+\\.\\d+\\.\\d+)\nValue neighbor_as (\\d+)\nValue state_or_prefixes_received (\\S+)\n\nStart\n  ^BGP router identifier ${router_id}, local AS number ${local_as} -> NoRecord\n  ^${bgp_neighbor}\\s+\\d+\\s+${neighbor_as}\\s+\\d+\\s+\\d+\\s+\\d+\\s+\\d+\\s+\\d+\\s+\\S+\\s+${state_or_prefixes_received}\\s*$\n"@)
    } else if path == "cisco_ios/show_ip_interface_brief.textfsm"@ {
        Some("Value Required interface (\\S+)\nValue ip_address (\\d+\\.\\d+\\.\\d+\\.\\d+|unassigned)\nValue status (up|down|administratively down)\nValue proto (up|down)\n\nStart\n  ^${interface}\\s+${ip_address}\\s+\\w+\\s+\\S+\\s+${status}\\s+${proto}\\s*$\n"@)
    } else if path == "cisco_ios/show_ip_route_summary.textfsm"@ {
        Some("Value Required route_source (\\S+)\nValue networks (\\d+)\nValue subnets (\\d+)\nValue overhead (\\d+)\nValue memory_bytes (\\d+)\n\nStart\n  ^${route_source}\\s+${networks}\\s+${subnets}\\s+\\d+\\s+${overhead}\\s+${memory_bytes}\\s*$\n"@)
    } else if path == "cisco_ios/show_line.textfsm"@ {
        Some("Value Required tty ([0-9/]+)\nValue line (\\d+)\nValue type ([A-Z]+)\nValue tx_rx ([0-9/]+)\nValue uses (\\d+)\nValue noise (\\d+)\n\nStart\n  ^[\\* ]\\s*${tty}\\s+${line}\\s+${type}\\s+${tx_rx}\\s+${uses}\\s+${noise}\\s*$\n"@)
    } else if path == "cisco_ios/show_platform.textfsm"@ {
        Some("Value Required switch (\\d+)\nValue ports (\\d+)\nValue model (\\S+)\nValue sw_version (\\S+)\nValue sw_image (\\S+)\n\nStart\n  ^${switch}\\s+${ports}\\s+${model}\\s+${sw_version}\\s+${sw_image}\\s*$\n"@)
    } else if path == "cisco_ios/show_platform_resources.textfsm"@ {
        Some("Value Filldown processor (\\S+)\nValue Required resource (\\S+( \\S+)*)\nValue usage (\\d+\\.\\d+%)\nValue state (\\S)\n\nStart\n  ^${processor} \\(ok, active\\)\\s*$ -> NoRecord\n  ^\\s+${resource}\\s\\s+${usage}\\s+${state}\\s*$\n"@)
    } else if path == "cisco_ios/show_version.textfsm"@ {
        Some("Value version (\\S+)\nValue software_image (\\S+)\nValue hostname (\\S+)\nValue running_image (\\S+)\nValue serial (\\S+)\nValue uptime (.+)\n\nStart\n  ^Cisco IOS.* Software \\(${software_image}\\), Version ${version}, -> NoRecord\n  ^System image file is \".*:${running_image}\" -> NoRecord\n  ^${hostname} uptime is ${uptime} -> NoRecord\n  ^Processor board ID ${serial} -> NoRecord\n"@)
    } else if path == "cisco_nxos/show_cdp_neighbors.textfsm"@ {
        Some("Value Required neighbor_name (\\S+)\nValue local_interface (\\S+)\nValue port_id (\\S+)\n\nStart\n  ^${neighbor_name}\\s+Eth${local_interface}\\s+\\d+\\s+[A-Z s]+\\s+\\S+\\s+Eth${port_id}\\s*$\n"@)
    } else if path == "cisco_nxos/show_version.textfsm"@ {
        Some("Value os (\\S+)\nValue platform (\\S+)\nValue serial (\\S+)\nValue hostname (\\S+)\n\nStart\n  ^\\s+NXOS: version ${os} -> NoRecord\n  ^\\s+cisco Nexus\\S* ${platform} Chassis -> NoRecord\n  ^\\s+Processor Board ID ${serial} -> NoRecord\n  ^\\s+Device name: ${hostname} -> NoRecord\n"@)
    } else if path == "common/generic.textfsm"@ {
        Some("Value entry (\\S+)\n\nStart\n  ^ENTRY ${entry} -> NoRecord\n"@)
    } else if path == "drivenets_dnos/show_config_flatten.textfsm"@ {
        Some("Value Required line (.+)\n\nStart\n  ^${line}$\n"@)
    } else if path == "drivenets_dnos/show_interfaces_brief.textfsm"@ {
        Some("Value Required interface (\\S+)\nValue admin (enabled|disabled)\nValue link (up|down)\nValue speed (\\S+)\nValue ipv4_address (\\S+)\n\nStart\n  ^${interface}\\s+${admin}\\s+${link}\\s+${speed}\\s+\\d+\\s+${ipv4_address}\\s*$\n"@)
    } else if path == "drivenets_dnos/show_interfaces_detail.textfsm"@ {
        Some("Value Required interface (\\S+)\nValue admin_state (\\S+)\nValue mac_address (\\S+)\nValue speed (\\S+)\nValue ipv4_address (\\S+)\nValue l2_mtu (\\d+)\n\nStart\n  ^Interface \\S+\\s*$ -> Record Continue\n  ^Interface ${interface}\\s*$ -> NoRecord\n  ^\\s+Admin state: ${admin_state} -> NoRecord\n  ^\\s+MAC address: ${mac_address} -> NoRecord\n  ^\\s+Speed: ${speed} -> NoRecord\n  ^\\s+IPv4 address: ${ipv4_address} -> NoRecord\n  ^\\s+L2 MTU: ${l2_mtu} -> NoRecord\n"@)
    } else if path == "drivenets_dnos/show_interfaces_transceiver.textfsm"@ {
        Some("Value Required interface (\\S+)\nValue identifier (\\S+)\nValue vendor_name (\\S+( \\S+)*)\nValue vendor_sn (\\S+)\n\nStart\n  ^${interface}\\s\\s+${identifier}\\s\\s+${vendor_name}\\s\\s+${vendor_sn}\\s*$\n"@)
    } else if path == "drivenets_dnos/show_lldp.textfsm"@ {
        Some("Value Required interface (\\S+)\nValue transmit (enabled|disabled)\nValue receive (enabled|disabled)\nValue keepalive (\\d+)\nValue holdtime (\\d+)\n\nStart\n  ^${interface}\\s+${transmit}\\s+${receive}\\s+${keepalive}\\s+${holdtime}\\s*$\n"@)
    } else if path == "drivenets_dnos/show_lldp_counters.textfsm"@ {
        Some("Value Required interface (\\S+)\nValue pdu_rx (\\d+)\nValue pdu_tx (\\d+)\nValue inserted (\\d+)\n\nStart\n  ^${interface}\\s+${pdu_rx}\\s+${pdu_tx}\\s+${inserted}\\s*$\n"@)
    } else if path == "drivenets_dnos/show_lldp_neighbors.textfsm"@ {
        Some("Value Required interface (\\S+)\nValue neighbor_name (\\S+)\nValue neighbor_interface (\\S+)\nValue neighbor_ttl (\\d+)\n\nStart\n  ^${interface}\\s+${neighbor_name}\\s+${neighbor_interface}\\s+${neighbor_ttl}\\s*$\n"@)
    } else if path == "drivenets_dnos/show_route_summary.textfsm"@ {
        Some("Value Required route_source (\\S+)\nValue routes (\\d+)\nValue paths (\\d+)\n\nStart\n  ^${route_source}\\s+${routes}\\s+${paths}\\s*$\n"@)
    } else if path == "drivenets_dnos/show_system_hardware.textfsm"@ {
        Some("Value model (\\S+)\nValue serial_number (\\S+)\nValue chassis_mac (\\S+)\nValue host_name (\\S+)\n\nStart\n  ^Model: ${model} -> NoRecord\n  ^Serial Number: ${serial_number} -> NoRecord\n  ^Chassis MAC: ${chassis_mac} -> NoRecord\n  ^Host Name: ${host_name} -> NoRecord\n"@)
    } else if path == "drivenets_dnos/show_system_hardware_cpu.textfsm"@ {
        Some("Value Required cpu (\\d+)\nValue use_percent (\\d+)\n\nStart\n  ^\\s*${cpu}\\s+${use_percent}\\s*$\n"@)
    } else if path == "drivenets_dnos/show_system_hardware_fan.textfsm"@ {
        Some("Value Required fan_id (\\S+)\nValue status (\\S+)\nValue speed_rpm (\\d+)\nValue max_rpm (\\d+)\n\nStart\n  ^${fan_id}\\s+${status}\\s+${speed_rpm}\\s+${max_rpm}\\s*$\n"@)
    } else if path == "drivenets_dnos/show_system_hardware_inventory.textfsm"@ {
        Some("Value Required component (\\S+)\nValue model (\\S+)\nValue serial_number ([A-Z0-9]+)\n\nStart\n  ^${component}\\s+${model}\\s+${serial_number}\\s*$\n"@)
    } else if path == "drivenets_dnos/show_system_hardware_power.textfsm"@ {
        Some("Value Required psu_id (\\d+)\nValue status (\\S+)\nValue type (\\S+( \\S+)*)\nValue serial (\\S+)\n\nStart\n  ^\\s*${psu_id}\\s\\s+${status}\\s\\s+${type}\\s\\s+${serial}\\s*$\n"@)
    } else if path == "drivenets_dnos/show_system_hardware_temperature.textfsm"@ {
        Some("Value Required sensor_name (\\S+)\nValue temperature (-?\\d+\\.\\d+)\nValue status (\\S+)\nValue high_warning (\\d+)\nValue high_critical (\\d+)\n\nStart\n  ^${sensor_name}\\s+${temperature}\\s+${status}\\s+${high_warning}\\s+${high_critical}\\s*$\n"@)
    } else if path == "drivenets_dnos/show_system_status.textfsm"@ {
        Some("Value system_name (\\S+)\nValue software_version (.+)\nValue overall_status (\\S+)\nValue active_ncps (\\d+)\nValue cpu_control (\\d+%)\nValue memory_control (\\d+%)\n\nStart\n  ^System Name: ${system_name} -> NoRecord\n  ^Software Version: ${software_version} -> NoRecord\n  ^Overall Status: ${overall_status} -> NoRecord\n  ^Active NCPs: ${active_ncps} -> NoRecord\n  ^CPU Control: ${cpu_control} -> NoRecord\n  ^Memory Control: ${memory_control} -> NoRecord\n"@)
    } else if path == "drivenets_dnos/show_system_version.textfsm"@ {
        Some("Value system_name (\\S+)\nValue hardware_model (\\S+)\nValue software_version (.+)\nValue serial_number (\\S+)\nValue system_uptime (.+)\nValue last_reboot (.+)\n\nStart\n  ^System Name: ${system_name} -> NoRecord\n  ^Hardware Model: ${hardware_model} -> NoRecord\n  ^Software Version: ${software_version} -> NoRecord\n  ^Serial Number: ${serial_number} -> NoRecord\n  ^System Uptime: ${system_uptime} -> NoRecord\n  ^Last Reboot: ${last_reboot} -> NoRecord\n"@)
    } else if path == "juniper_junos/show_version.textfsm"@ {
        Some("Value hostname (\\S+)\nValue model (\\S+)\nValue version (\\S+)\n\nStart\n  ^Hostname: ${hostname} -> NoRecord\n  ^Model: ${model} -> NoRecord\n  ^Junos: ${version} -> NoRecord\n"@)
    } else if path == "zte_zxros/show_version.textfsm"@ {
        Some("Value model (\\S+)\nValue version (\\S+)\nValue uptime (.+)\n\nStart\n  ^ZTE \\S+ Software, Version: ${version}, -> NoRecord\n  ^\\S+ uptime is ${uptime} -> NoRecord\n"@)
    } else {
        None
    }
}

#[verifier::rlimit(100)]
pub(crate) fn template_text(path: &str) -> (r: Option<String>)
    ensures
        ({
            let g = template_text_spec(path@);
            match r {
                Some(t) => g == Some(t@),
                None => g is None,
            }
        }),
{
    if str_eq(path, "arista_eos/show_version.textfsm") {
        Some(String::from_str("Value model (\\S+)\nValue serial_number (\\S+)\nValue sys_mac (\\S+)\nValue image (\\S+)\n\nStart\n  ^Arista ${model}\\s*$ -> NoRecord\n  ^Serial number:\\s+${serial_number} -> NoRecord\n  ^System MAC address:\\s+${sys_mac} -> NoRecord\n  ^Software image version:\\s+${image} -> NoRecord\n"))
    } else if str_eq(path, "cisco_ios/show_environment_sensor_rpm.textfsm") {
        Some(String::from_str("Value Required sensor_name (\\S+)\nValue location (\\S+)\nValue state (\\S+)\nValue reading (\\d+)\n\nStart\n  ^\\s*${sensor_name}\\s+${location}\\s+${state}\\s+${reading} RPM\\s*$\n"))
    } else if str_eq(path, "cisco_ios/show_environment_sensor_temperature.textfsm") {
        Some(String::from_str("Value Required sensor_name (\\S+( \\S+)?)\nValue location (\\S+)\nValue state (\\S+)\nValue reading (\\d+)\n\nStart\n  ^\\s*${sensor_name}\\s\\s+${location}\\s+${state}\\s+${reading} Celsius\\s*$\n"))
    } else if str_eq(path, "cisco_ios/show_interface_ge_include_bia.textfsm") {
        Some(String::from_str("Value hardware_type (\\S+)\nValue mac_address (\\w+\\.\\w+\\.\\w+)\nValue bia (\\w+\\.\\w+\\.\\w+)\n\nStart\n  ^\\s+Hardware is ${hardware_type}, address is ${mac_address} \\(bia ${bia}\\) -> NoRecord\n"))
    } else if str_eq(path, "cisco_ios/show_interfaces.textfsm") {
        Some(String::from_str("Value Required interface (\\S+)\nValue link_status (up|down|administratively down)\nValue protocol_status (up|down)\nValue ip_address (\\d+\\.\\d+\\.\\d+\\.\\d+)\nValue description (.+)\nValue mac_address (\\w+\\.\\w+\\.\\w+)\n\nStart\n  ^\\S+ is (?:up|down|administratively down), line protocol is -> Record Continue\n  ^${interface} is ${link_status}, line protocol is ${protocol_status} -> NoRecord\n  ^\\s+Hardware is .+, address is ${mac_address} -> NoRecord\n  ^\\s+Description: ${description} -> NoRecord\n  ^\\s+Internet address is ${ip_address} -> NoRecord\n"))
    } else if str_eq(path, "cisco_ios/show_interfaces_status.textfsm") {
        Some(String::from_str("Value Required port (\\S+)\nValue name (\\S+)\nValue status (connected|notconnect|disabled|err-disabled)\nValue vlan (\\S+)\nValue duplex (\\S+)\nValue speed (\\S+)\nValue type (.+)\n\nStart\n  ^${port}\\s+${name}\\s+${status}\\s+${vlan}\\s+${duplex}\\s+${speed}\\s+${type}\\s*$\n"))
    } else if str_eq(path, "cisco_ios/show_interfaces_transceiver.textfsm") {
        Some(String::from_str("Value Required port (\\S+)\nValue xcvr_type (\\S+)\nValue vendor (\\S+)\nValue tx_power (-?\\d+\\.\\d+)\nValue rx_power (-?\\d+\\.\\d+)\n\nStart\n  ^${port}\\s+${xcvr_type}\\s+${vendor}\\s+${tx_power}\\s+${rx_power}\\s*$\n"))
    } else if str_eq(path, "cisco_ios/show_interfaces_transceiver_detail.textfsm") {
        Some(String::from_str("Value Required port (\\S+)\nValue temperature (-?\\d+\\.\\d+)\nValue voltage (-?\\d+\\.\\d+)\nValue tx_power (-?\\d+\\.\\d+)\nValue rx_power (-?\\d+\\.\\d+)\n\nStart\n  ^${port}\\s+${temperature}\\s+${voltage}\\s+${tx_power}\\s+${rx_power}\\s*$\n"))
    } else if str_eq(path, "cisco_ios/show_inventory.textfsm") {
        Some(String::from_str("Value Required name ([^\"]+)\nValue descr ([^\"]+)\nValue pid (\\S+)\nValue vid (\\S+)\nValue sn (\\S+)\n\nStart\n  ^NAME: \"${name}\", DESCR: \"${descr}\" -> NoRecord\n  ^PID: ${pid}\\s*,\\s*VID: ${vid}\\s*,\\s*SN: ${sn}\\s*$\n"))
    } else if str_eq(path, "cisco_ios/show_ip_bgp_summary.textfsm") {
        Some(String::from_str("Value Filldown router_id (\\d+\\.\\d+\\.\\d+\\.\\d+)\nValue Filldown local_as (\\d+)\nValue Required bgp_neighbor (\\d+\\.\\d+\\.\\d+\\.\\d+)\nValue neighbor_as (\\d+)\nValue state_or_prefixes_received (\\S+)\n\nStart\n  ^BGP router identifier ${router_id}, local AS number ${local_as} -> NoRecord\n  ^${bgp_neighbor}\\s+\\d+\\s+${neighbor_as}\\s+\\d+\\s+\\d+\\s+\\d+\\s+\\d+\\s+\\d+\\s+\\S+\\s+${state_or_prefixes_received}\\s*$\n"))
    } else if str_eq(path, "cisco_ios/show_ip_interface_brief.textfsm") {
        Some(String::from_str("Value Required interface (\\S+)\nValue ip_address (\\d+\\.\\d+\\.\\d+\\.\\d+|unassigned)\nValue status (up|down|administratively down)\nValue proto (up|down)\n\nStart\n  ^${interface}\\s+${ip_address}\\s+\\w+\\s+\\S+\\s+${status}\\s+${proto}\\s*$\n"))
    } else if str_eq(path, "cisco_ios/show_ip_route_summary.textfsm") {
        Some(String::from_str("Value Required route_source (\\S+)\nValue networks (\\d+)\nValue subnets (\\d+)\nValue overhead (\\d+)\nValue memory_bytes (\\d+)\n\nStart\n  ^${route_source}\\s+${networks}\\s+${subnets}\\s+\\d+\\s+${overhead}\\s+${memory_bytes}\\s*$\n"))
    } else if str_eq(path, "cisco_ios/show_line.textfsm") {
        Some(String::from_str("Value Required tty ([0-9/]+)\nValue line (\\d+)\nValue type ([A-Z]+)\nValue tx_rx ([0-9/]+)\nValue uses (\\d+)\nValue noise (\\d+)\n\nStart\n  ^[\\* ]\\s*${tty}\\s+${line}\\s+${type}\\s+${tx_rx}\\s+${uses}\\s+${noise}\\s*$\n"))
    } else if str_eq(path, "cisco_ios/show_platform.textfsm") {
        Some(String::from_str("Value Required switch (\\d+)\nValue ports (\\d+)\nValue model (\\S+)\nValue sw_version (\\S+)\nValue sw_image (\\S+)\n\nStart\n  ^${switch}\\s+${ports}\\s+${model}\\s+${sw_version}\\s+${sw_image}\\s*$\n"))
    } else if str_eq(path, "cisco_ios/show_platform_resources.textfsm") {
        Some(String::from_str("Value Filldown processor (\\S+)\nValue Required resource (\\S+( \\S+)*)\nValue usage (\\d+\\.\\d+%)\nValue state (\\S)\n\nStart\n  ^${processor} \\(ok, active\\)\\s*$ -> NoRecord\n  ^\\s+${resource}\\s\\s+${usage}\\s+${state}\\s*$\n"))
    } else if str_eq(path, "cisco_ios/show_version.textfsm") {
        Some(String::from_str("Value version (\\S+)\nValue software_image (\\S+)\nValue hostname (\\S+)\nValue running_image (\\S+)\nValue serial (\\S+)\nValue uptime (.+)\n\nStart\n  ^Cisco IOS.* Software \\(${software_image}\\), Version ${version}, -> NoRecord\n  ^System image file is \".*:${running_image}\" -> NoRecord\n  ^${hostname} uptime is ${uptime} -> NoRecord\n  ^Processor board ID ${serial} -> NoRecord\n"))
    } else if str_eq(path, "cisco_nxos/show_cdp_neighbors.textfsm") {
        Some(String::from_str("Value Required neighbor_name (\\S+)\nValue local_interface (\\S+)\nValue port_id (\\S+)\n\nStart\n  ^${neighbor_name}\\s+Eth${local_interface}\\s+\\d+\\s+[A-Z s]+\\s+\\S+\\s+Eth${port_id}\\s*$\n"))
    } else if str_eq(path, "cisco_nxos/show_version.textfsm") {
        Some(String::from_str("Value os (\\S+)\nValue platform (\\S+)\nValue serial (\\S+)\nValue hostname (\\S+)\n\nStart\n  ^\\s+NXOS: version ${os} -> NoRecord\n  ^\\s+cisco Nexus\\S* ${platform} Chassis -> NoRecord\n  ^\\s+Processor Board ID ${serial} -> NoRecord\n  ^\\s+Device name: ${hostname} -> NoRecord\n"))
    } else if str_eq(path, "common/generic.textfsm") {
        Some(String::from_str("Value entry (\\S+)\n\nStart\n  ^ENTRY ${entry} -> NoRecord\n"))
    } else if str_eq(path, "drivenets_dnos/show_config_flatten.textfsm") {
        Some(String::from_str("Value Required line (.+)\n\nStart\n  ^${line}$\n"))
    } else if str_eq(path, "drivenets_dnos/show_interfaces_brief.textfsm") {
        Some(String::from_str("Value Required interface (\\S+)\nValue admin (enabled|disabled)\nValue link (up|down)\nValue speed (\\S+)\nValue ipv4_address (\\S+)\n\nStart\n  ^${interface}\\s+${admin}\\s+${link}\\s+${speed}\\s+\\d+\\s+${ipv4_address}\\s*$\n"))
    } else if str_eq(path, "drivenets_dnos/show_interfaces_detail.textfsm") {
        Some(String::from_str("Value Required interface (\\S+)\nValue admin_state (\\S+)\nValue mac_address (\\S+)\nValue speed (\\S+)\nValue ipv4_address (\\S+)\nValue l2_mtu (\\d+)\n\nStart\n  ^Interface \\S+\\s*$ -> Record Continue\n  ^Interface ${interface}\\s*$ -> NoRecord\n  ^\\s+Admin state: ${admin_state} -> NoRecord\n  ^\\s+MAC address: ${mac_address} -> NoRecord\n  ^\\s+Speed: ${speed} -> NoRecord\n  ^\\s+IPv4 address: ${ipv4_address} -> NoRecord\n  ^\\s+L2 MTU: ${l2_mtu} -> NoRecord\n"))
    } else if str_eq(path, "drivenets_dnos/show_interfaces_transceiver.textfsm") {
        Some(String::from_str("Value Required interface (\\S+)\nValue identifier (\\S+)\nValue vendor_name (\\S+( \\S+)*)\nValue vendor_sn (\\S+)\n\nStart\n  ^${interface}\\s\\s+${identifier}\\s\\s+${vendor_name}\\s\\s+${vendor_sn}\\s*$\n"))
    } else if str_eq(path, "drivenets_dnos/show_lldp.textfsm") {
        Some(String::from_str("Value Required interface (\\S+)\nValue transmit (enabled|disabled)\nValue receive (enabled|disabled)\nValue keepalive (\\d+)\nValue holdtime (\\d+)\n\nStart\n  ^${interface}\\s+${transmit}\\s+${receive}\\s+${keepalive}\\s+${holdtime}\\s*$\n"))
    } else if str_eq(path, "drivenets_dnos/show_lldp_counters.textfsm") {
        Some(String::from_str("Value Required interface (\\S+)\nValue pdu_rx (\\d+)\nValue pdu_tx (\\d+)\nValue inserted (\\d+)\n\nStart\n  ^${interface}\\s+${pdu_rx}\\s+${pdu_tx}\\s+${inserted}\\s*$\n"))
    } else if str_eq(path, "drivenets_dnos/show_lldp_neighbors.textfsm") {
        Some(String::from_str("Value Required interface (\\S+)\nValue neighbor_name (\\S+)\nValue neighbor_interface (\\S+)\nValue neighbor_ttl (\\d+)\n\nStart\n  ^${interface}\\s+${neighbor_name}\\s+${neighbor_interface}\\s+${neighbor_ttl}\\s*$\n"))
    } else if str_eq(path, "drivenets_dnos/show_route_summary.textfsm") {
        Some(String::from_str("Value Required route_source (\\S+)\nValue routes (\\d+)\nValue paths (\\d+)\n\nStart\n  ^${route_source}\\s+${routes}\\s+${paths}\\s*$\n"))
    } else if str_eq(path, "drivenets_dnos/show_system_hardware.textfsm") {
        Some(String::from_str("Value model (\\S+)\nValue serial_number (\\S+)\nValue chassis_mac (\\S+)\nValue host_name (\\S+)\n\nStart\n  ^Model: ${model} -> NoRecord\n  ^Serial Number: ${serial_number} -> NoRecord\n  ^Chassis MAC: ${chassis_mac} -> NoRecord\n  ^Host Name: ${host_name} -> NoRecord\n"))
    } else if str_eq(path, "drivenets_dnos/show_system_hardware_cpu.textfsm") {
        Some(String::from_str("Value Required cpu (\\d+)\nValue use_percent (\\d+)\n\nStart\n  ^\\s*${cpu}\\s+${use_percent}\\s*$\n"))
    } else if str_eq(path, "drivenets_dnos/show_system_hardware_fan.textfsm") {
        Some(String::from_str("Value Required fan_id (\\S+)\nValue status (\\S+)\nValue speed_rpm (\\d+)\nValue max_rpm (\\d+)\n\nStart\n  ^${fan_id}\\s+${status}\\s+${speed_rpm}\\s+${max_rpm}\\s*$\n"))
    } else if str_eq(path, "drivenets_dnos/show_system_hardware_inventory.textfsm") {
        Some(String::from_str("Value Required component (\\S+)\nValue model (\\S+)\nValue serial_number ([A-Z0-9]+)\n\nStart\n  ^${component}\\s+${model}\\s+${serial_number}\\s*$\n"))
    } else if str_eq(path, "drivenets_dnos/show_system_hardware_power.textfsm") {
        Some(String::from_str("Value Required psu_id (\\d+)\nValue status (\\S+)\nValue type (\\S+( \\S+)*)\nValue serial (\\S+)\n\nStart\n  ^\\s*${psu_id}\\s\\s+${status}\\s\\s+${type}\\s\\s+${serial}\\s*$\n"))
    } else if str_eq(path, "drivenets_dnos/show_system_hardware_temperature.textfsm") {
        Some(String::from_str("Value Required sensor_name (\\S+)\nValue temperature (-?\\d+\\.\\d+)\nValue status (\\S+)\nValue high_warning (\\d+)\nValue high_critical (\\d+)\n\nStart\n  ^${sensor_name}\\s+${temperature}\\s+${status}\\s+${high_warning}\\s+${high_critical}\\s*$\n"))
    } else if str_eq(path, "drivenets_dnos/show_system_status.textfsm") {
        Some(String::from_str("Value system_name (\\S+)\nValue software_version (.+)\nValue overall_status (\\S+)\nValue active_ncps (\\d+)\nValue cpu_control (\\d+%)\nValue memory_control (\\d+%)\n\nStart\n  ^System Name: ${system_name} -> NoRecord\n  ^Software Version: ${software_version} -> NoRecord\n  ^Overall Status: ${overall_status} -> NoRecord\n  ^Active NCPs: ${active_ncps} -> NoRecord\n  ^CPU Control: ${cpu_control} -> NoRecord\n  ^Memory Control: ${memory_control} -> NoRecord\n"))
    } else if str_eq(path, "drivenets_dnos/show_system_version.textfsm") {
        Some(String::from_str("Value system_name (\\S+)\nValue hardware_model (\\S+)\nValue software_version (.+)\nValue serial_number (\\S+)\nValue system_uptime (.+)\nValue last_reboot (.+)\n\nStart\n  ^System Name: ${system_name} -> NoRecord\n  ^Hardware Model: ${hardware_model} -> NoRecord\n  ^Software Version: ${software_version} -> NoRecord\n  ^Serial Number: ${serial_number} -> NoRecord\n  ^System Uptime: ${system_uptime} -> NoRecord\n  ^Last Reboot: ${last_reboot} -> NoRecord\n"))
    } else if str_eq(path, "juniper_junos/show_version.textfsm") {
        Some(String::from_str("Value hostname (\\S+)\nValue model (\\S+)\nValue version (\\S+)\n\nStart\n  ^Hostname: ${hostname} -> NoRecord\n  ^Model: ${model} -> NoRecord\n  ^Junos: ${version} -> NoRecord\n"))
    } else if str_eq(path, "zte_zxros/show_version.textfsm") {
        Some(String::from_str("Value model (\\S+)\nValue version (\\S+)\nValue uptime (.+)\n\nStart\n  ^ZTE \\S+ Software, Version: ${version}, -> NoRecord\n  ^\\S+ uptime is ${uptime} -> NoRecord\n"))
    } else {
        None
    }
}

} // verus!
