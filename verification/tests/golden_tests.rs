use netcli_core::ParseError;
use serde_json::Value;

fn parse_envelope(s: &str) -> Value {
    serde_json::from_str(s).expect("invalid JSON envelope")
}

fn assert_success(v: &Value) {
    assert_eq!(v["ok"], true, "expected ok:true, got: {v}");
    assert!(v["records"].is_array(), "records should be an array");
}

fn records(v: &Value) -> &Vec<Value> {
    v["records"].as_array().unwrap()
}

// Fixtures: captures of device CLI output exercised by the tests.

fn fixture_cisco_ios_show_version() -> &'static str {
    "Cisco IOS Software, C3750 Software (C3750-IPSERVICESK9-M), Version 12.2(55)SE10, RELEASE SOFTWARE (fc2)\nTechnical Support: http://www.cisco.com/techsupport\nCopyright (c) 1986-2015 by Cisco Systems, Inc.\nCompiled Wed 11-Feb-15 11:46 by prod_rel_team\n\nROM: Bootstrap program is C3750 boot loader\nBOOTLDR: C3750 Boot Loader (C3750-HBOOT-M) Version 12.2(44)SE5\n\nRouter01 uptime is 5 years, 18 weeks, 2 days, 51 minutes\nSystem returned to ROM by power-on\nSystem image file is \"flash:c3750-ipservicesk9-mz.122-55.SE10.bin\"\n\ncisco WS-C3750G-48TS (PowerPC405) processor (revision H0) with 131072K bytes of memory.\nProcessor board ID CAT1029RX6Z\nLast reset from power-on\n\nModel number: WS-C3750G-48TS-S\nConfiguration register is 0xF\n"
}

fn fixture_juniper_junos_show_version() -> &'static str {
    "Hostname: jrouter1\nModel: mx480\nJunos: 18.4R3.3\nJUNOS OS Kernel 64-bit  [20191115.14c2ad5_builder_stable_11]\nJUNOS OS libs [20191115.14c2ad5_builder_stable_11]\n"
}

fn fixture_arista_eos_show_version() -> &'static str {
    "Arista DCS-7050TX-64\nHardware version:    01.02\nSerial number:       JPE14080459\nSystem MAC address:  001c.7300.0001\n\nSoftware image version: 4.20.1F\nArchitecture:           i386\nInternal build version: 4.20.1F-6820520.4201F\nInternal build ID:      790a11e8-5aaf-4be7-a11a-e61795d05b91\n\nUptime:                 1 weeks, 4 days, 57 minutes\nTotal memory:           3818208 kB\nFree memory:            1678040 kB\n"
}

fn fixture_cisco_nxos_show_version() -> &'static str {
    "Cisco Nexus Operating System (NX-OS) Software\nTAC support: http://www.cisco.com/tac\nSoftware\n  BIOS: version 07.69\n  NXOS: version 9.3(8)\n  BIOS compile time:  04/07/2021\nHardware\n  cisco Nexus9000 C93180YC-EX Chassis\n  Intel(R) Xeon(R) CPU D-1528 @ 1.90GHz with 24632880 kB of memory.\n  Processor Board ID FDO21120ABC\n  Device name: nxos-switch1\n  bootflash:   53298520 kB\nKernel uptime is 120 day(s), 10 hour(s), 41 minute(s), 53 second(s)\n"
}

fn fixture_cisco_ios_show_interfaces() -> &'static str {
    "GigabitEthernet0/1 is up, line protocol is up\n  Hardware is Gigabit Ethernet, address is 0026.9876.1234 (bia 0026.9876.1234)\n  Description: Uplink to Core\n  Internet address is 10.0.0.1/24\n  MTU 1500 bytes, BW 1000000 Kbit, DLY 10 usec\nGigabitEthernet0/2 is administratively down, line protocol is down\n  Hardware is Gigabit Ethernet, address is 0026.9876.5678 (bia 0026.9876.5678)\n  Internet address is 192.168.1.1/24\n  MTU 1500 bytes, BW 1000000 Kbit, DLY 10 usec\n"
}

fn fixture_cisco_ios_show_ip_bgp_summary() -> &'static str {
    "BGP router identifier 10.0.0.1, local AS number 65000\nBGP table version is 42, main routing table version 42\n\nNeighbor        V           AS MsgRcvd MsgSent   TblVer  InQ OutQ Up/Down  State/PfxRcd\n10.0.0.2        4        65001   54321   54320       42    0    0 4d12h        120\n10.0.0.3        4        65002   54321   54320       42    0    0 4d12h        85\n"
}

fn fixture_cisco_nxos_show_cdp_neighbors() -> &'static str {
    "Capability Codes: R - Router, T - Trans-Bridge, B - Source-Route-Bridge\n\nDevice-ID          Local Intrfce      Hldtme Capability  Platform      Port ID\nswitch2.example.com Eth1/1            120    R S s       N9K-C93180YC  Eth1/2\nswitch3.example.com Eth1/2            140    R S s       N9K-C93180YC  Eth1/5\n"
}

fn fixture_cisco_ios_show_ip_interface_brief() -> &'static str {
    "Interface              IP-Address      OK? Method Status                Protocol\nGigabitEthernet0/0     10.1.1.1        YES NVRAM  up                    up\nGigabitEthernet0/1     10.1.1.1        YES NVRAM  up                    up\nGigabitEthernet0/2     10.1.2.1        YES NVRAM  up                    up\nGigabitEthernet0/3     10.1.3.1        YES NVRAM  up                    up\nGigabitEthernet0/4     10.1.4.1        YES NVRAM  up                    up\nGigabitEthernet0/5     10.1.5.1        YES NVRAM  up                    up\nGigabitEthernet0/6     10.1.6.1        YES NVRAM  up                    up\nGigabitEthernet0/7     10.1.7.1        YES NVRAM  up                    up\nGigabitEthernet0/8     10.1.8.1        YES NVRAM  up                    up\nVlan1                  unassigned      YES NVRAM  administratively down down\nVlan10                 10.10.10.1      YES NVRAM  up                    up\nLoopback0              192.168.255.1   YES NVRAM  up                    up\n"
}

fn fixture_cisco_iosxe_show_version() -> &'static str {
    "Cisco IOS XE Software, Version 17.09.05a\nCisco IOS Software [Cupertino], c8000be Software (X86_64_LINUX_IOSD-UNIVERSALK9-M), Version 17.9.5a, RELEASE SOFTWARE (fc3)\nTechnical Support: http://www.cisco.com/techsupport\nCopyright (c) 1986-2024 by Cisco Systems, Inc.\n\nmy-cisco-device uptime is 2 weeks, 5 days, 1 hour\nUptime for this control processor is 2 weeks, 5 days\nSystem image file is \"bootflash:packages.conf\"\n\nProcessor board ID [FLM292210DA]\nRouter operating mode: Autonomous\nConfiguration register is 0x2102\n"
}

fn fixture_cisco_iosxe_show_ip_interface_brief() -> &'static str {
    "Interface              IP-Address      OK? Method Status                Protocol\nGigabitEthernet0/0/0   10.5.146.254    YES NVRAM  up                    up\nGigabitEthernet0/0/1   10.5.1.1        YES NVRAM  up                    up\nGigabitEthernet0/0/2   10.5.2.1        YES NVRAM  up                    up\nGigabitEthernet0/0/3   10.5.3.1        YES NVRAM  up                    up\nGigabitEthernet0/0/4   10.5.4.1        YES NVRAM  up                    up\nGigabitEthernet0/0/5   10.5.5.1        YES NVRAM  up                    up\nGigabitEthernet0/0/6   10.5.6.1        YES NVRAM  up                    up\nGigabitEthernet0/0/7   10.5.7.1        YES NVRAM  up                    up\nGigabitEthernet0/0/8   10.5.8.1        YES NVRAM  up                    up\nGigabitEthernet0/0/9   10.5.9.1        YES NVRAM  up                    up\nGigabitEthernet0/0/10  10.5.10.1       YES NVRAM  up                    up\nGigabitEthernet0/0/11  10.5.11.1       YES NVRAM  up                    up\nGigabitEthernet0/0/12  10.5.12.1       YES NVRAM  up                    up\nGigabitEthernet0/0/13  10.5.13.1       YES NVRAM  up                    up\nGigabitEthernet0/0/14  10.5.14.1       YES NVRAM  up                    up\nGigabitEthernet0/0/15  10.5.15.1       YES NVRAM  up                    up\nGigabitEthernet0/0/16  10.5.16.1       YES NVRAM  up                    up\nGigabitEthernet0/0/17  10.5.17.1       YES NVRAM  up                    up\nGigabitEthernet0/0/18  10.5.18.1       YES NVRAM  up                    up\nGigabitEthernet0/0/19  10.5.19.1       YES NVRAM  up                    up\nGigabitEthernet0/0/20  10.5.20.1       YES NVRAM  up                    up\nGigabitEthernet0/0/21  10.5.21.1       YES NVRAM  up                    up\nGigabitEthernet0/0/22  10.5.22.1       YES NVRAM  up                    up\nGigabitEthernet0/0/23  10.5.23.1       YES NVRAM  up                    up\nGigabitEthernet0/0/24  10.5.24.1       YES NVRAM  up                    up\nGigabitEthernet0/0/25  10.5.25.1       YES NVRAM  up                    up\nGigabitEthernet0/0/26  10.5.26.1       YES NVRAM  up                    up\nGigabitEthernet0/0/27  10.5.27.1       YES NVRAM  up                    up\nGigabitEthernet0/0/28  10.5.28.1       YES NVRAM  up                    up\nGigabitEthernet0/0/29  10.5.29.1       YES NVRAM  up                    up\nGigabitEthernet0/0/30  10.5.30.1       YES NVRAM  up                    up\nGigabitEthernet0/0/31  10.5.31.1       YES NVRAM  up                    up\nGigabitEthernet0/0/32  10.5.32.1       YES NVRAM  up                    up\nGigabitEthernet0/0/33  10.5.33.1       YES NVRAM  up                    up\nGigabitEthernet0/0/34  10.5.34.1       YES NVRAM  up                    up\nGigabitEthernet0/0/35  10.5.35.1       YES NVRAM  up                    up\nGigabitEthernet0/0/36  10.5.36.1       YES NVRAM  up                    up\nGigabitEthernet0/0/37  10.5.37.1       YES NVRAM  up                    up\nGigabitEthernet0/0/38  10.5.38.1       YES NVRAM  up                    up\nGigabitEthernet0/0/39  10.5.39.1       YES NVRAM  up                    up\nTenGigabitEthernet0/1/0 unassigned      YES NVRAM  down                  down\nTenGigabitEthernet0/1/1 unassigned      YES NVRAM  down                  down\nTenGigabitEthernet0/1/2 unassigned      YES NVRAM  down                  down\nTenGigabitEthernet0/1/3 unassigned      YES NVRAM  down                  down\nTenGigabitEthernet0/1/4 unassigned      YES NVRAM  down                  down\nTenGigabitEthernet0/1/5 unassigned      YES NVRAM  down                  down\nTenGigabitEthernet0/1/6 unassigned      YES NVRAM  down                  down\nTenGigabitEthernet0/1/7 unassigned      YES NVRAM  down                  down\nTenGigabitEthernet0/1/8 unassigned      YES NVRAM  down                  down\nTenGigabitEthernet0/1/9 unassigned      YES NVRAM  down                  down\nTenGigabitEthernet0/1/10 unassigned      YES NVRAM  down                  down\nTenGigabitEthernet0/1/11 unassigned      YES NVRAM  down                  down\nTenGigabitEthernet0/1/12 unassigned      YES NVRAM  down                  down\nTenGigabitEthernet0/1/13 unassigned      YES NVRAM  down                  down\nTenGigabitEthernet0/1/14 unassigned      YES NVRAM  down                  down\nTenGigabitEthernet0/1/15 unassigned      YES NVRAM  down                  down\nTenGigabitEthernet0/1/16 unassigned      YES NVRAM  down                  down\nTenGigabitEthernet0/1/17 unassigned      YES NVRAM  down                  down\nTenGigabitEthernet0/1/18 unassigned      YES NVRAM  down                  down\nTenGigabitEthernet0/1/19 unassigned      YES NVRAM  down                  down\nTenGigabitEthernet0/1/20 unassigned      YES NVRAM  down                  down\nTenGigabitEthernet0/1/21 unassigned      YES NVRAM  down                  down\nTenGigabitEthernet0/1/22 unassigned      YES NVRAM  down                  down\nTenGigabitEthernet0/1/23 unassigned      YES NVRAM  down                  down\nTenGigabitEthernet0/1/24 unassigned      YES NVRAM  down                  down\nTenGigabitEthernet0/1/25 unassigned      YES NVRAM  down                  down\nTenGigabitEthernet0/1/26 unassigned      YES NVRAM  down                  down\nTenGigabitEthernet0/1/27 unassigned      YES NVRAM  down                  down\nTenGigabitEthernet0/1/28 unassigned      YES NVRAM  down                  down\nLoopback0              10.255.255.1    YES NVRAM  up                    up\n"
}

fn fixture_cisco_iosxe_show_interfaces_status() -> &'static str {
    "Port         Name               Status       Vlan       Duplex  Speed Type\nGi0/0/0      Uplink-to-Core     connected    1          a-full  a-1000 10/100/1000BaseTX\nGi0/0/1      Access-1           connected    10         a-full  a-1000 10/100/1000BaseTX\nGi0/0/2      Access-2           connected    10         a-full  a-1000 10/100/1000BaseTX\nGi0/0/3      Access-3           connected    10         a-full  a-1000 10/100/1000BaseTX\nGi0/0/4      Access-4           connected    10         a-full  a-1000 10/100/1000BaseTX\nGi0/0/5      Access-5           connected    10         a-full  a-1000 10/100/1000BaseTX\nGi0/1/0      Spare-0            notconnect   1          auto    auto  10/100/1000BaseTX\nGi0/1/1      Spare-1            notconnect   1          auto    auto  10/100/1000BaseTX\nGi0/1/2      Spare-2            notconnect   1          auto    auto  10/100/1000BaseTX\nGi0/1/3      Spare-3            notconnect   1          auto    auto  10/100/1000BaseTX\n"
}

fn fixture_cisco_iosxe_show_interfaces_transceiver() -> &'static str {
    "Port       Type       Vendor     Tx-Power   Rx-Power\nTe0/0/0    SFP-10G    FINISAR    -2.1       -3.4\nTe0/0/1    SFP-10G    FINISAR    -2.1       -3.4\nTe0/0/2    SFP-10G    FINISAR    -2.1       -3.4\nTe0/0/3    SFP-10G    FINISAR    -2.1       -3.4\nTe0/0/4    SFP-10G    FINISAR    -2.1       -3.4\nTe0/0/5    SFP-10G    FINISAR    -2.1       -3.4\nTe0/0/6    SFP-10G    FINISAR    -2.1       -3.4\nTe0/0/7    SFP-10G    FINISAR    -2.1       -3.4\n"
}

fn fixture_cisco_iosxe_show_inventory() -> &'static str {
    "NAME: \"Chassis\", DESCR: \"Cisco C8300-2N2S-4T2X Chassis\"\nPID: C8300-2N2S-4T2X            , VID: V01 , SN: FLM292210DA\n\nNAME: \"module 0\", DESCR: \"Cisco module 0\"\nPID: C8300-MOD-0            , VID: V01 , SN: FOC25280000\n\nNAME: \"module 1\", DESCR: \"Cisco module 1\"\nPID: C8300-MOD-1            , VID: V01 , SN: FOC25280001\n\nNAME: \"module 2\", DESCR: \"Cisco module 2\"\nPID: C8300-MOD-2            , VID: V01 , SN: FOC25280002\n\nNAME: \"module 3\", DESCR: \"Cisco module 3\"\nPID: C8300-MOD-3            , VID: V01 , SN: FOC25280003\n\nNAME: \"module 4\", DESCR: \"Cisco module 4\"\nPID: C8300-MOD-4            , VID: V01 , SN: FOC25280004\n\nNAME: \"module 5\", DESCR: \"Cisco module 5\"\nPID: C8300-MOD-5            , VID: V01 , SN: FOC25280005\n\nNAME: \"module 6\", DESCR: \"Cisco module 6\"\nPID: C8300-MOD-6            , VID: V01 , SN: FOC25280006\n\nNAME: \"module 7\", DESCR: \"Cisco module 7\"\nPID: C8300-MOD-7            , VID: V01 , SN: FOC25280007\n\nNAME: \"module 8\", DESCR: \"Cisco module 8\"\nPID: C8300-MOD-8            , VID: V01 , SN: FOC25280008\n\nNAME: \"module 9\", DESCR: \"Cisco module 9\"\nPID: C8300-MOD-9            , VID: V01 , SN: FOC25280009\n\n"
}

fn fixture_cisco_iosxe_show_ip_bgp_summary() -> &'static str {
    "BGP router identifier 10.0.0.1, local AS number 65000\nBGP table version is 42, main routing table version 42\n\nNeighbor        V           AS MsgRcvd MsgSent   TblVer  InQ OutQ Up/Down  State/PfxRcd\n10.0.0.2        4        65001   54321   54320       42    0    0 4d12h        625\n10.0.0.3        4        65002   54321   54320       42    0    0 4d12h        312\n10.0.0.4        4        65003   54321   54320       42    0    0 4d12h        98\n10.0.0.5        4        65004   54321   54320       42    0    0 4d12h        4\n"
}

fn fixture_cisco_iosxe_show_ip_route_summary() -> &'static str {
    "IP routing table name is default (0x0)\nIP routing table maximum-paths is 32\nRoute Source    Networks    Subnets     Replicates  Overhead    Memory (bytes)\napplication     0           0           0           0           0\nconnected       0           12          0           1152        3456\nstatic          2           4           0           576         1728\nospf            10          44          0           5184        15552\nbgp             120         300         0           40320       120960\ninternal        5           0           0           0           1480\nexternal        3           0           0           288         864\nnat             0           0           0           0           0\nisis            0           0           0           0           0\nrip             0           0           0           0           0\nTotal           140         360         0           47520       144040\n"
}

fn fixture_cisco_iosxe_show_platform() -> &'static str {
    "Chassis type: C8300-2N2S-4T2X\n\nSlot      Type                State                 Insert time (ago)\n--------- ------------------- --------------------- -----------------\n0         C8300-2N2S-4T2X     ok                    2w5d\n0/0       4x1G-2xSFP+         ok                    2w5d\nR0        C8300-2N2S-4T2X     ok, active            2w5d\nF0        C8300-2N2S-4T2X     ok, active            2w5d\nP0        PWR-CC1-250WAC      ok                    2w5d\nP2        C8300-FAN-1R        ok                    2w5d\n"
}

fn fixture_cisco_iosxe_show_environment_sensor_rpm() -> &'static str {
    "Sensor List:  Environmental Monitoring\n Sensor           Location          State             Reading\n fan0             P0                Normal            9936 RPM\n fan1             P0                Normal            9948 RPM\n fan2             P0                Normal            9960 RPM\n fan3             P0                Normal            9972 RPM\n fan4             P0                Normal            9984 RPM\n"
}

fn fixture_cisco_iosxe_show_environment_sensor_temperature() -> &'static str {
    "Sensor List:  Environmental Monitoring\n Sensor           Location          State             Reading\n Temp 1           P0                Normal            25 Celsius\n Temp 2           P0                Normal            26 Celsius\n Temp 3           P0                Normal            27 Celsius\n Temp 4           P0                Normal            28 Celsius\n Temp 5           P0                Normal            29 Celsius\n Temp 6           P0                Normal            30 Celsius\n Temp 7           P0                Normal            31 Celsius\n Temp 8           P0                Normal            32 Celsius\n"
}

fn fixture_cisco_iosxe_show_interfaces_transceiver_detail() -> &'static str {
    "Port       Temperature  Voltage   Tx-Power   Rx-Power\nTe0/0/0    31.7         3.29      -2.1       -3.4\nTe0/0/1    31.7         3.29      -2.1       -3.4\nTe0/0/2    31.7         3.29      -2.1       -3.4\nTe0/0/3    31.7         3.29      -2.1       -3.4\nTe0/0/4    31.7         3.29      -2.1       -3.4\nTe0/0/5    31.7         3.29      -2.1       -3.4\nTe0/0/6    31.7         3.29      -2.1       -3.4\nTe0/0/7    31.7         3.29      -2.1       -3.4\n"
}

fn fixture_cisco_iosxe_show_platform_resources() -> &'static str {
    "Resource                 Usage      State\nRP0 (ok, active)\n Control Processor        6.60%      H\n DRAM                     31.44%     H\n bootflash                14.21%     H\n harddisk                 2.30%      H\n QFP                      4.79%      H\n TCAM                     12.00%     H\nESP0 (ok, active)\n Control Processor        6.60%      H\n DRAM                     31.44%     H\n bootflash                14.21%     H\n harddisk                 2.30%      H\n QFP                      4.79%      H\n TCAM                     12.00%     H\nSIP0 (ok, active)\n Control Processor        6.60%      H\n DRAM                     31.44%     H\n bootflash                14.21%     H\n harddisk                 2.30%      H\n QFP                      4.79%      H\n TCAM                     12.00%     H\n"
}

fn fixture_cisco_iosxe_show_interface_ge_include_bia() -> &'static str {
    "  Hardware is 4x1G-2xSFP+, address is 1096.c62a.8db0 (bia 1096.c62a.8db0)\n"
}

fn fixture_cisco_iosxe_show_line() -> &'static str {
    "   Tty  Line  Typ   Tx/Rx        Uses   Noise\n*  0     0    CTY   9600/9600    0      1\n   1     1    AUX   9600/9600    0      0\n   1/0/0 98   TTY   9600/9600    106    0\n   1/0/1 99   TTY   9600/9600    3      0\n   578   578  VTY   9600/9600    2      0\n"
}

fn fixture_cisco_iosxe_show_ip_int_br() -> &'static str {
    "Interface              IP-Address      OK? Method Status                Protocol\nGigabitEthernet0/0/0   10.5.146.254    YES NVRAM  up                    up\nGigabitEthernet0/0/1   192.0.2.1       YES NVRAM  administratively down down\nGigabitEthernet0/0/2   unassigned      YES NVRAM  down                  down\n"
}

fn fixture_cisco_iosxe_show_ip_int_br_ex_unas() -> &'static str {
    "Interface              IP-Address      OK? Method Status                Protocol\nGigabitEthernet0/0/0   10.5.146.254    YES NVRAM  up                    up\n"
}

fn fixture_drivenets_dnos_show_system_version() -> &'static str {
    "System Name: DN-SA-01\nHardware Model: NCF-400G\nSoftware Version: DNOS 25.4.0\nSerial Number: DN2024010001\nSystem Uptime: 127 days, 14 hours, 33 minutes\nLast Reboot: 2024-09-05 10:22:15 UTC\n"
}

fn fixture_drivenets_dnos_show_system_status() -> &'static str {
    "System Name: DN-SA-01\nSoftware Version: DNOS 21.3.5\nOverall Status: Healthy\nActive NCPs: 4\nActive NCFs: 2\nCPU Control: 45%\nMemory Control: 62%\n"
}

fn fixture_drivenets_dnos_show_interfaces_brief() -> &'static str {
    "Interface        Admin     Link   Speed     MTU    IPv4 Address\nbundle-12        enabled   up     200Gbps   9000   192.168.12.0/31\nge100-0/0/1      enabled   up     100Gbps   9000   10.99.1.1/31\nge100-0/0/2      enabled   up     100Gbps   9000   10.99.2.1/31\nge100-0/0/3      enabled   up     100Gbps   9000   10.99.3.1/31\nge100-0/0/4      enabled   up     100Gbps   9000   10.99.4.1/31\nge100-0/0/5      enabled   up     100Gbps   9000   10.99.5.1/31\nge100-0/0/6      enabled   up     100Gbps   9000   10.99.6.1/31\nge100-0/0/7      enabled   up     100Gbps   9000   10.99.7.1/31\nge100-0/0/8      enabled   up     100Gbps   9000   10.99.8.1/31\nge100-0/0/9      enabled   up     100Gbps   9000   10.99.9.1/31\nge100-0/0/10     enabled   up     100Gbps   9000   10.99.10.1/31\nge100-0/0/11     enabled   up     100Gbps   9000   10.99.11.1/31\nge100-0/0/12     enabled   up     100Gbps   9000   10.99.12.1/31\nge100-0/0/13     enabled   up     100Gbps   9000   10.99.13.1/31\nge100-0/0/14     enabled   up     100Gbps   9000   10.99.14.1/31\nge100-0/0/15     enabled   up     100Gbps   9000   10.99.15.1/31\nge100-0/0/16     enabled   up     100Gbps   9000   10.99.16.1/31\nge100-0/0/17     enabled   up     100Gbps   9000   10.99.17.1/31\nge100-0/0/18     enabled   up     100Gbps   9000   10.99.18.1/31\nge100-0/0/19     enabled   up     100Gbps   9000   10.99.19.1/31\nge100-0/0/20     enabled   up     100Gbps   9000   10.99.20.1/31\nge100-0/0/21     enabled   up     100Gbps   9000   10.99.21.1/31\nge100-0/0/22     enabled   up     100Gbps   9000   10.99.22.1/31\nge100-0/0/23     enabled   up     100Gbps   9000   10.99.23.1/31\nge100-0/0/24     enabled   up     100Gbps   9000   10.99.24.1/31\nge100-0/0/25     enabled   up     100Gbps   9000   10.99.25.1/31\nge100-0/0/26     enabled   up     100Gbps   9000   10.99.26.1/31\nge100-0/0/27     enabled   up     100Gbps   9000   10.99.27.1/31\n"
}

fn fixture_drivenets_dnos_show_interfaces_detail() -> &'static str {
    "Interface bundle-12\n  Admin state: enabled\n  Operational state: up\n  MAC address: 84:40:76:d9:0e:4e\n  Speed: 200Gbps\n  IPv4 address: 192.168.12.0/31\n  L2 MTU: 1514\nInterface ge100-0/0/1\n  Admin state: enabled\n  Operational state: up\n  MAC address: 84:40:76:d9:0e:51\n  Speed: 100Gbps\n  IPv4 address: 10.99.1.1/31\n  L2 MTU: 9216\nInterface ge100-0/0/2\n  Admin state: enabled\n  Operational state: up\n  MAC address: 84:40:76:d9:0e:52\n  Speed: 100Gbps\n  IPv4 address: 10.99.2.1/31\n  L2 MTU: 9216\nInterface ge100-0/0/3\n  Admin state: enabled\n  Operational state: up\n  MAC address: 84:40:76:d9:0e:53\n  Speed: 100Gbps\n  IPv4 address: 10.99.3.1/31\n  L2 MTU: 9216\nInterface ge100-0/0/4\n  Admin state: enabled\n  Operational state: up\n  MAC address: 84:40:76:d9:0e:54\n  Speed: 100Gbps\n  IPv4 address: 10.99.4.1/31\n  L2 MTU: 9216\nInterface ge100-0/0/5\n  Admin state: enabled\n  Operational state: up\n  MAC address: 84:40:76:d9:0e:55\n  Speed: 100Gbps\n  IPv4 address: 10.99.5.1/31\n  L2 MTU: 9216\nInterface ge100-0/0/6\n  Admin state: enabled\n  Operational state: up\n  MAC address: 84:40:76:d9:0e:56\n  Speed: 100Gbps\n  IPv4 address: 10.99.6.1/31\n  L2 MTU: 9216\nInterface ge100-0/0/7\n  Admin state: enabled\n  Operational state: up\n  MAC address: 84:40:76:d9:0e:57\n  Speed: 100Gbps\n  IPv4 address: 10.99.7.1/31\n  L2 MTU: 9216\nInterface ge100-0/0/8\n  Admin state: enabled\n  Operational state: up\n  MAC address: 84:40:76:d9:0e:58\n  Speed: 100Gbps\n  IPv4 address: 10.99.8.1/31\n  L2 MTU: 9216\nInterface ge100-0/0/9\n  Admin state: enabled\n  Operational state: up\n  MAC address: 84:40:76:d9:0e:59\n  Speed: 100Gbps\n  IPv4 address: 10.99.9.1/31\n  L2 MTU: 9216\nInterface ge100-0/0/10\n  Admin state: enabled\n  Operational state: up\n  MAC address: 84:40:76:d9:0e:5a\n  Speed: 100Gbps\n  IPv4 address: 10.99.10.1/31\n  L2 MTU: 9216\nInterface ge100-0/0/11\n  Admin state: enabled\n  Operational state: up\n  MAC address: 84:40:76:d9:0e:5b\n  Speed: 100Gbps\n  IPv4 address: 10.99.11.1/31\n  L2 MTU: 9216\nInterface ge100-0/0/12\n  Admin state: enabled\n  Operational state: up\n  MAC address: 84:40:76:d9:0e:5c\n  Speed: 100Gbps\n  IPv4 address: 10.99.12.1/31\n  L2 MTU: 9216\nInterface ge100-0/0/13\n  Admin state: enabled\n  Operational state: up\n  MAC address: 84:40:76:d9:0e:5d\n  Speed: 100Gbps\n  IPv4 address: 10.99.13.1/31\n  L2 MTU: 9216\nInterface ge100-0/0/14\n  Admin state: enabled\n  Operational state: up\n  MAC address: 84:40:76:d9:0e:5e\n  Speed: 100Gbps\n  IPv4 address: 10.99.14.1/31\n  L2 MTU: 9216\nInterface ge100-0/0/15\n  Admin state: enabled\n  Operational state: up\n  MAC address: 84:40:76:d9:0e:5f\n  Speed: 100Gbps\n  IPv4 address: 10.99.15.1/31\n  L2 MTU: 9216\nInterface ge100-0/0/16\n  Admin state: enabled\n  Operational state: up\n  MAC address: 84:40:76:d9:0e:60\n  Speed: 100Gbps\n  IPv4 address: 10.99.16.1/31\n  L2 MTU: 9216\nInterface ge100-0/0/17\n  Admin state: enabled\n  Operational state: up\n  MAC address: 84:40:76:d9:0e:61\n  Speed: 100Gbps\n  IPv4 address: 10.99.17.1/31\n  L2 MTU: 9216\nInterface ge100-0/0/18\n  Admin state: enabled\n  Operational state: up\n  MAC address: 84:40:76:d9:0e:62\n  Speed: 100Gbps\n  IPv4 address: 10.99.18.1/31\n  L2 MTU: 9216\nInterface ge100-0/0/19\n  Admin state: enabled\n  Operational state: up\n  MAC address: 84:40:76:d9:0e:63\n  Speed: 100Gbps\n  IPv4 address: 10.99.19.1/31\n  L2 MTU: 9216\nInterface ge100-0/0/20\n  Admin state: enabled\n  Operational state: up\n  MAC address: 84:40:76:d9:0e:64\n  Speed: 100Gbps\n  IPv4 address: 10.99.20.1/31\n  L2 MTU: 9216\nInterface ge100-0/0/21\n  Admin state: enabled\n  Operational state: up\n  MAC address: 84:40:76:d9:0e:65\n  Speed: 100Gbps\n  IPv4 address: 10.99.21.1/31\n  L2 MTU: 9216\nInterface ge100-0/0/22\n  Admin state: enabled\n  Operational state: up\n  MAC address: 84:40:76:d9:0e:66\n  Speed: 100Gbps\n  IPv4 address: 10.99.22.1/31\n  L2 MTU: 9216\nInterface ge100-0/0/23\n  Admin state: enabled\n  Operational state: up\n  MAC address: 84:40:76:d9:0e:67\n  Speed: 100Gbps\n  IPv4 address: 10.99.23.1/31\n  L2 MTU: 9216\nInterface ge100-0/0/24\n  Admin state: enabled\n  Operational state: up\n  MAC address: 84:40:76:d9:0e:68\n  Speed: 100Gbps\n  IPv4 address: 10.99.24.1/31\n  L2 MTU: 9216\nInterface ge100-0/0/25\n  Admin state: enabled\n  Operational state: up\n  MAC address: 84:40:76:d9:0e:69\n  Speed: 100Gbps\n  IPv4 address: 10.99.25.1/31\n  L2 MTU: 9216\nInterface ge100-0/0/26\n  Admin state: enabled\n  Operational state: up\n  MAC address: 84:40:76:d9:0e:6a\n  Speed: 100Gbps\n  IPv4 address: 10.99.26.1/31\n  L2 MTU: 9216\nInterface ge100-0/0/27\n  Admin state: enabled\n  Operational state: up\n  MAC address: 84:40:76:d9:0e:6b\n  Speed: 100Gbps\n  IPv4 address: 10.99.27.1/31\n  L2 MTU: 9216\nInterface ge100-0/0/28\n  Admin state: enabled\n  Operational state: up\n  MAC address: 84:40:76:d9:0e:6c\n  Speed: 100Gbps\n  IPv4 address: 10.99.28.1/31\n  L2 MTU: 9216\nInterface ge100-0/0/29\n  Admin state: enabled\n  Operational state: up\n  MAC address: 84:40:76:d9:0e:6d\n  Speed: 100Gbps\n  IPv4 address: 10.99.29.1/31\n  L2 MTU: 9216\nInterface ge100-0/0/30\n  Admin state: enabled\n  Operational state: up\n  MAC address: 84:40:76:d9:0e:6e\n  Speed: 100Gbps\n  IPv4 address: 10.99.30.1/31\n  L2 MTU: 9216\nInterface ge100-0/0/31\n  Admin state: enabled\n  Operational state: up\n  MAC address: 84:40:76:d9:0e:6f\n  Speed: 100Gbps\n  IPv4 address: 10.99.31.1/31\n  L2 MTU: 9216\nInterface ge100-0/0/32\n  Admin state: enabled\n  Operational state: up\n  MAC address: 84:40:76:d9:0e:70\n  Speed: 100Gbps\n  IPv4 address: 10.99.32.1/31\n  L2 MTU: 9216\nInterface ge100-0/0/33\n  Admin state: enabled\n  Operational state: up\n  MAC address: 84:40:76:d9:0e:71\n  Speed: 100Gbps\n  IPv4 address: 10.99.33.1/31\n  L2 MTU: 9216\nInterface ge100-0/0/34\n  Admin state: enabled\n  Operational state: up\n  MAC address: 84:40:76:d9:0e:72\n  Speed: 100Gbps\n  IPv4 address: 10.99.34.1/31\n  L2 MTU: 9216\nInterface ge100-0/0/35\n  Admin state: enabled\n  Operational state: up\n  MAC address: 84:40:76:d9:0e:73\n  Speed: 100Gbps\n  IPv4 address: 10.99.35.1/31\n  L2 MTU: 9216\nInterface ge100-0/0/36\n  Admin state: enabled\n  Operational state: up\n  MAC address: 84:40:76:d9:0e:74\n  Speed: 100Gbps\n  IPv4 address: 10.99.36.1/31\n  L2 MTU: 9216\nInterface ge100-0/0/37\n  Admin state: enabled\n  Operational state: up\n  MAC address: 84:40:76:d9:0e:75\n  Speed: 100Gbps\n  IPv4 address: 10.99.37.1/31\n  L2 MTU: 9216\nInterface ge100-0/0/38\n  Admin state: enabled\n  Operational state: up\n  MAC address: 84:40:76:d9:0e:76\n  Speed: 100Gbps\n  IPv4 address: 10.99.38.1/31\n  L2 MTU: 9216\nInterface ge100-0/0/39\n  Admin state: enabled\n  Operational state: up\n  MAC address: 84:40:76:d9:0e:77\n  Speed: 100Gbps\n  IPv4 address: 10.99.39.1/31\n  L2 MTU: 9216\nInterface ge100-0/0/40\n  Admin state: enabled\n  Operational state: up\n  MAC address: 84:40:76:d9:0e:78\n  Speed: 100Gbps\n  IPv4 address: 10.99.40.1/31\n  L2 MTU: 9216\nInterface ge100-0/0/41\n  Admin state: enabled\n  Operational state: up\n  MAC address: 84:40:76:d9:0e:79\n  Speed: 100Gbps\n  IPv4 address: 10.99.41.1/31\n  L2 MTU: 9216\nInterface ge100-0/0/42\n  Admin state: enabled\n  Operational state: up\n  MAC address: 84:40:76:d9:0e:7a\n  Speed: 100Gbps\n  IPv4 address: 10.99.42.1/31\n  L2 MTU: 9216\nInterface ge100-0/0/43\n  Admin state: enabled\n  Operational state: up\n  MAC address: 84:40:76:d9:0e:7b\n  Speed: 100Gbps\n  IPv4 address: 10.99.43.1/31\n  L2 MTU: 9216\nInterface ge100-0/0/44\n  Admin state: enabled\n  Operational state: up\n  MAC address: 84:40:76:d9:0e:7c\n  Speed: 100Gbps\n  IPv4 address: 10.99.44.1/31\n  L2 MTU: 9216\nInterface ge100-0/0/45\n  Admin state: enabled\n  Operational state: up\n  MAC address: 84:40:76:d9:0e:7d\n  Speed: 100Gbps\n  IPv4 address: 10.99.45.1/31\n  L2 MTU: 9216\nInterface ge100-0/0/46\n  Admin state: enabled\n  Operational state: up\n  MAC address: 84:40:76:d9:0e:7e\n  Speed: 100Gbps\n  IPv4 address: 10.99.46.1/31\n  L2 MTU: 9216\nInterface ge100-0/0/47\n  Admin state: enabled\n  Operational state: up\n  MAC address: 84:40:76:d9:0e:7f\n  Speed: 100Gbps\n  IPv4 address: 10.99.47.1/31\n  L2 MTU: 9216\nInterface ge100-0/0/48\n  Admin state: enabled\n  Operational state: up\n  MAC address: 84:40:76:d9:0e:80\n  Speed: 100Gbps\n  IPv4 address: 10.99.48.1/31\n  L2 MTU: 9216\nInterface ge100-0/0/49\n  Admin state: enabled\n  Operational state: up\n  MAC address: 84:40:76:d9:0e:81\n  Speed: 100Gbps\n  IPv4 address: 10.99.49.1/31\n  L2 MTU: 9216\nInterface ge100-0/0/50\n  Admin state: enabled\n  Operational state: up\n  MAC address: 84:40:76:d9:0e:82\n  Speed: 100Gbps\n  IPv4 address: 10.99.50.1/31\n  L2 MTU: 9216\nInterface ge100-0/0/51\n  Admin state: enabled\n  Operational state: up\n  MAC address: 84:40:76:d9:0e:83\n  Speed: 100Gbps\n  IPv4 address: 10.99.51.1/31\n  L2 MTU: 9216\n"
}

fn fixture_drivenets_dnos_show_interfaces_transceiver() -> &'static str {
    "Interface Identifier Vendor-Name Vendor-SN\nge100-0/0/0      QSFP28       FINISAR CORP.      U4DADNU\nge100-0/0/1      QSFP28       FINISAR CORP.      U4DA001\nge100-0/0/2      QSFP28       FINISAR CORP.      U4DA002\nge100-0/0/3      QSFP28       FINISAR CORP.      U4DA003\nge100-0/0/4      QSFP28       FINISAR CORP.      U4DA004\nge100-0/0/5      QSFP28       FINISAR CORP.      U4DA005\nge100-0/0/6      QSFP28       FINISAR CORP.      U4DA006\nge100-0/0/7      QSFP28       FINISAR CORP.      U4DA007\nge100-0/0/8      QSFP28       FINISAR CORP.      U4DA008\nge100-0/0/9      QSFP28       FINISAR CORP.      U4DA009\nge100-0/0/10     QSFP28       FINISAR CORP.      U4DA010\nge100-0/0/11     QSFP28       FINISAR CORP.      U4DA011\nge100-0/0/12     QSFP28       FINISAR CORP.      U4DA012\nge100-0/0/13     QSFP28       FINISAR CORP.      U4DA013\nge100-0/0/14     QSFP28       FINISAR CORP.      U4DA014\nge100-0/0/15     QSFP28       FINISAR CORP.      U4DA015\nge100-0/0/16     QSFP28       FINISAR CORP.      U4DA016\nge100-0/0/17     QSFP28       FINISAR CORP.      U4DA017\nge100-0/0/18     QSFP28       FINISAR CORP.      U4DA018\nge100-0/0/19     QSFP28       FINISAR CORP.      U4DA019\nge100-0/0/20     QSFP28       FINISAR CORP.      U4DA020\nge100-0/0/21     QSFP28       FINISAR CORP.      U4DA021\nge100-0/0/22     QSFP28       FINISAR CORP.      U4DA022\nge100-0/0/23     QSFP28       FINISAR CORP.      U4DA023\nge100-0/0/24     QSFP28       FINISAR CORP.      U4DA024\nge100-0/0/25     QSFP28       FINISAR CORP.      U4DA025\nge100-0/0/26     QSFP28       FINISAR CORP.      U4DA026\nge100-0/0/27     QSFP28       FINISAR CORP.      U4DA027\nge100-0/0/28     QSFP28       FINISAR CORP.      U4DA028\nge100-0/0/29     QSFP28       FINISAR CORP.      U4DA029\nge100-0/0/30     QSFP28       FINISAR CORP.      U4DA030\nge100-0/0/31     QSFP28       FINISAR CORP.      U4DA031\nge100-0/0/32     QSFP28       FINISAR CORP.      U4DA032\nge100-0/0/33     QSFP28       FINISAR CORP.      U4DA033\nge100-0/0/34     QSFP28       FINISAR CORP.      U4DA034\nge100-0/0/35     QSFP28       FINISAR CORP.      U4DA035\nge100-0/0/36     QSFP28       FINISAR CORP.      U4DA036\nge100-0/0/37     QSFP28       FINISAR CORP.      U4DA037\nge100-0/0/38     QSFP28       FINISAR CORP.      U4DA038\nge100-0/0/39     QSFP28       FINISAR CORP.      U4DA039\n"
}

fn fixture_drivenets_dnos_show_config_flatten() -> &'static str {
    "hostname DN-SA-01\ninterface Management0\ninterface ge100-0/0/0\ninterface ge100-0/0/0 mtu 9216\ninterface ge100-0/0/1\ninterface ge100-0/0/1 mtu 9216\ninterface ge100-0/0/2\ninterface ge100-0/0/2 mtu 9216\ninterface ge100-0/0/3\ninterface ge100-0/0/3 mtu 9216\ninterface ge100-0/0/4\ninterface ge100-0/0/4 mtu 9216\ninterface ge100-0/0/5\ninterface ge100-0/0/5 mtu 9216\ninterface ge100-0/0/6\ninterface ge100-0/0/6 mtu 9216\ninterface ge100-0/0/7\ninterface ge100-0/0/7 mtu 9216\ninterface ge100-0/0/8\ninterface ge100-0/0/8 mtu 9216\ninterface ge100-0/0/9\ninterface ge100-0/0/9 mtu 9216\ninterface ge100-0/0/10\ninterface ge100-0/0/10 mtu 9216\ninterface ge100-0/0/11\ninterface ge100-0/0/11 mtu 9216\ninterface ge100-0/0/12\ninterface ge100-0/0/12 mtu 9216\ninterface ge100-0/0/13\ninterface ge100-0/0/13 mtu 9216\ninterface ge100-0/0/14\ninterface ge100-0/0/14 mtu 9216\ninterface ge100-0/0/15\ninterface ge100-0/0/15 mtu 9216\ninterface ge100-0/0/16\ninterface ge100-0/0/16 mtu 9216\n"
}

fn fixture_drivenets_dnos_show_lldp() -> &'static str {
    "Interface        Transmit   Receive    Keepalive   Holdtime\nge100-0/0/0      enabled    enabled    30          120\nge100-0/0/1      enabled    enabled    30          120\nge100-0/0/2      enabled    enabled    30          120\nge100-0/0/3      enabled    enabled    30          120\nge100-0/0/4      enabled    enabled    30          120\nge100-0/0/5      enabled    enabled    30          120\n"
}

fn fixture_drivenets_dnos_show_lldp_counters() -> &'static str {
    "Interface        PDU-RX     PDU-TX     Inserted\nge100-0/0/0      49278      49278      1\nge100-0/0/1      49278      49278      1\nge100-0/0/2      49278      49278      1\nge100-0/0/3      49278      49278      1\nge100-0/0/4      49278      49278      1\nge100-0/0/5      49278      49278      1\n"
}

fn fixture_drivenets_dnos_show_lldp_neighbors() -> &'static str {
    "Interface        Neighbor     Neighbor-Interface   TTL\nge100-0/0/0      DN-SA-02     ge100-0/0/0          120\nge100-0/0/1      DN-SA-02     ge100-0/0/1          120\nge100-0/0/2      DN-SA-02     ge100-0/0/2          120\nge100-0/0/3      DN-SA-02     ge100-0/0/3          120\nge100-0/0/4      DN-SA-02     ge100-0/0/4          120\nge100-0/0/5      DN-SA-02     ge100-0/0/5          120\n"
}

fn fixture_drivenets_dnos_show_route_summary() -> &'static str {
    "Route Source     Routes     Paths\nconnected        12         12\nstatic           3          3\nbgp              1200       2500\nospf             300        450\nlocal            14         14\nTotal            1529       2979\n"
}

fn fixture_drivenets_dnos_show_system_hardware() -> &'static str {
    "Container Name: dn-ncp-0\nModel: NCP-40C\nSerial Number: WDY1957500030\nChassis MAC: e8:c5:7a:03:56:1a\nHost Name: WDY1957500030\n"
}

fn fixture_drivenets_dnos_show_system_hardware_cpu() -> &'static str {
    "CPU    Use\n 0      28\n 1      31\n 2      25\n 3      40\n 4      22\n 5      35\n 6      29\n 7      33\n 8      27\n 9      30\n 10     26\n 11     38\n 12     24\n 13     32\n 14     21\n 15     45\n"
}

fn fixture_drivenets_dnos_show_system_hardware_fan() -> &'static str {
    "Fan          Status   Speed    Max\nFAN0_RPM     OK       6300     28500\nFAN1_RPM     OK       6310     28500\nFAN2_RPM     OK       6320     28500\nFAN3_RPM     OK       6330     28500\nFAN4_RPM     OK       6340     28500\nFAN5_RPM     OK       6350     28500\nFAN6_RPM     OK       6360     28500\nFAN7_RPM     OK       6370     28500\n"
}

fn fixture_drivenets_dnos_show_system_hardware_inventory() -> &'static str {
    "Component    Model      Serial\ndn-ncc-0     NCP-40C    WDY1957500029\ndn-ncp-0     NCP-40C    WDY1957500030\n"
}

fn fixture_drivenets_dnos_show_system_hardware_power() -> &'static str {
    "PSU    Status    Type           Serial\n 0     OK        AC 110V-220V   S0A030Z851915000883\n 1     OK        AC 110V-220V   S0A030Z851915000884\n"
}

fn fixture_drivenets_dnos_show_system_hardware_temperature() -> &'static str {
    "Sensor           Temp     Status   High-Warn   High-Crit\nPSU0_TEMP        33.0     OK       65          70\nSENSOR1_TEMP     31.0     OK       65          70\nSENSOR2_TEMP     32.0     OK       65          70\nSENSOR3_TEMP     33.0     OK       65          70\nSENSOR4_TEMP     34.0     OK       65          70\nSENSOR5_TEMP     35.0     OK       65          70\nSENSOR6_TEMP     36.0     OK       65          70\nSENSOR7_TEMP     37.0     OK       65          70\nSENSOR8_TEMP     38.0     OK       65          70\nSENSOR9_TEMP     39.0     OK       65          70\nSENSOR10_TEMP    40.0     OK       65          70\nSENSOR11_TEMP    41.0     OK       65          70\nSENSOR12_TEMP    42.0     OK       65          70\nSENSOR13_TEMP    43.0     OK       65          70\nSENSOR14_TEMP    44.0     OK       65          70\nSENSOR15_TEMP    45.0     OK       65          70\nSENSOR16_TEMP    46.0     OK       65          70\nSENSOR17_TEMP    47.0     OK       65          70\nSENSOR18_TEMP    48.0     OK       65          70\nSENSOR19_TEMP    49.0     OK       65          70\n"
}

#[test]
fn cisco_ios_show_version_parses_real_output() {
    let output = fixture_cisco_ios_show_version();
    let json_str = netcli_core::parse_json("cisco_ios", "show_version", output);
    let v = parse_envelope(&json_str);
    assert_eq!(v["ok"], true);
    assert_eq!(v["platform"], "cisco_ios");
    assert_eq!(v["commandKey"], "show_version");
    assert!(v["records"].is_array());
    let records = v["records"].as_array().unwrap();
    assert!(!records.is_empty(), "expected at least one parsed record");
}

#[test]
fn juniper_junos_show_version_parses_real_output() {
    let output = fixture_juniper_junos_show_version();
    let json_str = netcli_core::parse_json("juniper_junos", "show_version", output);
    let v = parse_envelope(&json_str);
    assert_eq!(v["ok"], true);
    assert_eq!(v["platform"], "juniper_junos");
    assert_eq!(v["commandKey"], "show_version");
    let records = v["records"].as_array().unwrap();
    assert!(!records.is_empty(), "expected at least one parsed record");
}

#[test]
fn arista_eos_show_version_parses_real_output() {
    let output = fixture_arista_eos_show_version();
    let json_str = netcli_core::parse_json("arista_eos", "show_version", output);
    let v = parse_envelope(&json_str);
    assert_success(&v);
    assert_eq!(v["platform"], "arista_eos");
    let recs = records(&v);
    assert_eq!(recs.len(), 1);
    assert_eq!(recs[0]["model"], "DCS-7050TX-64");
    assert_eq!(recs[0]["serial_number"], "JPE14080459");
    assert_eq!(recs[0]["image"], "4.20.1F");
    assert_eq!(recs[0]["sys_mac"], "001c.7300.0001");
}

#[test]
fn cisco_nxos_show_version_parses_real_output() {
    let output = fixture_cisco_nxos_show_version();
    let json_str = netcli_core::parse_json("cisco_nxos", "show_version", output);
    let v = parse_envelope(&json_str);
    assert_success(&v);
    assert_eq!(v["platform"], "cisco_nxos");
    let recs = records(&v);
    assert_eq!(recs.len(), 1);
    assert_eq!(recs[0]["hostname"], "nxos-switch1");
    assert_eq!(recs[0]["platform"], "C93180YC-EX");
    assert_eq!(recs[0]["os"], "9.3(8)");
    assert_eq!(recs[0]["serial"], "FDO21120ABC");
}

#[test]
fn cisco_ios_show_version_field_values() {
    let output = fixture_cisco_ios_show_version();
    let json_str = netcli_core::parse_json("cisco_ios", "show_version", output);
    let v = parse_envelope(&json_str);
    assert_success(&v);
    let recs = records(&v);
    assert_eq!(recs.len(), 1);
    assert_eq!(recs[0]["hostname"], "Router01");
    assert_eq!(recs[0]["version"], "12.2(55)SE10");
    assert_eq!(recs[0]["software_image"], "C3750-IPSERVICESK9-M");
    assert_eq!(recs[0]["running_image"], "c3750-ipservicesk9-mz.122-55.SE10.bin");
}

#[test]
fn cisco_ios_show_interfaces_parses_multiple_records() {
    let output = fixture_cisco_ios_show_interfaces();
    let json_str = netcli_core::parse_json("cisco_ios", "show_interfaces", output);
    let v = parse_envelope(&json_str);
    assert_success(&v);
    let recs = records(&v);
    assert_eq!(recs.len(), 2, "should parse two interfaces");
    assert_eq!(recs[0]["interface"], "GigabitEthernet0/1");
    assert_eq!(recs[0]["link_status"], "up");
    assert_eq!(recs[0]["protocol_status"], "up");
    assert_eq!(recs[0]["ip_address"], "10.0.0.1");
    assert_eq!(recs[0]["description"], "Uplink to Core");
    assert_eq!(recs[0]["mac_address"], "0026.9876.1234");
    assert_eq!(recs[1]["interface"], "GigabitEthernet0/2");
    assert_eq!(recs[1]["link_status"], "administratively down");
    assert_eq!(recs[1]["protocol_status"], "down");
    assert_eq!(recs[1]["ip_address"], "192.168.1.1");
}

#[test]
fn cisco_ios_show_ip_bgp_summary_parses_multiple_neighbors() {
    let output = fixture_cisco_ios_show_ip_bgp_summary();
    let json_str = netcli_core::parse_json("cisco_ios", "show_ip_bgp_summary", output);
    let v = parse_envelope(&json_str);
    assert_success(&v);
    let recs = records(&v);
    assert!(recs.len() >= 2, "should parse at least two BGP neighbors, got {}", recs.len());
    assert_eq!(recs[0]["router_id"], "10.0.0.1");
    assert_eq!(recs[0]["local_as"], "65000");
    assert_eq!(recs[0]["bgp_neighbor"], "10.0.0.2");
    assert_eq!(recs[0]["neighbor_as"], "65001");
}

#[test]
fn cisco_nxos_show_cdp_neighbors_parses_multiple_records() {
    let output = fixture_cisco_nxos_show_cdp_neighbors();
    let json_str = netcli_core::parse_json("cisco_nxos", "show_cdp_neighbors", output);
    let v = parse_envelope(&json_str);
    assert_success(&v);
    let recs = records(&v);
    assert_eq!(recs.len(), 2, "should parse two CDP neighbors");
    assert_eq!(recs[0]["neighbor_name"], "switch2.example.com");
    assert_eq!(recs[1]["neighbor_name"], "switch3.example.com");
}

#[test]
fn unknown_platform_returns_template_not_found() {
    let json_str = netcli_core::parse_json("nonexistent_os", "show_version", "some output");
    let v = parse_envelope(&json_str);
    assert_eq!(v["ok"], false);
    assert_eq!(v["error"]["code"], "TEMPLATE_NOT_FOUND");
}

#[test]
fn unknown_command_returns_template_not_found() {
    let json_str = netcli_core::parse_json("cisco_ios", "show_magic_unicorn", "some output");
    let v = parse_envelope(&json_str);
    assert_eq!(v["ok"], false);
    assert_eq!(v["error"]["code"], "TEMPLATE_NOT_FOUND");
}

#[test]
fn golden_tests_empty_platform_returns_invalid_input() {
    let json_str = netcli_core::parse_json("", "show_version", "some output");
    let v = parse_envelope(&json_str);
    assert_eq!(v["ok"], false);
    assert_eq!(v["error"]["code"], "INVALID_INPUT");
}

#[test]
fn golden_tests_empty_command_key_returns_invalid_input() {
    let json_str = netcli_core::parse_json("cisco_ios", "", "some output");
    let v = parse_envelope(&json_str);
    assert_eq!(v["ok"], false);
    assert_eq!(v["error"]["code"], "INVALID_INPUT");
}

#[test]
fn golden_tests_empty_output_text_returns_invalid_input() {
    let json_str = netcli_core::parse_json("cisco_ios", "show_version", "");
    let v = parse_envelope(&json_str);
    assert_eq!(v["ok"], false);
    assert_eq!(v["error"]["code"], "INVALID_INPUT");
}

#[test]
fn cisco_ios_show_version_tolerates_prompt() {
    let clean = fixture_cisco_ios_show_version();
    let with_prompt = format!("router1#show version
{clean}
router1#");
    let json_str = netcli_core::parse_json("cisco_ios", "show_version", &with_prompt);
    let v = parse_envelope(&json_str);
    assert_eq!(v["ok"], true, "engine should ignore prompt lines");
    let records = v["records"].as_array().unwrap();
    assert!(!records.is_empty(), "should still parse records despite prompt");
}

#[test]
fn zte_zxros_show_version_tolerates_prompt() {
    let clean = "ZXCTN6500
ZTE ZXCTN Software, Version: V4.00.10, Release software
router2 uptime is 5 days
";
    let with_prompt = format!("router2#show version
{clean}
router2#");
    let json_str = netcli_core::parse_json("zte_zxros", "show_version", &with_prompt);
    let v = parse_envelope(&json_str);
    assert_eq!(v["ok"], true, "engine should ignore prompt lines: {v}");
    let records = v["records"].as_array().unwrap();
    assert!(!records.is_empty(), "should parse records despite prompt");
}

#[test]
fn command_api_cisco_ios_show_version() {
    let output = fixture_cisco_ios_show_version();
    let json_str = netcli_core::parse_command_json("cisco_ios", "show version", output);
    let v = parse_envelope(&json_str);
    assert_eq!(v["ok"], true);
    assert_eq!(v["platform"], "cisco_ios");
    assert_eq!(v["commandKey"], "show_version");
    let records = v["records"].as_array().unwrap();
    assert!(!records.is_empty(), "expected at least one parsed record");
}

#[test]
fn command_api_matches_key_api() {
    let output = fixture_cisco_ios_show_version();
    let by_key = netcli_core::parse_json("cisco_ios", "show_version", output);
    let by_cmd = netcli_core::parse_command_json("cisco_ios", "show version", output);
    let v_key: Value = parse_envelope(&by_key);
    let v_cmd: Value = parse_envelope(&by_cmd);
    assert_eq!(v_key["records"], v_cmd["records"], "both APIs should produce identical records");
}

#[test]
fn command_api_normalizes_mixed_case_and_extra_spaces() {
    let output = fixture_cisco_ios_show_version();
    let json_str = netcli_core::parse_command_json("cisco_ios", "  Show   Version  ", output);
    let v = parse_envelope(&json_str);
    assert_eq!(v["ok"], true, "normalization should handle mixed case and extra whitespace");
    assert_eq!(v["commandKey"], "show_version");
}

#[test]
fn command_api_empty_command_returns_invalid_input() {
    let json_str = netcli_core::parse_command_json("cisco_ios", "", "some output");
    let v = parse_envelope(&json_str);
    assert_eq!(v["ok"], false);
    assert_eq!(v["error"]["code"], "INVALID_INPUT");
}

#[test]
fn command_api_whitespace_only_command_returns_invalid_input() {
    let json_str = netcli_core::parse_command_json("cisco_ios", "   ", "some output");
    let v = parse_envelope(&json_str);
    assert_eq!(v["ok"], false);
    assert_eq!(v["error"]["code"], "INVALID_INPUT");
}

#[test]
fn command_api_with_hyphenated_command() {
    let output = fixture_arista_eos_show_version();
    let json_str = netcli_core::parse_command_json("arista_eos", "show version", output);
    let v = parse_envelope(&json_str);
    assert_success(&v);
    assert_eq!(v["commandKey"], "show_version");
}

#[test]
fn command_api_unknown_command_returns_template_not_found() {
    let json_str = netcli_core::parse_command_json("cisco_ios", "show magic unicorn", "output");
    let v = parse_envelope(&json_str);
    assert_eq!(v["ok"], false);
    assert_eq!(v["error"]["code"], "TEMPLATE_NOT_FOUND");
}

#[test]
fn parse_records_returns_ok_vec() {
    let output = fixture_cisco_ios_show_version();
    let result = netcli_core::parse_records("cisco_ios", "show_version", output);
    assert!(result.is_ok());
    let recs = result.unwrap();
    assert_eq!(recs.len(), 1);
    assert_eq!(recs[0].get("hostname").unwrap(), "Router01");
}

#[test]
fn parse_records_returns_error_for_unknown_platform() {
    let result = netcli_core::parse_records("nonexistent_os", "show_version", "some output");
    assert!(result.is_err());
    let err = result.unwrap_err();
    assert_eq!(err.code(), "TEMPLATE_NOT_FOUND");
    assert!(err.message().contains("nonexistent_os"));
}

#[test]
fn parse_records_returns_error_for_empty_platform() {
    let result = netcli_core::parse_records("", "show_version", "some output");
    assert!(result.is_err());
    let err = result.unwrap_err();
    assert_eq!(err.code(), "INVALID_INPUT");
    assert!(err.message().contains("platform"));
}

#[test]
fn parse_records_returns_error_for_empty_command_key() {
    let result = netcli_core::parse_records("cisco_ios", "", "some output");
    assert!(result.is_err());
    let err = result.unwrap_err();
    assert_eq!(err.code(), "INVALID_INPUT");
    assert!(err.message().contains("command_key"));
}

#[test]
fn parse_records_returns_error_for_empty_output() {
    let result = netcli_core::parse_records("cisco_ios", "show_version", "");
    assert!(result.is_err());
    let err = result.unwrap_err();
    assert_eq!(err.code(), "INVALID_INPUT");
    assert!(err.message().contains("output_text"));
}

#[test]
fn parse_records_multi_record() {
    let output = fixture_cisco_ios_show_interfaces();
    let recs = netcli_core::parse_records("cisco_ios", "show_interfaces", output).unwrap();
    assert_eq!(recs.len(), 2);
    assert_eq!(recs[0].get("interface").unwrap(), "GigabitEthernet0/1");
    assert_eq!(recs[1].get("interface").unwrap(), "GigabitEthernet0/2");
}

#[test]
fn parse_command_records_returns_ok_vec() {
    let output = fixture_cisco_ios_show_version();
    let result = netcli_core::parse_command_records("cisco_ios", "show version", output);
    assert!(result.is_ok());
    let recs = result.unwrap();
    assert_eq!(recs.len(), 1);
    assert_eq!(recs[0].get("hostname").unwrap(), "Router01");
}

#[test]
fn parse_command_records_normalizes_input() {
    let output = fixture_cisco_ios_show_version();
    let recs = netcli_core::parse_command_records("cisco_ios", "  Show  Version  ", output).unwrap();
    assert_eq!(recs.len(), 1);
    assert_eq!(recs[0].get("hostname").unwrap(), "Router01");
}

#[test]
fn parse_command_records_empty_command_error() {
    let result = netcli_core::parse_command_records("cisco_ios", "", "output");
    assert!(result.is_err());
    assert_eq!(result.unwrap_err().code(), "INVALID_INPUT");
}

#[test]
fn unrecognized_only_input_returns_empty_records() {
    let garbage = "this is random text
that matches nothing
in the template
";
    let json_str = netcli_core::parse_json("cisco_ios", "show_version", garbage);
    let v = parse_envelope(&json_str);
    assert_eq!(v["ok"], true, "unrecognized lines should not cause an error");
    let recs = records(&v);
    assert!(recs.is_empty(), "should return empty records for unrecognized input");
}

#[test]
fn output_with_blank_lines_only() {
    let blanks = "




";
    let json_str = netcli_core::parse_json("cisco_ios", "show_version", blanks);
    let v = parse_envelope(&json_str);
    assert_eq!(v["ok"], true);
    assert!(records(&v).is_empty());
}

#[test]
fn json_envelope_success_shape() {
    let output = fixture_cisco_ios_show_version();
    let json_str = netcli_core::parse_json("cisco_ios", "show_version", output);
    let v = parse_envelope(&json_str);
    assert!(v["ok"].is_boolean());
    assert!(v["platform"].is_string());
    assert!(v["commandKey"].is_string());
    assert!(v["records"].is_array());
    assert!(v.get("error").is_none() || v["error"].is_null());
}

#[test]
fn json_envelope_error_shape() {
    let json_str = netcli_core::parse_json("bad_os", "show_version", "text");
    let v = parse_envelope(&json_str);
    assert_eq!(v["ok"], false);
    assert!(v["error"].is_object());
    assert!(v["error"]["code"].is_string());
    assert!(v["error"]["message"].is_string());
    assert!(v.get("records").is_none() || v["records"].is_null());
}

#[test]
fn error_message_includes_context() {
    let result = netcli_core::parse_records("my_platform", "my_command", "text");
    let err = result.unwrap_err();
    let msg = err.message();
    assert!(msg.contains("my_platform"), "error message should include platform: {msg}");
    assert!(msg.contains("my_command"), "error message should include command key: {msg}");
}

#[test]
fn parse_error_code_mapping() {
    assert_eq!(ParseError::InvalidInput("x").code(), "INVALID_INPUT");
    assert_eq!(
        ParseError::TemplateNotFound { platform: "a".into(), command_key: "b".into() }.code(),
        "TEMPLATE_NOT_FOUND"
    );
    assert_eq!(ParseError::TemplateInvalid("x".into()).code(), "TEMPLATE_INVALID");
    assert_eq!(ParseError::EngineError("x".into()).code(), "PARSE_ERROR");
}

#[test]
fn parse_error_display_formatting() {
    let e1 = ParseError::InvalidInput("platform");
    assert_eq!(e1.message(), "required input is empty: platform");
    let e2 = ParseError::TemplateNotFound {
        platform: "cisco_ios".into(),
        command_key: "show_version".into(),
    };
    assert_eq!(e2.message(), "no template for (cisco_ios, show_version)");
    let e3 = ParseError::TemplateInvalid("bad regex".into());
    assert_eq!(e3.message(), "template compilation failed: bad regex");
    let e4 = ParseError::EngineError("something broke".into());
    assert_eq!(e4.message(), "parse error: something broke");
}

#[test]
fn arista_eos_show_version_tolerates_prompt() {
    let clean = fixture_arista_eos_show_version();
    let with_prompt = format!("switch1#show version
{clean}
switch1#");
    let json_str = netcli_core::parse_json("arista_eos", "show_version", &with_prompt);
    let v = parse_envelope(&json_str);
    assert_success(&v);
    let recs = records(&v);
    assert_eq!(recs.len(), 1);
    assert_eq!(recs[0]["model"], "DCS-7050TX-64");
}

#[test]
fn cisco_nxos_show_version_tolerates_prompt() {
    let clean = fixture_cisco_nxos_show_version();
    let with_prompt = format!("nxos-switch1# show version
{clean}
nxos-switch1#");
    let json_str = netcli_core::parse_json("cisco_nxos", "show_version", &with_prompt);
    let v = parse_envelope(&json_str);
    assert_success(&v);
    assert!(!records(&v).is_empty());
}

#[test]
fn parse_json_and_parse_records_agree() {
    let output = fixture_cisco_ios_show_version();
    let json_str = netcli_core::parse_json("cisco_ios", "show_version", output);
    let v = parse_envelope(&json_str);
    let json_records = records(&v);
    let direct_records = netcli_core::parse_records("cisco_ios", "show_version", output).unwrap();
    assert_eq!(json_records.len(), direct_records.len());
    for (jr, dr) in json_records.iter().zip(direct_records.iter()) {
        for f in &dr.fields {
            match &f.value {
                netcli_core::FieldVal::S(s) => {
                    assert_eq!(jr[&f.name], *s, "mismatch for key {}", f.name);
                },
                netcli_core::FieldVal::L(xs) => {
                    let arr = jr[&f.name].as_array().unwrap();
                    assert_eq!(arr.len(), xs.len(), "mismatch for key {}", f.name);
                },
            }
        }
    }
}

#[test]
fn command_and_key_apis_produce_identical_records_for_multiple_platforms() {
    let platforms_and_commands: Vec<(&str, &str, &str)> = vec![
        ("cisco_ios", "show_version", "show version"),
        ("arista_eos", "show_version", "show version"),
        ("cisco_nxos", "show_version", "show version"),
    ];
    for (platform, key, cmd) in platforms_and_commands {
        let fixture = match (platform, key) {
            ("cisco_ios", "show_version") => fixture_cisco_ios_show_version(),
            ("arista_eos", "show_version") => fixture_arista_eos_show_version(),
            ("cisco_nxos", "show_version") => fixture_cisco_nxos_show_version(),
            _ => unreachable!(),
        };
        let by_key = netcli_core::parse_records(platform, key, fixture).unwrap();
        let by_cmd = netcli_core::parse_command_records(platform, cmd, fixture).unwrap();
        assert_eq!(by_key.len(), by_cmd.len(), "record count mismatch for {platform}/{key}");
        assert_eq!(by_key, by_cmd, "records differ for {platform}/{key}");
    }
}

#[test]
fn cisco_ios_show_ip_interface_brief() {
    let output = fixture_cisco_ios_show_ip_interface_brief();
    let recs = netcli_core::parse_records("cisco_ios", "show_ip_interface_brief", output).unwrap();
    assert_eq!(recs.len(), 12);
    assert_eq!(recs[0].get("interface").unwrap(), "GigabitEthernet0/0");
    assert_eq!(recs[0].get("ip_address").unwrap(), "10.1.1.1");
    assert_eq!(recs[0].get("status").unwrap(), "up");
    assert_eq!(recs[0].get("proto").unwrap(), "up");
}

#[test]
fn cisco_iosxe_show_version() {
    let output = fixture_cisco_iosxe_show_version();
    let v = parse_envelope(&netcli_core::parse_json("cisco_iosxe", "show_version", output));
    assert_success(&v);
    let recs = records(&v);
    assert_eq!(recs.len(), 1);
    assert_eq!(recs[0]["hostname"], "my-cisco-device");
    assert_eq!(recs[0]["version"], "17.9.5a");
    assert_eq!(recs[0]["software_image"], "X86_64_LINUX_IOSD-UNIVERSALK9-M");
    assert_eq!(recs[0]["serial"], "[FLM292210DA]");
}

#[test]
fn cisco_iosxe_show_ip_interface_brief() {
    let output = fixture_cisco_iosxe_show_ip_interface_brief();
    let recs = netcli_core::parse_records("cisco_iosxe", "show_ip_interface_brief", output).unwrap();
    assert_eq!(recs.len(), 70);
    assert_eq!(recs[0].get("interface").unwrap(), "GigabitEthernet0/0/0");
    assert_eq!(recs[0].get("ip_address").unwrap(), "10.5.146.254");
    assert_eq!(recs[0].get("status").unwrap(), "up");
}

#[test]
fn cisco_iosxe_show_interfaces_status() {
    let output = fixture_cisco_iosxe_show_interfaces_status();
    let recs = netcli_core::parse_records("cisco_iosxe", "show_interfaces_status", output).unwrap();
    assert_eq!(recs.len(), 10);
    assert_eq!(recs[0].get("port").unwrap(), "Gi0/0/0");
    assert_eq!(recs[0].get("status").unwrap(), "connected");
    assert_eq!(recs[0].get("name").unwrap(), "Uplink-to-Core");
    assert_eq!(recs[0].get("speed").unwrap(), "a-1000");
}

#[test]
fn cisco_iosxe_show_interfaces_transceiver() {
    let output = fixture_cisco_iosxe_show_interfaces_transceiver();
    let recs = netcli_core::parse_records("cisco_iosxe", "show_interfaces_transceiver", output).unwrap();
    assert_eq!(recs.len(), 8);
    assert_eq!(recs[0].get("port").unwrap(), "Te0/0/0");
    assert_eq!(recs[0].get("xcvr_type").unwrap(), "SFP-10G");
    assert_eq!(recs[0].get("vendor").unwrap(), "FINISAR");
    assert_eq!(recs[0].get("tx_power").unwrap(), "-2.1");
    assert_eq!(recs[0].get("rx_power").unwrap(), "-3.4");
}

#[test]
fn cisco_iosxe_show_inventory() {
    let output = fixture_cisco_iosxe_show_inventory();
    let recs = netcli_core::parse_records("cisco_iosxe", "show_inventory", output).unwrap();
    assert_eq!(recs.len(), 11);
    assert_eq!(recs[0].get("name").unwrap(), "Chassis");
    assert_eq!(recs[0].get("pid").unwrap(), "C8300-2N2S-4T2X");
    assert_eq!(recs[0].get("sn").unwrap(), "FLM292210DA");
}

#[test]
fn cisco_iosxe_show_ip_bgp_summary() {
    let output = fixture_cisco_iosxe_show_ip_bgp_summary();
    let recs = netcli_core::parse_records("cisco_iosxe", "show_ip_bgp_summary", output).unwrap();
    assert_eq!(recs.len(), 4);
    assert_eq!(recs[0].get("router_id").unwrap(), "10.0.0.1");
    assert_eq!(recs[0].get("bgp_neighbor").unwrap(), "10.0.0.2");
    assert_eq!(recs[0].get("neighbor_as").unwrap(), "65001");
    assert_eq!(recs[0].get("state_or_prefixes_received").unwrap(), "625");
}

#[test]
fn cisco_iosxe_show_ip_route_summary() {
    let output = fixture_cisco_iosxe_show_ip_route_summary();
    let recs = netcli_core::parse_records("cisco_iosxe", "show_ip_route_summary", output).unwrap();
    assert_eq!(recs.len(), 11);
    assert_eq!(recs[0].get("route_source").unwrap(), "application");
    assert_eq!(recs[1].get("route_source").unwrap(), "connected");
    assert_eq!(recs[1].get("subnets").unwrap(), "12");
}

#[test]
fn cisco_iosxe_show_platform_format_mismatch() {
    let output = fixture_cisco_iosxe_show_platform();
    let recs = netcli_core::parse_records("cisco_iosxe", "show_platform", output).unwrap();
    assert_eq!(recs.len(), 0);
}

#[test]
fn cisco_iosxe_show_environment_sensor_rpm() {
    let output = fixture_cisco_iosxe_show_environment_sensor_rpm();
    let recs = netcli_core::parse_records("cisco_iosxe", "show_environment_sensor_rpm", output).unwrap();
    assert_eq!(recs.len(), 5);
    assert_eq!(recs[0].get("sensor_name").unwrap(), "fan0");
    assert_eq!(recs[0].get("location").unwrap(), "P0");
    assert_eq!(recs[0].get("state").unwrap(), "Normal");
    assert_eq!(recs[0].get("reading").unwrap(), "9936");
}

#[test]
fn cisco_iosxe_show_environment_sensor_temperature() {
    let output = fixture_cisco_iosxe_show_environment_sensor_temperature();
    let recs = netcli_core::parse_records("cisco_iosxe", "show_environment_sensor_temperature", output).unwrap();
    assert_eq!(recs.len(), 8);
    assert_eq!(recs[0].get("sensor_name").unwrap(), "Temp 1");
    assert_eq!(recs[0].get("location").unwrap(), "P0");
    assert_eq!(recs[0].get("reading").unwrap(), "25");
}

#[test]
fn cisco_iosxe_show_interfaces_transceiver_detail() {
    let output = fixture_cisco_iosxe_show_interfaces_transceiver_detail();
    let recs = netcli_core::parse_records("cisco_iosxe", "show_interfaces_transceiver_detail", output).unwrap();
    assert_eq!(recs.len(), 8);
    assert_eq!(recs[0].get("port").unwrap(), "Te0/0/0");
    assert_eq!(recs[0].get("temperature").unwrap(), "31.7");
    assert_eq!(recs[0].get("voltage").unwrap(), "3.29");
    assert_eq!(recs[0].get("tx_power").unwrap(), "-2.1");
    assert_eq!(recs[0].get("rx_power").unwrap(), "-3.4");
}

#[test]
fn cisco_iosxe_show_platform_resources() {
    let output = fixture_cisco_iosxe_show_platform_resources();
    let recs = netcli_core::parse_records("cisco_iosxe", "show_platform_resources", output).unwrap();
    assert_eq!(recs.len(), 18);
    assert_eq!(recs[0].get("processor").unwrap(), "RP0");
    assert_eq!(recs[0].get("resource").unwrap(), "Control Processor");
    assert_eq!(recs[0].get("usage").unwrap(), "6.60%");
    assert_eq!(recs[0].get("state").unwrap(), "H");
}

#[test]
fn cisco_iosxe_show_interface_ge_include_bia() {
    let output = fixture_cisco_iosxe_show_interface_ge_include_bia();
    let recs = netcli_core::parse_records("cisco_iosxe", "show_interface_ge_include_bia", output).unwrap();
    assert_eq!(recs.len(), 1);
    assert_eq!(recs[0].get("hardware_type").unwrap(), "4x1G-2xSFP+");
    assert_eq!(recs[0].get("mac_address").unwrap(), "1096.c62a.8db0");
    assert_eq!(recs[0].get("bia").unwrap(), "1096.c62a.8db0");
}

#[test]
fn cisco_ios_and_iosxe_alias_produce_identical_records() {
    let fixtures: Vec<(&str, &str)> = vec![
        ("show_version", fixture_cisco_ios_show_version()),
        ("show_ip_interface_brief", fixture_cisco_ios_show_ip_interface_brief()),
        ("show_ip_bgp_summary", fixture_cisco_ios_show_ip_bgp_summary()),
    ];
    for (key, output) in fixtures {
        let ios = netcli_core::parse_records("cisco_ios", key, output).unwrap();
        let iosxe = netcli_core::parse_records("cisco_iosxe", key, output).unwrap();
        assert_eq!(ios, iosxe, "cisco_ios and cisco_iosxe should produce identical records for {key}");
    }
}

#[test]
fn cisco_iosxe_command_api_show_version() {
    let output = fixture_cisco_iosxe_show_version();
    let v = parse_envelope(&netcli_core::parse_command_json("cisco_iosxe", "show version", output));
    assert_success(&v);
    assert_eq!(v["commandKey"], "show_version");
    assert_eq!(records(&v)[0]["hostname"], "my-cisco-device");
}

#[test]
fn cisco_iosxe_command_api_show_interfaces_status() {
    let output = fixture_cisco_iosxe_show_interfaces_status();
    let recs = netcli_core::parse_command_records("cisco_iosxe", "show interfaces status", output).unwrap();
    assert_eq!(recs.len(), 10);
    assert_eq!(recs[0].get("port").unwrap(), "Gi0/0/0");
}

#[test]
fn cisco_iosxe_show_line() {
    let output = fixture_cisco_iosxe_show_line();
    let recs = netcli_core::parse_records("cisco_iosxe", "show_line", output).unwrap();
    assert_eq!(recs.len(), 5);
    assert_eq!(recs[0].get("tty").unwrap(), "0");
    assert_eq!(recs[0].get("line").unwrap(), "0");
    assert_eq!(recs[0].get("type").unwrap(), "CTY");
    assert_eq!(recs[0].get("noise").unwrap(), "1");
    assert_eq!(recs[1].get("tty").unwrap(), "1");
    assert_eq!(recs[1].get("type").unwrap(), "AUX");
    assert_eq!(recs[1].get("tx_rx").unwrap(), "9600/9600");
    assert_eq!(recs[2].get("tty").unwrap(), "1/0/0");
    assert_eq!(recs[2].get("line").unwrap(), "98");
    assert_eq!(recs[2].get("type").unwrap(), "TTY");
    assert_eq!(recs[2].get("uses").unwrap(), "106");
}

#[test]
fn cisco_iosxe_show_ip_int_br() {
    let output = fixture_cisco_iosxe_show_ip_int_br();
    let recs = netcli_core::parse_records("cisco_iosxe", "show_ip_int_br", output).unwrap();
    assert_eq!(recs.len(), 3);
    assert_eq!(recs[0].get("interface").unwrap(), "GigabitEthernet0/0/0");
    assert_eq!(recs[0].get("ip_address").unwrap(), "10.5.146.254");
    assert_eq!(recs[0].get("status").unwrap(), "up");
    assert_eq!(recs[1].get("interface").unwrap(), "GigabitEthernet0/0/1");
    assert_eq!(recs[1].get("status").unwrap(), "administratively down");
}

#[test]
fn cisco_iosxe_show_ip_int_br_ex_unas() {
    let output = fixture_cisco_iosxe_show_ip_int_br_ex_unas();
    let recs = netcli_core::parse_records("cisco_iosxe", "show_ip_int_br_ex_unas", output).unwrap();
    assert_eq!(recs.len(), 1);
    assert_eq!(recs[0].get("interface").unwrap(), "GigabitEthernet0/0/0");
    assert_eq!(recs[0].get("ip_address").unwrap(), "10.5.146.254");
    assert_eq!(recs[0].get("status").unwrap(), "up");
    assert_eq!(recs[0].get("proto").unwrap(), "up");
}

#[test]
fn dnos_show_system_version() {
    let output = fixture_drivenets_dnos_show_system_version();
    let recs = netcli_core::parse_records("drivenets_dnos", "show_system_version", output).unwrap();
    assert_eq!(recs.len(), 1);
    assert_eq!(recs[0].get("system_name").unwrap(), "DN-SA-01");
    assert_eq!(recs[0].get("hardware_model").unwrap(), "NCF-400G");
    assert_eq!(recs[0].get("software_version").unwrap(), "DNOS 25.4.0");
    assert_eq!(recs[0].get("serial_number").unwrap(), "DN2024010001");
    assert_eq!(recs[0].get("system_uptime").unwrap(), "127 days, 14 hours, 33 minutes");
    assert_eq!(recs[0].get("last_reboot").unwrap(), "2024-09-05 10:22:15 UTC");
}

#[test]
fn dnos_show_system_status() {
    let output = fixture_drivenets_dnos_show_system_status();
    let recs = netcli_core::parse_records("drivenets_dnos", "show_system_status", output).unwrap();
    assert_eq!(recs.len(), 1);
    assert_eq!(recs[0].get("system_name").unwrap(), "DN-SA-01");
    assert_eq!(recs[0].get("software_version").unwrap(), "DNOS 21.3.5");
    assert_eq!(recs[0].get("overall_status").unwrap(), "Healthy");
    assert_eq!(recs[0].get("active_ncps").unwrap(), "4");
    assert_eq!(recs[0].get("cpu_control").unwrap(), "45%");
    assert_eq!(recs[0].get("memory_control").unwrap(), "62%");
}

#[test]
fn dnos_show_interfaces_brief() {
    let output = fixture_drivenets_dnos_show_interfaces_brief();
    let recs = netcli_core::parse_records("drivenets_dnos", "show_interfaces_brief", output).unwrap();
    assert_eq!(recs.len(), 28);
    assert_eq!(recs[0].get("interface").unwrap(), "bundle-12");
    assert_eq!(recs[0].get("admin").unwrap(), "enabled");
    assert_eq!(recs[0].get("link").unwrap(), "up");
    assert_eq!(recs[0].get("speed").unwrap(), "200Gbps");
    assert_eq!(recs[0].get("ipv4_address").unwrap(), "192.168.12.0/31");
}

#[test]
fn dnos_show_interfaces_detail() {
    let output = fixture_drivenets_dnos_show_interfaces_detail();
    let recs = netcli_core::parse_records("drivenets_dnos", "show_interfaces_detail", output).unwrap();
    assert_eq!(recs.len(), 52);
    assert_eq!(recs[0].get("interface").unwrap(), "bundle-12");
    assert_eq!(recs[0].get("admin_state").unwrap(), "enabled");
    assert_eq!(recs[0].get("mac_address").unwrap(), "84:40:76:d9:0e:4e");
    assert_eq!(recs[0].get("speed").unwrap(), "200Gbps");
    assert_eq!(recs[0].get("ipv4_address").unwrap(), "192.168.12.0/31");
    assert_eq!(recs[0].get("l2_mtu").unwrap(), "1514");
}

#[test]
fn dnos_show_interfaces_transceiver() {
    let output = fixture_drivenets_dnos_show_interfaces_transceiver();
    let recs = netcli_core::parse_records("drivenets_dnos", "show_interfaces_transceiver", output).unwrap();
    assert_eq!(recs.len(), 40);
    assert_eq!(recs[0].get("interface").unwrap(), "ge100-0/0/0");
    assert_eq!(recs[0].get("identifier").unwrap(), "QSFP28");
    assert_eq!(recs[0].get("vendor_name").unwrap(), "FINISAR CORP.");
    assert_eq!(recs[0].get("vendor_sn").unwrap(), "U4DADNU");
}

#[test]
fn dnos_show_config_flatten() {
    let output = fixture_drivenets_dnos_show_config_flatten();
    let recs = netcli_core::parse_records("drivenets_dnos", "show_config_flatten", output).unwrap();
    assert_eq!(recs.len(), 36);
    assert_eq!(recs[0].get("line").unwrap(), "hostname DN-SA-01");
    assert_eq!(recs[1].get("line").unwrap(), "interface Management0");
}

#[test]
fn dnos_show_lldp() {
    let output = fixture_drivenets_dnos_show_lldp();
    let recs = netcli_core::parse_records("drivenets_dnos", "show_lldp", output).unwrap();
    assert_eq!(recs.len(), 6);
    assert_eq!(recs[0].get("interface").unwrap(), "ge100-0/0/0");
    assert_eq!(recs[0].get("transmit").unwrap(), "enabled");
    assert_eq!(recs[0].get("receive").unwrap(), "enabled");
    assert_eq!(recs[0].get("keepalive").unwrap(), "30");
    assert_eq!(recs[0].get("holdtime").unwrap(), "120");
}

#[test]
fn dnos_show_lldp_counters() {
    let output = fixture_drivenets_dnos_show_lldp_counters();
    let recs = netcli_core::parse_records("drivenets_dnos", "show_lldp_counters", output).unwrap();
    assert_eq!(recs.len(), 6);
    assert_eq!(recs[0].get("interface").unwrap(), "ge100-0/0/0");
    assert_eq!(recs[0].get("pdu_rx").unwrap(), "49278");
    assert_eq!(recs[0].get("pdu_tx").unwrap(), "49278");
    assert_eq!(recs[0].get("inserted").unwrap(), "1");
}

#[test]
fn dnos_show_lldp_neighbors() {
    let output = fixture_drivenets_dnos_show_lldp_neighbors();
    let recs = netcli_core::parse_records("drivenets_dnos", "show_lldp_neighbors", output).unwrap();
    assert_eq!(recs.len(), 6);
    assert_eq!(recs[0].get("interface").unwrap(), "ge100-0/0/0");
    assert_eq!(recs[0].get("neighbor_name").unwrap(), "DN-SA-02");
    assert_eq!(recs[0].get("neighbor_interface").unwrap(), "ge100-0/0/0");
    assert_eq!(recs[0].get("neighbor_ttl").unwrap(), "120");
}

#[test]
fn dnos_show_route_summary() {
    let output = fixture_drivenets_dnos_show_route_summary();
    let recs = netcli_core::parse_records("drivenets_dnos", "show_route_summary", output).unwrap();
    assert_eq!(recs.len(), 6);
    assert_eq!(recs[0].get("route_source").unwrap(), "connected");
    assert_eq!(recs[0].get("routes").unwrap(), "12");
    assert_eq!(recs[2].get("route_source").unwrap(), "bgp");
    assert_eq!(recs[2].get("paths").unwrap(), "2500");
    assert_eq!(recs[5].get("route_source").unwrap(), "Total");
}

#[test]
fn dnos_show_system_hardware() {
    let output = fixture_drivenets_dnos_show_system_hardware();
    let recs = netcli_core::parse_records("drivenets_dnos", "show_system_hardware", output).unwrap();
    assert_eq!(recs.len(), 1);
    assert_eq!(recs[0].get("model").unwrap(), "NCP-40C");
    assert_eq!(recs[0].get("serial_number").unwrap(), "WDY1957500030");
    assert_eq!(recs[0].get("chassis_mac").unwrap(), "e8:c5:7a:03:56:1a");
    assert_eq!(recs[0].get("host_name").unwrap(), "WDY1957500030");
}

#[test]
fn dnos_show_system_hardware_cpu() {
    let output = fixture_drivenets_dnos_show_system_hardware_cpu();
    let recs = netcli_core::parse_records("drivenets_dnos", "show_system_hardware_cpu", output).unwrap();
    assert_eq!(recs.len(), 16);
    assert_eq!(recs[0].get("cpu").unwrap(), "0");
    assert_eq!(recs[0].get("use_percent").unwrap(), "28");
    assert_eq!(recs[15].get("cpu").unwrap(), "15");
    assert_eq!(recs[15].get("use_percent").unwrap(), "45");
}

#[test]
fn dnos_show_system_hardware_fan() {
    let output = fixture_drivenets_dnos_show_system_hardware_fan();
    let recs = netcli_core::parse_records("drivenets_dnos", "show_system_hardware_fan", output).unwrap();
    assert_eq!(recs.len(), 8);
    assert_eq!(recs[0].get("fan_id").unwrap(), "FAN0_RPM");
    assert_eq!(recs[0].get("status").unwrap(), "OK");
    assert_eq!(recs[0].get("speed_rpm").unwrap(), "6300");
    assert_eq!(recs[0].get("max_rpm").unwrap(), "28500");
}

#[test]
fn dnos_show_system_hardware_inventory() {
    let output = fixture_drivenets_dnos_show_system_hardware_inventory();
    let recs = netcli_core::parse_records("drivenets_dnos", "show_system_hardware_inventory", output).unwrap();
    assert_eq!(recs.len(), 2);
    assert_eq!(recs[0].get("component").unwrap(), "dn-ncc-0");
    assert_eq!(recs[0].get("model").unwrap(), "NCP-40C");
    assert_eq!(recs[1].get("component").unwrap(), "dn-ncp-0");
    assert_eq!(recs[1].get("serial_number").unwrap(), "WDY1957500030");
}

#[test]
fn dnos_show_system_hardware_power() {
    let output = fixture_drivenets_dnos_show_system_hardware_power();
    let recs = netcli_core::parse_records("drivenets_dnos", "show_system_hardware_power", output).unwrap();
    assert_eq!(recs.len(), 2);
    assert_eq!(recs[0].get("psu_id").unwrap(), "0");
    assert_eq!(recs[0].get("status").unwrap(), "OK");
    assert_eq!(recs[0].get("type").unwrap(), "AC 110V-220V");
    assert_eq!(recs[0].get("serial").unwrap(), "S0A030Z851915000883");
}

#[test]
fn dnos_show_system_hardware_temperature() {
    let output = fixture_drivenets_dnos_show_system_hardware_temperature();
    let recs = netcli_core::parse_records("drivenets_dnos", "show_system_hardware_temperature", output).unwrap();
    assert_eq!(recs.len(), 20);
    assert_eq!(recs[0].get("sensor_name").unwrap(), "PSU0_TEMP");
    assert_eq!(recs[0].get("temperature").unwrap(), "33.0");
    assert_eq!(recs[0].get("status").unwrap(), "OK");
    assert_eq!(recs[0].get("high_warning").unwrap(), "65");
    assert_eq!(recs[0].get("high_critical").unwrap(), "70");
}

#[test]
fn dnos_command_api_show_system_version() {
    let output = fixture_drivenets_dnos_show_system_version();
    let v = parse_envelope(&netcli_core::parse_command_json("drivenets_dnos", "show system version", output));
    assert_success(&v);
    assert_eq!(v["commandKey"], "show_system_version");
    assert_eq!(records(&v)[0]["system_name"], "DN-SA-01");
}

#[test]
fn command_api_hyphenated_running_config_interface() {
    let output = fixture_cisco_ios_show_version();
    let v = parse_envelope(&netcli_core::parse_json(
        "cisco_ios",
        "show_running_config_interface",
        output,
    ));
    assert_eq!(v["ok"], true, "show_running_config_interface should be found in registry");
}

#[test]
fn command_api_pipe_config_flatten_dnos() {
    let output = fixture_drivenets_dnos_show_config_flatten();
    let v = parse_envelope(&netcli_core::parse_command_json(
        "drivenets_dnos",
        "show config | flatten",
        output,
    ));
    assert_success(&v);
    assert_eq!(v["commandKey"], "show_config_flatten");
}

#[test]
fn command_api_abbreviated_show_version() {
    let output = fixture_cisco_ios_show_version();
    let v = parse_envelope(&netcli_core::parse_command_json("cisco_ios", "sho version", output));
    assert_success(&v);
    let v2 = parse_envelope(&netcli_core::parse_command_json("cisco_ios", "sh ver", output));
    assert_success(&v2);
}

#[test]
fn command_api_abbreviated_show_ip_int_brief() {
    let output = fixture_cisco_ios_show_ip_interface_brief();
    let v = parse_envelope(&netcli_core::parse_command_json("cisco_ios", "sho ip int br", output));
    assert_success(&v);
    assert!(!records(&v).is_empty(), "abbreviated 'sho ip int br' should parse via expansion");
}

#[test]
fn command_api_mac_address_table_with_hyphens() {
    let output = "some dummy text
";
    let v = parse_envelope(&netcli_core::parse_command_json(
        "cisco_ios",
        "show mac address-table",
        output,
    ));
    assert_eq!(v["ok"], true, "show_mac_address_table should resolve via hyphen normalization");
}

#[test]
fn command_api_spanning_tree_with_hyphens() {
    let output = "some dummy text
";
    let v = parse_envelope(&netcli_core::parse_command_json(
        "cisco_ios",
        "show spanning-tree",
        output,
    ));
    assert_eq!(v["ok"], true, "show_spanning_tree should resolve via hyphen normalization");
}

#[test]
fn nokia_sros_alias_resolves_to_alcatel() {
    let result = netcli_core::parse_records("nokia_sros", "show_system_cpu", "dummy
");
    assert!(result.is_ok() || {
        let e = result.unwrap_err();
        e.code() != "TEMPLATE_NOT_FOUND"
    }, "nokia_sros should alias to alcatel_sros and find show_system_cpu");
}

#[test]
fn nokia_sros_alias_lookup_works() {
    let v = parse_envelope(&netcli_core::parse_json("nokia_sros", "show_port", "dummy
"));
    assert_eq!(v["ok"], true, "nokia_sros should alias to alcatel_sros");
}

#[test]
fn cisco_iosxr_alias_resolves_to_xr() {
    let v = parse_envelope(&netcli_core::parse_json("cisco_iosxr", "show_version", "dummy
"));
    assert_eq!(v["ok"], true, "cisco_iosxr should alias to cisco_xr");
}

#[test]
fn cisco_iosxr_alias_show_ip_bgp_summary() {
    let v = parse_envelope(&netcli_core::parse_json(
        "cisco_iosxr",
        "show_ip_bgp_summary",
        "dummy
",
    ));
    assert_eq!(v["ok"], true, "cisco_iosxr should resolve show_ip_bgp_summary via cisco_xr");
}

#[test]
fn cisco_ios_show_interface_singular_alias() {
    let output = fixture_cisco_ios_show_interfaces();
    let v = parse_envelope(&netcli_core::parse_json("cisco_ios", "show_interface", output));
    assert_success(&v);
    assert!(!records(&v).is_empty(), "show_interface (singular) should alias to show_interfaces");
}

#[test]
fn dnos_show_interface_brief_singular_alias() {
    let output = fixture_drivenets_dnos_show_interfaces_brief();
    let v = parse_envelope(&netcli_core::parse_json(
        "drivenets_dnos",
        "show_interface_brief",
        output,
    ));
    assert_success(&v);
    assert!(
        !records(&v).is_empty(),
        "show_interface_brief (singular) should alias to show_interfaces_brief"
    );
}

#[test]
fn cisco_ios_expanded_abbreviated_command_entry() {
    let output = fixture_cisco_ios_show_ip_interface_brief();
    let v = parse_envelope(&netcli_core::parse_json(
        "cisco_ios",
        "show_ip_interface_brief_exclude_unassigned",
        output,
    ));
    assert_success(&v);
}

#[test]
fn new_cisco_ios_templates_compile() {
    let keys = [
        "show_environment",
        "show_environment_all",
        "show_memory_statistics",
        "show_ip_protocols",
        "show_diag",
        "show_spanning_tree_summary",
        "show_aaa_sessions",
        "show_privilege",
        "show_crypto_key_mypubkey_rsa",
        "show_ntp_status",
        "show_terminal",
        "show_license_udi",
    ];
    for key in keys {
        let v = parse_envelope(&netcli_core::parse_json("cisco_ios", key, "dummy line
"));
        assert_eq!(v["ok"], true, "cisco_ios template for {key} should compile and return ok");
    }
}

#[test]
fn new_cisco_xr_templates_compile() {
    let keys = [
        "show_controllers_optics",
        "show_interface_accounting",
        "show_controllers_fec",
        "show_running_config_interface",
    ];
    for key in keys {
        let v = parse_envelope(&netcli_core::parse_json("cisco_xr", key, "dummy line
"));
        assert_eq!(v["ok"], true, "cisco_xr template for {key} should compile and return ok");
    }
}

#[test]
fn new_cisco_xr_via_iosxr_alias_templates_compile() {
    let keys = [
        "show_controllers_optics",
        "show_interface_accounting",
        "show_controllers_fec",
        "show_running_config_interface",
    ];
    for key in keys {
        let v = parse_envelope(&netcli_core::parse_json("cisco_iosxr", key, "dummy line
"));
        assert_eq!(
            v["ok"], true,
            "cisco_iosxr (alias) template for {key} should compile and return ok"
        );
    }
}

#[test]
fn new_dnos_templates_compile() {
    let keys = [
        "show_version",
        "show_system_hardware_psu",
        "show_interface",
        "show_interface_fec",
        "show_interface_transceiver",
        "show_interface_counters",
        "show_interface_fec_counters",
        "show_lldp_neighbor_detail",
        "show_bfd_session",
    ];
    for key in keys {
        let v = parse_envelope(&netcli_core::parse_json("drivenets_dnos", key, "dummy line
"));
        assert_eq!(
            v["ok"], true,
            "drivenets_dnos template for {key} should compile and return ok"
        );
    }
}

#[test]
fn new_nokia_templates_compile() {
    let keys = [
        "show_version",
        "show_system_information",
        "show_system_location",
        "show_chassis",
        "show_chassis_detail",
        "show_bof",
        "show_mda",
        "show_port_optical",
        "show_port_statistics",
        "show_port_ethernet_fec",
        "show_router_bgp_summary",
        "show_system_lldp_neighbor",
        "show_router_bfd_session_detail",
        "show_service",
        "show_snmp_location",
        "admin_display_config",
    ];
    for key in keys {
        let v = parse_envelope(&netcli_core::parse_json("alcatel_sros", key, "dummy line
"));
        assert_eq!(
            v["ok"], true,
            "alcatel_sros template for {key} should compile and return ok"
        );
    }
}

#[test]
fn new_nokia_via_alias_templates_compile() {
    let keys = [
        "show_version",
        "show_system_information",
        "show_chassis",
        "show_router_bgp_summary",
        "show_service",
    ];
    for key in keys {
        let v = parse_envelope(&netcli_core::parse_json("nokia_sros", key, "dummy line
"));
        assert_eq!(
            v["ok"], true,
            "nokia_sros (alias) template for {key} should compile and return ok"
        );
    }
}

#[test]
fn new_junos_templates_compile() {
    let keys = [
        "show_system_information",
        "show_system_location",
        "show_system_contact_information",
        "show_system_alarms",
        "show_interfaces_terse",
        "show_chassis_environment",
    ];
    for key in keys {
        let v = parse_envelope(&netcli_core::parse_json("juniper_junos", key, "dummy line
"));
        assert_eq!(
            v["ok"], true,
            "juniper_junos template for {key} should compile and return ok"
        );
    }
}

#[test]
fn new_arista_eos_templates_resolve() {
    let keys = [
        "show_system_environment_all",
        "show_system_environment_cooling",
        "show_system_environment_temperature",
        "show_system_environment_power",
    ];
    for key in keys {
        let v = parse_envelope(&netcli_core::parse_json("arista_eos", key, "dummy line
"));
        let err_code = v["error"]["code"].as_str().unwrap_or("");
        assert_ne!(
            err_code, "TEMPLATE_NOT_FOUND",
            "arista_eos should have a template for {key}"
        );
        assert_ne!(
            err_code, "TEMPLATE_INVALID",
            "arista_eos template for {key} should compile"
        );
    }
}

#[test]
fn command_api_nokia_show_system_cpu() {
    let v = parse_envelope(&netcli_core::parse_command_json(
        "nokia_sros",
        "show system cpu",
        "dummy line
",
    ));
    assert_eq!(v["ok"], true, "nokia_sros 'show system cpu' should resolve");
}

#[test]
fn command_api_nokia_show_router_interface() {
    let v = parse_envelope(&netcli_core::parse_command_json(
        "nokia_sros",
        "show router interface",
        "dummy line
",
    ));
    assert_eq!(v["ok"], true, "nokia_sros 'show router interface' should resolve");
}

#[test]
fn command_api_cisco_xr_show_version() {
    let v = parse_envelope(&netcli_core::parse_command_json(
        "cisco_iosxr",
        "show version",
        "dummy line
",
    ));
    assert_eq!(v["ok"], true, "cisco_iosxr 'show version' should resolve via alias");
}

#[test]
fn command_api_junos_show_chassis_hardware() {
    let v = parse_envelope(&netcli_core::parse_command_json(
        "juniper_junos",
        "show chassis hardware",
        "dummy line
",
    ));
    assert_eq!(v["ok"], true, "juniper_junos 'show chassis hardware' should resolve");
}

#[test]
fn command_api_arista_show_system_environment_temperature() {
    let v = parse_envelope(&netcli_core::parse_command_json(
        "arista_eos",
        "show system environment temperature",
        "dummy line
",
    ));
    let err_code = v["error"]["code"].as_str().unwrap_or("");
    assert_ne!(
        err_code, "TEMPLATE_NOT_FOUND",
        "arista_eos 'show system environment temperature' should resolve"
    );
}

#[test]
fn command_api_dnos_show_interfaces_brief() {
    let output = fixture_drivenets_dnos_show_interfaces_brief();
    let v = parse_envelope(&netcli_core::parse_command_json(
        "drivenets_dnos",
        "show interfaces brief",
        output,
    ));
    assert_success(&v);
    assert!(!records(&v).is_empty());
}

#[test]
fn command_api_dnos_show_interface_brief_singular() {
    let output = fixture_drivenets_dnos_show_interfaces_brief();
    let v = parse_envelope(&netcli_core::parse_command_json(
        "drivenets_dnos",
        "show interface brief",
        output,
    ));
    assert_success(&v);
    assert!(
        !records(&v).is_empty(),
        "singular 'show interface brief' should work via alias"
    );
}
