//! The closed set of command keys with first-class identifiers, their
//! canonical slugs, and parsing of user-supplied spellings.

use vstd::prelude::*;
use vstd::string::StringExecFns;
use crate::text::map_key;
use crate::text::map_key_str;
use crate::text::str_eq;

verus! {

#[derive(Debug, Clone, Copy, PartialEq, Eq, Hash, Structural)]
pub enum CommandKey {
    ShowVersion,
    ShowInterfacesBrief,
    ShowInventory,
    ShowBgpSummary,
    ShowIpRoute,
    ShowLldpNeighbors,
}

/// The canonical slug of each command key.
pub open spec fn command_slug_spec(k: CommandKey) -> Seq<char> {
    match k {
        CommandKey::ShowVersion => "show_version"@,
        CommandKey::ShowInterfacesBrief => "show_interfaces_brief"@,
        CommandKey::ShowInventory => "show_inventory"@,
        CommandKey::ShowBgpSummary => "show_bgp_summary"@,
        CommandKey::ShowIpRoute => "show_ip_route"@,
        CommandKey::ShowLldpNeighbors => "show_lldp_neighbors"@,
    }
}

/// Which command key a lowercased spelling (spaces and hyphens turned
/// into underscores) names, if any.
pub open spec fn command_of_key(k: Seq<char>) -> Option<CommandKey> {
    if k == "show_version"@ {
        Some(CommandKey::ShowVersion)
    } else if k == "show_interfaces_brief"@ || k == "show_int_brief"@ {
        Some(CommandKey::ShowInterfacesBrief)
    } else if k == "show_inventory"@ {
        Some(CommandKey::ShowInventory)
    } else if k == "show_bgp_summary"@ {
        Some(CommandKey::ShowBgpSummary)
    } else if k == "show_ip_route"@ {
        Some(CommandKey::ShowIpRoute)
    } else if k == "show_lldp_neighbors"@ {
        Some(CommandKey::ShowLldpNeighbors)
    } else {
        None
    }
}

/// What parsing a raw spelling yields.
pub open spec fn command_from_spec(s: Seq<char>) -> Option<CommandKey> {
    command_of_key(map_key(s, true))
}

impl CommandKey {
    /// The canonical identifier, e.g. `show_version`.
    pub fn slug(self) -> (r: &'static str)
        ensures
            r@ == command_slug_spec(self),
    {
        match self {
            CommandKey::ShowVersion => "show_version",
            CommandKey::ShowInterfacesBrief => "show_interfaces_brief",
            CommandKey::ShowInventory => "show_inventory",
            CommandKey::ShowBgpSummary => "show_bgp_summary",
            CommandKey::ShowIpRoute => "show_ip_route",
            CommandKey::ShowLldpNeighbors => "show_lldp_neighbors",
        }
    }

    /// Parses a spelling such as `show_version` or `Show Version`.
    pub fn from_slug(s: &str) -> (r: Option<CommandKey>)
        ensures
            r == command_from_spec(s@),
    {
        let k = map_key_str(s, true);
        let key = k.as_str();
        if str_eq(key, "show_version") {
            Some(CommandKey::ShowVersion)
        } else if str_eq(key, "show_interfaces_brief") || str_eq(key, "show_int_brief") {
            Some(CommandKey::ShowInterfacesBrief)
        } else if str_eq(key, "show_inventory") {
            Some(CommandKey::ShowInventory)
        } else if str_eq(key, "show_bgp_summary") {
            Some(CommandKey::ShowBgpSummary)
        } else if str_eq(key, "show_ip_route") {
            Some(CommandKey::ShowIpRoute)
        } else if str_eq(key, "show_lldp_neighbors") {
            Some(CommandKey::ShowLldpNeighbors)
        } else {
            None
        }
    }
}

impl core::str::FromStr for CommandKey {
    type Err = String;

    fn from_str(s: &str) -> Result<CommandKey, String> {
        match CommandKey::from_slug(s) {
            Some(k) => Ok(k),
            None => {
                let mut msg = String::new();
                msg.append("unknown command key: ");
                msg.append(s);
                Err(msg)
            },
        }
    }
}

} // verus!
