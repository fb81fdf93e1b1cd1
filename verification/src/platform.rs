//! The closed set of platforms with first-class identifiers, their
//! canonical slugs, and parsing of user-supplied spellings.

use vstd::prelude::*;
use vstd::string::StringExecFns;
use crate::text::map_key;
use crate::text::map_key_str;
use crate::text::str_eq;

verus! {

#[derive(Debug, Clone, Copy, PartialEq, Eq, Hash, Structural)]
pub enum Platform {
    CiscoIos,
    CiscoNxos,
    CiscoIosXr,
    JuniperJunos,
    AristaEos,
    DriveNetsDnos,
}

/// The canonical slug of each platform.
pub open spec fn platform_slug_spec(p: Platform) -> Seq<char> {
    match p {
        Platform::CiscoIos => "cisco_ios"@,
        Platform::CiscoNxos => "cisco_nxos"@,
        Platform::CiscoIosXr => "cisco_iosxr"@,
        Platform::JuniperJunos => "juniper_junos"@,
        Platform::AristaEos => "arista_eos"@,
        Platform::DriveNetsDnos => "drivenets_dnos"@,
    }
}

/// Which platform a lowercased, hyphen-normalized spelling names, if any.
pub open spec fn platform_of_key(k: Seq<char>) -> Option<Platform> {
    if k == "cisco_ios"@ || k == "ios"@ {
        Some(Platform::CiscoIos)
    } else if k == "cisco_nxos"@ || k == "nxos"@ || k == "nx_os"@ {
        Some(Platform::CiscoNxos)
    } else if k == "cisco_iosxr"@ || k == "iosxr"@ || k == "ios_xr"@ {
        Some(Platform::CiscoIosXr)
    } else if k == "juniper_junos"@ || k == "junos"@ {
        Some(Platform::JuniperJunos)
    } else if k == "arista_eos"@ || k == "eos"@ {
        Some(Platform::AristaEos)
    } else if k == "drivenets_dnos"@ || k == "dnos"@ || k == "drivenets"@ {
        Some(Platform::DriveNetsDnos)
    } else {
        None
    }
}

/// What parsing a raw spelling yields: the spelling is lowercased and
/// hyphens become underscores before the table above is consulted.
pub open spec fn platform_from_spec(s: Seq<char>) -> Option<Platform> {
    platform_of_key(map_key(s, false))
}

impl Platform {
    /// The canonical identifier, e.g. `cisco_ios`.
    pub fn slug(self) -> (r: &'static str)
        ensures
            r@ == platform_slug_spec(self),
    {
        match self {
            Platform::CiscoIos => "cisco_ios",
            Platform::CiscoNxos => "cisco_nxos",
            Platform::CiscoIosXr => "cisco_iosxr",
            Platform::JuniperJunos => "juniper_junos",
            Platform::AristaEos => "arista_eos",
            Platform::DriveNetsDnos => "drivenets_dnos",
        }
    }

    /// Parses a spelling such as `cisco_ios`, `IOS` or `nx-os`.
    pub fn from_slug(s: &str) -> (r: Option<Platform>)
        ensures
            r == platform_from_spec(s@),
    {
        let k = map_key_str(s, false);
        let key = k.as_str();
        if str_eq(key, "cisco_ios") || str_eq(key, "ios") {
            Some(Platform::CiscoIos)
        } else if str_eq(key, "cisco_nxos") || str_eq(key, "nxos") || str_eq(key, "nx_os") {
            Some(Platform::CiscoNxos)
        } else if str_eq(key, "cisco_iosxr") || str_eq(key, "iosxr") || str_eq(key, "ios_xr") {
            Some(Platform::CiscoIosXr)
        } else if str_eq(key, "juniper_junos") || str_eq(key, "junos") {
            Some(Platform::JuniperJunos)
        } else if str_eq(key, "arista_eos") || str_eq(key, "eos") {
            Some(Platform::AristaEos)
        } else if str_eq(key, "drivenets_dnos") || str_eq(key, "dnos") || str_eq(key, "drivenets") {
            Some(Platform::DriveNetsDnos)
        } else {
            None
        }
    }
}

impl core::str::FromStr for Platform {
    type Err = String;

    fn from_str(s: &str) -> Result<Platform, String> {
        match Platform::from_slug(s) {
            Some(p) => Ok(p),
            None => {
                let mut msg = String::new();
                msg.append("unknown platform: ");
                msg.append(s);
                Err(msg)
            },
        }
    }
}

} // verus!
