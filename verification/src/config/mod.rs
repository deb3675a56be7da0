//! Config: order/comment/unknown-key-preserving INI handling for `.wslconfig`
//! and `wsl.conf`, and the known-key schemas.
//!
//! `.wslconfig` lives on the Windows side (`%USERPROFILE%\.wslconfig`);
//! `wsl.conf` lives inside a distro (`/etc/wsl.conf`). Reading and writing the
//! files happens in the application shell.
pub mod ini;
pub mod laws;

pub use ini::IniDoc;

use vstd::prelude::*;

verus! {

/// Which configuration file is being edited.
#[derive(Debug, PartialEq, Eq)]
pub enum ConfigTarget {
    /// The global Windows `%USERPROFILE%\.wslconfig`.
    WslConfig,
    /// A distro's `/etc/wsl.conf`.
    WslConf(String),
}

impl Clone for ConfigTarget {
    fn clone(&self) -> (r: Self)
        ensures
            r == *self,
    {
        match self {
            ConfigTarget::WslConfig => ConfigTarget::WslConfig,
            ConfigTarget::WslConf(d) => ConfigTarget::WslConf(d.clone()),
        }
    }
}

/// The title label of a target.
pub open spec fn target_label(t: ConfigTarget) -> Seq<char> {
    match t {
        ConfigTarget::WslConfig => ".wslconfig (global)"@,
        ConfigTarget::WslConf(d) => "wsl.conf ("@ + d@ + ")"@,
    }
}

impl ConfigTarget {
    /// A short human label for titles.
    pub fn label(&self) -> (r: String)
        ensures
            r@ == target_label(*self),
    {
        match self {
            ConfigTarget::WslConfig => String::from_str(".wslconfig (global)"),
            ConfigTarget::WslConf(distro) => {
                let mut s = String::from_str("wsl.conf (");
                s.append(distro.as_str());
                s.append(")");
                s
            },
        }
    }
}

/// A known configuration key, used to build form fields.
#[derive(Debug, Clone, Copy, PartialEq, Eq)]
pub struct ConfigKey {
    /// INI section name.
    pub section: &'static str,
    /// Key name.
    pub key: &'static str,
    /// Short hint about accepted values.
    pub hint: &'static str,
}

/// Known keys for `.wslconfig` (`[wsl2]`).
pub open spec fn wslconfig_keys() -> Seq<ConfigKey> {
    seq![
        ConfigKey { section: "wsl2", key: "memory", hint: "e.g. 8GB" },
        ConfigKey { section: "wsl2", key: "processors", hint: "integer" },
        ConfigKey { section: "wsl2", key: "swap", hint: "e.g. 0 or 8GB" },
        ConfigKey { section: "wsl2", key: "swapFile", hint: "path" },
        ConfigKey { section: "wsl2", key: "localhostForwarding", hint: "true/false" },
        ConfigKey { section: "wsl2", key: "networkingMode", hint: "NAT/mirrored" },
        ConfigKey { section: "wsl2", key: "nestedVirtualization", hint: "true/false" },
    ]
}

/// Known keys for `wsl.conf`.
pub open spec fn wslconf_keys() -> Seq<ConfigKey> {
    seq![
        ConfigKey { section: "boot", key: "systemd", hint: "true/false" },
        ConfigKey { section: "boot", key: "command", hint: "shell command" },
        ConfigKey { section: "automount", key: "enabled", hint: "true/false" },
        ConfigKey { section: "automount", key: "root", hint: "e.g. /mnt/" },
        ConfigKey { section: "automount", key: "options", hint: "mount options" },
        ConfigKey { section: "network", key: "generateHosts", hint: "true/false" },
        ConfigKey { section: "network", key: "generateResolvConf", hint: "true/false" },
        ConfigKey { section: "network", key: "hostname", hint: "hostname" },
        ConfigKey { section: "interop", key: "enabled", hint: "true/false" },
        ConfigKey { section: "interop", key: "appendWindowsPath", hint: "true/false" },
        ConfigKey { section: "user", key: "default", hint: "username" },
    ]
}

/// The known-key schema of a target.
pub open spec fn schema_spec(t: ConfigTarget) -> Seq<ConfigKey> {
    match t {
        ConfigTarget::WslConfig => wslconfig_keys(),
        ConfigTarget::WslConf(_) => wslconf_keys(),
    }
}

/// The known-key schema for a target.
pub fn schema(target: &ConfigTarget) -> (r: Vec<ConfigKey>)
    ensures
        r@ == schema_spec(*target),
{
    match target {
        ConfigTarget::WslConfig => {
            let v = vec![
                ConfigKey { section: "wsl2", key: "memory", hint: "e.g. 8GB" },
                ConfigKey { section: "wsl2", key: "processors", hint: "integer" },
                ConfigKey { section: "wsl2", key: "swap", hint: "e.g. 0 or 8GB" },
                ConfigKey { section: "wsl2", key: "swapFile", hint: "path" },
                ConfigKey { section: "wsl2", key: "localhostForwarding", hint: "true/false" },
                ConfigKey { section: "wsl2", key: "networkingMode", hint: "NAT/mirrored" },
                ConfigKey { section: "wsl2", key: "nestedVirtualization", hint: "true/false" },
            ];
            assert(v@ =~= wslconfig_keys());
            v
        },
        ConfigTarget::WslConf(_) => {
            let v = vec![
                ConfigKey { section: "boot", key: "systemd", hint: "true/false" },
                ConfigKey { section: "boot", key: "command", hint: "shell command" },
                ConfigKey { section: "automount", key: "enabled", hint: "true/false" },
                ConfigKey { section: "automount", key: "root", hint: "e.g. /mnt/" },
                ConfigKey { section: "automount", key: "options", hint: "mount options" },
                ConfigKey { section: "network", key: "generateHosts", hint: "true/false" },
                ConfigKey { section: "network", key: "generateResolvConf", hint: "true/false" },
                ConfigKey { section: "network", key: "hostname", hint: "hostname" },
                ConfigKey { section: "interop", key: "enabled", hint: "true/false" },
                ConfigKey { section: "interop", key: "appendWindowsPath", hint: "true/false" },
                ConfigKey { section: "user", key: "default", hint: "username" },
            ];
            assert(v@ =~= wslconf_keys());
            v
        },
    }
}

} // verus!
