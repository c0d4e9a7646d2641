//! Where the zlorbrs service finds its configuration files.
use vstd::prelude::*;
use vstd::string::*;
use crate::path::{join, joined};
use crate::zlorbrs_lib::error::ZlorbError;

verus! {

/// Knows the home directory under which the configuration lives.
pub struct ConfigManager {
    home_dir: String,
}

impl ConfigManager {
    /// The home directory.
    pub closed spec fn home(&self) -> Seq<char> {
        self.home_dir@
    }

    /// A manager for the given home directory.
    pub fn new(home_dir: String) -> (r: Self)
        ensures
            r.home() == home_dir@,
    {
        ConfigManager { home_dir }
    }

    /// Where `initialize_default_config` writes the default settings: the home directory
    /// joined with the absolute `/.config/zlorbrs/service-config.json`, which replaces it.
    pub fn default_config_path(&self) -> (r: String)
        ensures
            r@ == joined(self.home(), "/.config/zlorbrs/service-config.json"@),
    {
        join(self.home_dir.as_str(), "/.config/zlorbrs/service-config.json")
    }

    /// The directory that `initialize_repo_configs` creates and lists: the home directory
    /// joined with the absolute `/.config/zlorbrs/configs`.
    pub fn repo_configs_init_path(&self) -> (r: String)
        ensures
            r@ == joined(self.home(), "/.config/zlorbrs/configs"@),
    {
        join(self.home_dir.as_str(), "/.config/zlorbrs/configs")
    }

    /// Where `load_service_config` reads the settings from: `~/.config/zlorbrs/service-config.json`.
    pub fn service_config_path(&self) -> (r: String)
        ensures
            r@ == joined(self.home(), ".config/zlorbrs/service-config.json"@),
    {
        join(self.home_dir.as_str(), ".config/zlorbrs/service-config.json")
    }

    /// The directory of the per-repository configurations under `home`.
    pub fn configs_dir_path(home: &str) -> (r: String)
        ensures
            r@ == joined(home@, ".config/zlorbrs/configs"@),
    {
        join(home, ".config/zlorbrs/configs")
    }

    /// The configuration file inside one entry of the configurations directory.
    pub fn entry_config_path(entry: &str) -> (r: String)
        ensures
            r@ == joined(entry@, "config.json"@),
    {
        join(entry, "config.json")
    }

    /// Where `load_repo_config` reads the configuration of `name` from.
    pub fn repo_config_path(&self, name: &str) -> (r: String)
        ensures
            r@ == joined(self.home(), ".config/zlorbrs/configs/"@ + name@ + "/config.json"@),
    {
        let rel = String::from_str(".config/zlorbrs/configs/").concat(name).concat("/config.json");
        join(self.home_dir.as_str(), rel.as_str())
    }

    /// The error when the settings file does not parse.
    pub fn parse_failure() -> (r: ZlorbError)
        ensures
            r matches ZlorbError::ConfigParseError(m) && m@ == "Failed to convert config file to json string"@,
    {
        ZlorbError::ConfigParseError(String::from_str("Failed to convert config file to json string"))
    }
}

} // verus!
