//! Where the service finds its configuration files.
use vstd::prelude::*;
use crate::path::{join, joined};

verus! {

/// Knows the home directory under which the configuration lives.
pub struct ConfigManager {
    home_dir: String,
}

impl ConfigManager {
    /// The home directory.
    pub closed spec fn home(&self) -> Seq<char> {
        self.home_dir@
    }

    /// A manager for the given home directory.
    pub fn new(home_dir: String) -> (r: Self)
        ensures
            r.home() == home_dir@,
    {
        ConfigManager { home_dir }
    }

    /// `~/.config/zlorb/service-config.json`.
    pub fn service_config_path(&self) -> (r: String)
        ensures
            r@ == joined(self.home(), ".config/zlorb/service-config.json"@),
    {
        join(self.home_dir.as_str(), ".config/zlorb/service-config.json")
    }

    /// `~/.config/zlorb/configs/<name>/config.json`, each part joined as a path
    /// (so an absolute `name` replaces what comes before it).
    pub fn repo_config_path(&self, name: &str) -> (r: String)
        ensures
            r@ == joined(joined(joined(self.home(), ".config/zlorb/configs"@), name@), "config.json"@),
    {
        let dir = join(self.home_dir.as_str(), ".config/zlorb/configs");
        let named = join(dir.as_str(), name);
        join(named.as_str(), "config.json")
    }
}

} // verus!
