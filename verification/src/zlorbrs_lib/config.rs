//! The configuration of one repository, kept in a file of its own.
use vstd::prelude::*;
use vstd::string::*;

verus! {

/// One tracked repository.
pub struct RepoConfig {
    /// Repo identifier.
    pub name: String,
    /// Absolute path to the repo.
    pub path: String,
    /// E.g. main.
    pub branch: String,
    /// E.g. origin.
    pub remote: String,
    /// E.g. npm run build.
    pub build_command: String,
}

/// `<home>/.config/zlorbrs/configs/<name>`, written out as text.
pub open spec fn repo_dir_of(home: Seq<char>, name: Seq<char>) -> Seq<char> {
    home + "/.config/zlorbrs/configs/"@ + name
}

impl RepoConfig {
    /// The configuration for the repository `repo_name` checked out at `cwd` on `branch`;
    /// it assumes the remote `origin` and a bun build script.
    pub fn new(repo_name: String, cwd: String, branch: String) -> (r: Self)
        ensures
            r.name@ == repo_name@,
            r.path@ == cwd@,
            r.branch@ == branch@,
            r.remote@ == "origin"@,
            r.build_command@ == "bun run build"@,
    {
        RepoConfig {
            name: repo_name,
            path: cwd,
            branch,
            remote: String::from_str("origin"),
            build_command: String::from_str("bun run build"),
        }
    }

    /// Where `load` reads the configuration of `repo_name` from.
    pub fn load_path(home: &str, repo_name: &str) -> (r: String)
        ensures
            r@ == repo_dir_of(home@, repo_name@),
    {
        String::from_str(home).concat("/.config/zlorbrs/configs/").concat(repo_name)
    }

    /// The directory that `save` creates for this repository.
    pub fn config_dir(&self, home: &str) -> (r: String)
        ensures
            r@ == repo_dir_of(home@, self.name@),
    {
        Self::load_path(home, self.name.as_str())
    }

    /// The file that `save` writes this configuration to.
    pub fn config_file(&self, home: &str) -> (r: String)
        ensures
            r@ == repo_dir_of(home@, self.name@) + "/config.json"@,
    {
        self.config_dir(home).concat("/config.json")
    }
}

} // verus!
