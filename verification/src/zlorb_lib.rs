//! Shared pieces of the zlorb tools: repository configuration, errors and the
//! locations of the configuration files under the user's home directory.
pub mod config;
pub mod error;

use vstd::prelude::*;
use crate::path::{file_name_of, join, joined, last_segment, lemma_last_segment_after_slash};

verus! {

/// The directory that holds zlorb's configuration: `~/.config/zlorb`.
pub open spec fn config_dir_of(home: Seq<char>) -> Seq<char> {
    joined(home, ".config/zlorb"@)
}

/// The repositories file: `~/.config/zlorb/repositories.toml`.
pub open spec fn repo_config_file_of(home: Seq<char>) -> Seq<char> {
    joined(config_dir_of(home), "repositories.toml"@)
}

/// For a home directory written without a trailing `/`, the repositories file is
/// `<home>/.config/zlorb/repositories.toml`, and its directory `<home>/.config/zlorb`.
pub proof fn law_repo_config_file_under_home(home: Seq<char>)
    requires
        home.len() > 0,
        home.last() != '/',
    ensures
        config_dir_of(home) == home + "/.config/zlorb"@,
        repo_config_file_of(home) == home + "/.config/zlorb/repositories.toml"@,
{
    reveal_strlit(".config/zlorb");
    reveal_strlit("repositories.toml");
    reveal_strlit("/.config/zlorb");
    reveal_strlit("/.config/zlorb/repositories.toml");
    assert(config_dir_of(home) =~= home + "/.config/zlorb"@);
    assert(repo_config_file_of(home) =~= home + "/.config/zlorb/repositories.toml"@);
}

/// Whatever the home directory, the repositories file is the file `repositories.toml`
/// directly inside the configuration directory: its name is `repositories.toml` and it is
/// the configuration directory followed by `/repositories.toml`.
pub proof fn law_repo_config_file_name_and_parent(home: Seq<char>)
    ensures
        repo_config_file_of(home) == config_dir_of(home) + "/repositories.toml"@,
        file_name_of(repo_config_file_of(home)) == Some("repositories.toml"@),
{
    reveal_strlit(".config/zlorb");
    reveal_strlit("repositories.toml");
    reveal_strlit("/repositories.toml");
    reveal_strlit(".");
    reveal_strlit("..");
    let dir = config_dir_of(home);
    let name = "repositories.toml"@;
    assert(dir.len() > 0 && dir.last() == 'b');
    assert(repo_config_file_of(home) =~= dir.push('/') + name);
    assert(repo_config_file_of(home) =~= dir + "/repositories.toml"@);
    assert forall|i: int| 0 <= i < name.len() implies name[i] != '/' by {}
    lemma_last_segment_after_slash(dir, name);
    let f = repo_config_file_of(home);
    assert(f.last() == 'l');
    assert(last_segment(f) == name);
    assert(name.len() != "."@.len());
    assert(name.len() != ".."@.len());
}

/// The configuration directory for the given home directory.
pub fn get_zlorb_config_dir(home: &str) -> (r: String)
    ensures
        r@ == config_dir_of(home@),
{
    join(home, ".config/zlorb")
}

/// Gets the toml file for zlorb repo configurations for the given home directory.
/// File: `~/.config/zlorb/repositories.toml`
pub fn get_zlorb_repo_config_file(home: &str) -> (r: String)
    ensures
        r@ == repo_config_file_of(home@),
{
    let dir = get_zlorb_config_dir(home);
    join(dir.as_str(), "repositories.toml")
}

} // verus!
