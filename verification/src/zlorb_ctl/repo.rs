//! Adding and removing tracked repositories.
use vstd::prelude::*;
use vstd::string::*;
use crate::path::{file_name, file_name_of, opt_text};
use crate::zlorb_lib::config::{has_repo_named, repo_views, RepositoriesConfigurationFile, RepositoryConfiguration, RepositoryView};
use crate::zlorb_lib::error::ZlorbError;

verus! {

/// Keeps the repositories not named `name`.
pub open spec fn keeps(name: Seq<char>) -> spec_fn(RepositoryView) -> bool {
    |r: RepositoryView| r.name != name
}

/// The repository that `add` records for a directory: remote `origin`, branch `master`,
/// no build command and no output directory.
pub open spec fn new_repo_view(name: Seq<char>, path: Seq<char>) -> RepositoryView {
    RepositoryView {
        name,
        path,
        remote: "origin"@,
        branch: "master"@,
        build_command: Seq::empty(),
        out_dir: None,
    }
}

/// The message of the error that refuses to add a name twice.
pub open spec fn already_tracked_text(name: Seq<char>) -> Seq<char> {
    name + " is already in the configuration"@
}

/// The message of the error that refuses to remove an untracked name.
pub open spec fn not_tracked_text(name: Seq<char>) -> Seq<char> {
    "repo '"@ + name + "' not found in tracked repos"@
}

fn find_named(repo_name: &String, config: &RepositoriesConfigurationFile) -> (r: bool)
    ensures
        r == has_repo_named(config@, repo_name@),
{
    let mut i: usize = 0;
    while i < config.repositories.len()
        invariant
            i <= config.repositories@.len(),
            forall|k: int| 0 <= k < i ==> config@[k].name != repo_name@,
        decreases config.repositories@.len() - i,
    {
        if config.repositories[i].name == *repo_name {
            assert(config@[i as int].name == repo_name@);
            return true;
        }
        i = i + 1;
    }
    false
}

/// Refuses a name that the configuration already tracks.
pub fn throw_if_repo_exists(repo_name: &String, config: &RepositoriesConfigurationFile) -> (r: Result<(), ZlorbError>)
    ensures
        match r {
            Ok(()) => !has_repo_named(config@, repo_name@),
            Err(ZlorbError::Other(m)) => has_repo_named(config@, repo_name@) && m@ == already_tracked_text(repo_name@),
            Err(_) => false,
        },
{
    if find_named(repo_name, config) {
        let m = repo_name.clone().concat(" is already in the configuration");
        return Err(ZlorbError::Other(m));
    }
    Ok(())
}

/// Refuses a name that the configuration does not track.
pub fn throw_if_repo_not_found(repo_name: &String, config: &RepositoriesConfigurationFile) -> (r: Result<(), ZlorbError>)
    ensures
        match r {
            Ok(()) => has_repo_named(config@, repo_name@),
            Err(ZlorbError::Other(m)) => !has_repo_named(config@, repo_name@) && m@ == not_tracked_text(repo_name@),
            Err(_) => false,
        },
{
    if !find_named(repo_name, config) {
        let m = String::from_str("repo '").concat(repo_name.as_str()).concat("' not found in tracked repos");
        return Err(ZlorbError::Other(m));
    }
    Ok(())
}

/// Filtering a sequence extended by one element.
pub proof fn lemma_filter_push<A>(s: Seq<A>, pred: spec_fn(A) -> bool, x: A)
    ensures
        s.push(x).filter(pred) == if pred(x) { s.filter(pred).push(x) } else { s.filter(pred) },
{
    reveal(Seq::filter);
    assert(s.push(x).drop_last() =~= s);
}

/// Filtering keeps a sequence whose elements all pass.
pub proof fn lemma_filter_all<A>(s: Seq<A>, pred: spec_fn(A) -> bool)
    requires
        forall|i: int| 0 <= i < s.len() ==> pred(#[trigger] s[i]),
    ensures
        s.filter(pred) == s,
    decreases s.len(),
{
    reveal(Seq::filter);
    if s.len() > 0 {
        lemma_filter_all(s.drop_last(), pred);
        assert(s.drop_last().push(s.last()) =~= s);
    } else {
        assert(s.filter(pred) =~= s);
    }
}

/// Removes every repository named `repo_name`; refuses a name that is not tracked.
pub fn remove(config: RepositoriesConfigurationFile, repo_name: &String) -> (r: Result<RepositoriesConfigurationFile, ZlorbError>)
    ensures
        match r {
            Ok(c) => has_repo_named(config@, repo_name@) && c@ == config@.filter(keeps(repo_name@)),
            Err(ZlorbError::Other(m)) => !has_repo_named(config@, repo_name@) && m@ == not_tracked_text(repo_name@),
            Err(_) => false,
        },
{
    match throw_if_repo_not_found(repo_name, &config) {
        Ok(()) => {},
        Err(e) => return Err(e),
    }
    let ghost orig = config@;
    let ghost n0 = config.repositories@.len();
    let mut rest = config.repositories;
    let mut kept: Vec<RepositoryConfiguration> = Vec::new();
    assert(orig.subrange(0, 0).filter(keeps(repo_name@)) =~= Seq::<RepositoryView>::empty()) by {
        reveal(Seq::filter);
    }
    while rest.len() > 0
        invariant
            n0 == orig.len(),
            rest@.len() <= n0,
            forall|i: int| 0 <= i < rest@.len() ==> #[trigger] rest@[i]@ == orig[n0 - rest@.len() + i],
            repo_views(kept@)
                == orig.subrange(0, n0 - rest@.len()).filter(keeps(repo_name@)),
        decreases rest@.len(),
    {
        let ghost k = n0 - rest@.len();
        let ghost before = kept@;
        let ghost rest_before = rest@;
        let item = rest.remove(0);
        assert(item@ == orig[k]);
        proof {
            lemma_filter_push(orig.subrange(0, k), keeps(repo_name@), orig[k]);
            assert(orig.subrange(0, k + 1) =~= orig.subrange(0, k).push(orig[k]));
        }
        if item.name != *repo_name {
            kept.push(item);
            assert(repo_views(kept@)
                =~= repo_views(before).push(orig[k]));
        }
        assert forall|i: int| 0 <= i < rest@.len() implies #[trigger] rest@[i]@ == orig[n0 - rest@.len() + i] by {
            assert(rest@[i] == rest_before[i + 1]);
        }
    }
    assert(orig.subrange(0, n0 as int) =~= orig);
    Ok(RepositoriesConfigurationFile { repositories: kept })
}

/// Records `path` under `repo_name`; refuses a name that is already tracked.
pub fn add_repository(config: RepositoriesConfigurationFile, repo_name: String, path: String) -> (r: Result<RepositoriesConfigurationFile, ZlorbError>)
    ensures
        match r {
            Ok(c) => !has_repo_named(config@, repo_name@) && c@ == config@.push(new_repo_view(repo_name@, path@)),
            Err(ZlorbError::Other(m)) => has_repo_named(config@, repo_name@) && m@ == already_tracked_text(repo_name@),
            Err(_) => false,
        },
{
    match throw_if_repo_exists(&repo_name, &config) {
        Ok(()) => {},
        Err(e) => return Err(e),
    }
    let new_repo = RepositoryConfiguration {
        name: repo_name,
        path: path,
        remote: String::from_str("origin"),
        branch: String::from_str("master"),
        build_command: String::new(),
        out_dir: None,
    };
    let mut config = config;
    let ghost before = config.repositories@;
    config.repositories.push(new_repo);
    assert(config@ =~= repo_views(before).push(new_repo@));
    Ok(config)
}

/// The name a directory is tracked under: its last path component, if it has one.
pub fn repo_name_of_dir(cwd: &str) -> (r: Option<String>)
    ensures
        opt_text(r) == file_name_of(cwd@),
{
    file_name(cwd)
}

/// Adds the directory `cwd` as a tracked repository named after its last component.
/// `None` when `cwd` has no last component to name it by.
pub fn add(config: RepositoriesConfigurationFile, cwd: &str) -> (r: Option<Result<RepositoriesConfigurationFile, ZlorbError>>)
    ensures
        match file_name_of(cwd@) {
            None => r is None,
            Some(name) => match r {
                Some(Ok(c)) => !has_repo_named(config@, name) && c@ == config@.push(new_repo_view(name, cwd@)),
                Some(Err(ZlorbError::Other(m))) => has_repo_named(config@, name) && m@ == already_tracked_text(name),
                _ => false,
            },
        },
{
    match repo_name_of_dir(cwd) {
        None => None,
        Some(repo_name) => Some(add_repository(config, repo_name, String::from_str(cwd))),
    }
}

/// Adding a name and then removing it gives back the configuration it was added to;
/// after the removal the name is no longer tracked.
pub proof fn law_add_then_remove_restores(config: Seq<RepositoryView>, name: Seq<char>, path: Seq<char>)
    requires
        !has_repo_named(config, name),
    ensures
        has_repo_named(config.push(new_repo_view(name, path)), name),
        config.push(new_repo_view(name, path)).filter(keeps(name)) == config,
        !has_repo_named(config.push(new_repo_view(name, path)).filter(keeps(name)), name),
{
    let added = config.push(new_repo_view(name, path));
    assert(added[config.len() as int].name == name);
    lemma_filter_push(config, keeps(name), new_repo_view(name, path));
    assert forall|i: int| 0 <= i < config.len() implies keeps(name)(#[trigger] config[i]) by {
        if config[i].name == name {
            assert(has_repo_named(config, name));
        }
    }
    lemma_filter_all(config, keeps(name));
}

/// Once a name is removed, no repository of that name is left, so a second removal is refused.
pub proof fn law_removed_name_is_gone(config: Seq<RepositoryView>, name: Seq<char>)
    ensures
        !has_repo_named(config.filter(keeps(name)), name),
{
    let f = config.filter(keeps(name));
    if has_repo_named(f, name) {
        let i = choose|i: int| 0 <= i < f.len() && #[trigger] f[i].name == name;
        config.lemma_filter_pred(keeps(name), i);
        assert(keeps(name)(f[i]));
    }
}

} // verus!
