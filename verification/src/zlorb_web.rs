//! The web page that lists the tracked repositories.
use vstd::prelude::*;
use vstd::string::*;
use crate::zlorb_lib::config::{paths_of, texts, RepositoriesConfigurationFile};

verus! {

/// What the index page shows: its title and the tracked paths, if there are any.
pub struct Index {
    pub title: String,
    pub repos: Option<Vec<String>>,
}

impl Index {
    /// The page titled "Zlorb", with nothing listed.
    pub fn new() -> (r: Self)
        ensures
            r.title@ == "Zlorb"@,
            r.repos is None,
    {
        Index { title: String::from_str("Zlorb"), repos: None }
    }

    /// The page for a configuration: its paths in order, or nothing when it tracks none.
    pub fn for_configuration(config: &RepositoriesConfigurationFile) -> (r: Self)
        ensures
            r.title@ == "Zlorb"@,
            config@.len() == 0 ==> r.repos is None,
            config@.len() > 0 ==> (r.repos matches Some(v) && texts(v@) == paths_of(config@)),
    {
        let mut index = Index::new();
        let mapped_repos = config.tracked_paths();
        assert(texts(mapped_repos@).len() == mapped_repos@.len());
        index.repos = if mapped_repos.len() < 1 { None } else { Some(mapped_repos) };
        index
    }
}

} // verus!
