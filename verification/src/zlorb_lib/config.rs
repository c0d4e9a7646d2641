//! The repositories that zlorb tracks, as its configuration file lists them.
use vstd::prelude::*;

verus! {

/// One tracked repository.
pub struct RepositoryConfiguration {
    pub name: String,
    pub path: String,
    pub remote: String,
    pub branch: String,
    pub build_command: String,
    /// Build output directory, relative to the repository or absolute; when it is set and
    /// missing, a build is due.
    pub out_dir: Option<String>,
}

/// A tracked repository as text.
pub struct RepositoryView {
    pub name: Seq<char>,
    pub path: Seq<char>,
    pub remote: Seq<char>,
    pub branch: Seq<char>,
    pub build_command: Seq<char>,
    pub out_dir: Option<Seq<char>>,
}

impl View for RepositoryConfiguration {
    type V = RepositoryView;

    open spec fn view(&self) -> RepositoryView {
        RepositoryView {
            name: self.name@,
            path: self.path@,
            remote: self.remote@,
            branch: self.branch@,
            build_command: self.build_command@,
            out_dir: match self.out_dir {
                Some(d) => Some(d@),
                None => None,
            },
        }
    }
}

/// The whole configuration file: its repositories, in file order.
pub struct RepositoriesConfigurationFile {
    pub repositories: Vec<RepositoryConfiguration>,
}

impl View for RepositoriesConfigurationFile {
    type V = Seq<RepositoryView>;

    open spec fn view(&self) -> Seq<RepositoryView> {
        repo_views(self.repositories@)
    }
}

/// The views of a list of repositories.
pub open spec fn repo_views(v: Seq<RepositoryConfiguration>) -> Seq<RepositoryView> {
    v.map_values(|r: RepositoryConfiguration| r@)
}

/// Some repository in `repos` is named `name`.
pub open spec fn has_repo_named(repos: Seq<RepositoryView>, name: Seq<char>) -> bool {
    exists|i: int| 0 <= i < repos.len() && #[trigger] repos[i].name == name
}

/// The paths of `repos`, in order.
pub open spec fn paths_of(repos: Seq<RepositoryView>) -> Seq<Seq<char>> {
    repos.map_values(|r: RepositoryView| r.path)
}

/// The views of a list of strings.
pub open spec fn texts(v: Seq<String>) -> Seq<Seq<char>> {
    v.map_values(|s: String| s@)
}

impl RepositoriesConfigurationFile {
    /// The configuration with no repositories, which stands in for a file that does not parse.
    pub fn empty() -> (r: Self)
        ensures
            r@ == Seq::<RepositoryView>::empty(),
    {
        let r = RepositoriesConfigurationFile { repositories: Vec::new() };
        assert(r@ =~= Seq::<RepositoryView>::empty());
        r
    }

    /// The paths of the tracked repositories, in file order.
    pub fn tracked_paths(&self) -> (r: Vec<String>)
        ensures
            texts(r@) == paths_of(self@),
    {
        let mut out: Vec<String> = Vec::new();
        let mut i: usize = 0;
        while i < self.repositories.len()
            invariant
                i <= self.repositories@.len(),
                texts(out@) =~= paths_of(self@).subrange(0, i as int),
            decreases self.repositories@.len() - i,
        {
            let ghost before = out@;
            let p = self.repositories[i].path.clone();
            out.push(p);
            proof {
                assert(out@ == before.push(p));
                assert(self@[i as int] == self.repositories@[i as int]@);
                assert(texts(out@) =~= texts(before).push(p@));
                assert(paths_of(self@).subrange(0, i + 1) =~= paths_of(self@).subrange(0, i as int).push(self@[i as int].path));
            }
            i = i + 1;
        }
        assert(paths_of(self@).subrange(0, i as int) =~= paths_of(self@));
        out
    }
}

} // verus!
