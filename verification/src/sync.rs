//! The outside work of one update of a tracked repository, and what the caller hands back.
//!
//! An update alternates git, file-system and process work with decisions. The decisions
//! are made by the `update_step` functions of the services; each returns the next piece
//! of work as an [`UpdateAction`], and the caller performs it and answers with the
//! matching [`UpdateEvent`].
use vstd::prelude::*;

verus! {

/// The outcome of `bun run build`.
pub struct BuildStatus {
    /// The exit code, if the process exited with one.
    pub code: Option<i32>,
    /// Whether the process exited successfully.
    pub success: bool,
    /// What the process wrote on standard error.
    pub stderr: Vec<u8>,
}

/// How running `cargo build` on its own thread can fail.
pub enum CargoFailure {
    /// The process could not be run.
    Spawn(std::io::Error),
    /// The thread could not be joined.
    Join,
}

/// The fetched commit (`FETCH_HEAD`) and the results of its merge analysis against `HEAD`.
pub struct FetchAnalysis {
    pub up_to_date: bool,
    pub fast_forward: bool,
    /// The id of the fetched commit, as its raw bytes.
    pub commit: Vec<u8>,
}

/// The next piece of outside work.
pub enum UpdateAction {
    /// Find the local branch and give its target commit id.
    ResolveLocalBranch { branch: String },
    /// Find the remote and fetch the branch from it; only a failure to find the remote counts.
    FetchRemote { remote: String, branch: String },
    /// Look up `FETCH_HEAD`, take it as an annotated commit, analyse the merge and give its id.
    AnalyzeFetchHead,
    /// Point `reference` at the commit `target` (log message "Fast-Forward") and make it `HEAD`.
    FastForward { reference: String, target: Vec<u8> },
    /// Check out `HEAD`, then resolve `short_name` and give its target commit id.
    CheckoutAndResolve { short_name: String },
    /// Ask whether the build output directory `path` exists (this can fail).
    CheckDistDir { path: String },
    /// Ask whether the configured output directory `path` exists.
    CheckOutDir { path: String },
    /// Read the `USER` environment variable.
    ReadUser,
    /// Ask whether the bun executable at `path` exists (this can fail).
    CheckBunBinary { path: String },
    /// Canonicalize `path`.
    Canonicalize { path: String },
    /// Ask whether the directory `path` exists.
    CheckDirExists { path: String },
    /// Run `bun install` in `dir` with the executable `bun`.
    BunInstall { bun: String, dir: String },
    /// Run `bun run build` in `dir` with the executable `bun`.
    BunBuild { bun: String, dir: String },
    /// Run `cargo build` in `dir` on a thread of its own and wait for it.
    CargoBuild { dir: String },
    /// Change into `dir` and run `command` as a program, on a thread of its own, and wait for it.
    RunBuildCommand { dir: String, command: String },
}

/// What the outside work answered.
pub enum UpdateEvent {
    LocalBranch(Result<Option<Vec<u8>>, git2::Error>),
    Fetched(Result<(), git2::Error>),
    Analysis(Result<FetchAnalysis, git2::Error>),
    FastForwarded(Result<(), git2::Error>),
    Resolved(Result<Vec<u8>, git2::Error>),
    DistDir(Result<bool, std::io::Error>),
    OutDir(bool),
    User(Option<String>),
    BunBinary(Result<bool, std::io::Error>),
    Canonical(Option<String>),
    DirExists(bool),
    Installed(Result<Vec<u8>, std::io::Error>),
    Built(Result<BuildStatus, std::io::Error>),
    CargoBuilt(Result<(), CargoFailure>),
    BuildCommandRan,
}

/// Where an update goes next: more outside work, or its result.
pub enum Step<E> {
    Next(UpdateAction),
    Done(Result<(), E>),
}

} // verus!
