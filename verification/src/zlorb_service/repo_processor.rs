//! One tracked repository and its update cycle: fetch, fast-forward only, and build when
//! there are changes or the build output is missing.
use vstd::prelude::*;
use vstd::string::*;
use crate::outside::{git_error, git_error_text, GitClass, GitCode};
use crate::path::{is_absolute, join, joined, path_is_absolute};
use crate::sync::{BuildStatus, CargoFailure, FetchAnalysis, Step, UpdateAction, UpdateEvent};
use crate::text::{bytes_equal, contains_text, copy_bytes, displays, int_text, utf8_lossy_text};
use crate::zlorb_lib::config::{RepositoryConfiguration, RepositoryView};
use crate::zlorb_lib::error::ZlorbError;
use crate::zlorb_service::build_system_executor::{
    bun_missing_text, bun_path_of, build_failed, build_failed_text, cargo_join_text, dir_missing_text,
    install_failed_text, invalid_build_text, strategy_of, BuildStrategy, BuildSystemExecutor, BunManager,
};

verus! {

/// A tracked repository, opened.
pub struct RepoProcessor {
    pub repo_path: String,
    pub repo: git2::Repository,
    pub config: RepositoryConfiguration,
}

/// Which answer an update waits for.
#[derive(Clone, Copy, Debug, PartialEq, Eq, Structural)]
pub enum UpdatePhase {
    LocalBranch,
    Fetch,
    Analysis,
    FastForward,
    Resolve,
    DistDir,
    OutDir,
    User,
    BunBinary,
    Canonical,
    DirExists,
    Install,
    Build,
    Cargo,
    Finished,
}

/// The state of one update of a repository.
pub struct UpdateCycle {
    pub phase: UpdatePhase,
    /// The commit the local branch pointed at before the fetch.
    pub local_oid: Vec<u8>,
    /// The commit the remote branch points at after the fetch.
    pub remote_oid: Vec<u8>,
    /// The fetch brought changes, or the build output is missing.
    pub has_updates: bool,
    /// The configured output directory is missing.
    pub out_dir_missing: bool,
    pub user: String,
    pub bun: String,
    pub dir: String,
}

/// An update's state as plain values.
pub struct UpdateCycleView {
    pub phase: UpdatePhase,
    pub local_oid: Seq<u8>,
    pub remote_oid: Seq<u8>,
    pub has_updates: bool,
    pub out_dir_missing: bool,
    pub user: Seq<char>,
    pub bun: Seq<char>,
    pub dir: Seq<char>,
}

impl View for UpdateCycle {
    type V = UpdateCycleView;

    open spec fn view(&self) -> UpdateCycleView {
        UpdateCycleView {
            phase: self.phase,
            local_oid: self.local_oid@,
            remote_oid: self.remote_oid@,
            has_updates: self.has_updates,
            out_dir_missing: self.out_dir_missing,
            user: self.user@,
            bun: self.bun@,
            dir: self.dir@,
        }
    }
}

/// The event is the answer that `phase` waits for.
pub open spec fn answers(phase: UpdatePhase, event: UpdateEvent) -> bool {
    match phase {
        UpdatePhase::LocalBranch => event is LocalBranch,
        UpdatePhase::Fetch => event is Fetched,
        UpdatePhase::Analysis => event is Analysis,
        UpdatePhase::FastForward => event is FastForwarded,
        UpdatePhase::Resolve => event is Resolved,
        UpdatePhase::DistDir => event is DistDir,
        UpdatePhase::OutDir => event is OutDir,
        UpdatePhase::User => event is User,
        UpdatePhase::BunBinary => event is BunBinary,
        UpdatePhase::Canonical => event is Canonical,
        UpdatePhase::DirExists => event is DirExists,
        UpdatePhase::Install => event is Installed,
        UpdatePhase::Build => event is Built,
        UpdatePhase::Cargo => event is CargoBuilt,
        UpdatePhase::Finished => false,
    }
}

/// `s` with another phase.
pub open spec fn with_phase(s: UpdateCycleView, phase: UpdatePhase) -> UpdateCycleView {
    UpdateCycleView { phase, ..s }
}

/// The output directory to look for: an absolute one as it is, a relative one under the repository.
pub open spec fn out_dir_path_of(repo_path: Seq<char>, out_dir: Seq<char>) -> Seq<char> {
    if is_absolute(out_dir) { out_dir } else { joined(repo_path, out_dir) }
}

/// `r` ends the update with an `Other` error carrying `text`.
pub open spec fn ends_other(r: Step<ZlorbError>, text: Seq<char>) -> bool {
    r matches Step::Done(Err(ZlorbError::Other(m))) && m@ == text
}

/// The update is finished with `r`, the state otherwise unchanged.
pub open spec fn finish(old: UpdateCycleView, new: UpdateCycleView, r: Step<ZlorbError>) -> bool {
    new == with_phase(old, UpdatePhase::Finished) && r is Done
}

/// Deciding whether to build, once the update knows whether there are changes (`s.has_updates`)
/// and whether the output directory is missing (`s.out_dir_missing`): no build when neither holds;
/// else the first work of the strategy that the build command calls for.
pub open spec fn build_decision(c: RepositoryView, s: UpdateCycleView, new: UpdateCycleView, r: Step<ZlorbError>) -> bool {
    if s.has_updates || s.out_dir_missing {
        match strategy_of(c.build_command) {
            BuildStrategy::Bun(_) => new == with_phase(s, UpdatePhase::User) && (r matches Step::Next(UpdateAction::ReadUser)),
            BuildStrategy::Rust(_) => new == with_phase(s, UpdatePhase::Cargo)
                && (r matches Step::Next(UpdateAction::CargoBuild { dir }) && dir@ == c.path),
            BuildStrategy::Unknown => new == with_phase(s, UpdatePhase::Finished)
                && (r matches Step::Done(Err(ZlorbError::InvalidConfig(m))) && m@ == invalid_build_text(c.build_command, c.name)),
        }
    } else {
        new == with_phase(s, UpdatePhase::Finished) && (r matches Step::Done(Ok(())))
    }
}

/// After the fetch: with an output directory configured, ask whether it exists; else decide.
pub open spec fn after_fetch(repo_path: Seq<char>, c: RepositoryView, s: UpdateCycleView, new: UpdateCycleView, r: Step<ZlorbError>) -> bool {
    match c.out_dir {
        Some(d) => new == with_phase(s, UpdatePhase::OutDir)
            && (r matches Step::Next(UpdateAction::CheckOutDir { path }) && path@ == out_dir_path_of(repo_path, d)),
        None => build_decision(c, UpdateCycleView { out_dir_missing: false, ..s }, new, r),
    }
}

/// One step of an update of the repository at `repo_path` configured as `c`: from the state
/// `old` and the answer `event` to the state `new` and the next work or the result `r`.
pub open spec fn update_step_spec(
    repo_path: Seq<char>,
    c: RepositoryView,
    old: UpdateCycleView,
    event: UpdateEvent,
    new: UpdateCycleView,
    r: Step<ZlorbError>,
) -> bool {
    match event {
        UpdateEvent::LocalBranch(Err(e)) => finish(old, new, r) && (r matches Step::Done(Err(ZlorbError::Other(m))) && displays(&e, m@)),
        UpdateEvent::LocalBranch(Ok(None)) => finish(old, new, r) && (r matches Step::Done(Err(ZlorbError::Git(g)))
            && displays(&g, git_error_text(GitCode::NotFound, GitClass::NoClass, "Failed to get Oid from branch"@))),
        UpdateEvent::LocalBranch(Ok(Some(oid))) => new == (UpdateCycleView { phase: UpdatePhase::Fetch, local_oid: oid@, ..old })
            && (r matches Step::Next(UpdateAction::FetchRemote { remote, branch }) && remote@ == "origin"@ && branch@ == c.branch),
        UpdateEvent::Fetched(Err(e)) => finish(old, new, r) && r == Step::<ZlorbError>::Done(Err(ZlorbError::Git(e))),
        UpdateEvent::Fetched(Ok(())) => new == with_phase(old, UpdatePhase::Analysis) && (r matches Step::Next(UpdateAction::AnalyzeFetchHead)),
        UpdateEvent::Analysis(Err(e)) => finish(old, new, r) && r == Step::<ZlorbError>::Done(Err(ZlorbError::Git(e))),
        UpdateEvent::Analysis(Ok(f)) => if f.up_to_date {
            new == (UpdateCycleView { phase: UpdatePhase::DistDir, has_updates: false, remote_oid: old.local_oid, ..old })
                && (r matches Step::Next(UpdateAction::CheckDistDir { path }) && path@ == joined(c.path, "dist"@))
        } else if !f.fast_forward {
            finish(old, new, r) && (r matches Step::Done(Err(ZlorbError::Git(g)))
                && displays(&g, git_error_text(GitCode::NotFastForward, GitClass::Invalid, "Fast-forward only!"@)))
        } else {
            new == with_phase(old, UpdatePhase::FastForward)
                && (r matches Step::Next(UpdateAction::FastForward { reference, target }) && reference@ == "refs/heads/"@ + c.branch
                    && target@ == f.commit@)
        },
        UpdateEvent::FastForwarded(Err(e)) => finish(old, new, r) && r == Step::<ZlorbError>::Done(Err(ZlorbError::Git(e))),
        UpdateEvent::FastForwarded(Ok(())) => new == with_phase(old, UpdatePhase::Resolve)
            && (r matches Step::Next(UpdateAction::CheckoutAndResolve { short_name }) && short_name@ == "origin/"@ + c.branch),
        UpdateEvent::Resolved(Err(e)) => finish(old, new, r) && r == Step::<ZlorbError>::Done(Err(ZlorbError::Git(e))),
        UpdateEvent::Resolved(Ok(oid)) => new == (UpdateCycleView { phase: UpdatePhase::DistDir, remote_oid: oid@, ..old })
            && (r matches Step::Next(UpdateAction::CheckDistDir { path }) && path@ == joined(c.path, "dist"@)),
        UpdateEvent::DistDir(Err(e)) => finish(old, new, r) && r == Step::<ZlorbError>::Done(Err(ZlorbError::Io(e))),
        UpdateEvent::DistDir(Ok(present)) => after_fetch(
            repo_path,
            c,
            UpdateCycleView { has_updates: !present || old.local_oid != old.remote_oid, ..old },
            new,
            r,
        ),
        UpdateEvent::OutDir(present) => build_decision(c, UpdateCycleView { out_dir_missing: !present, ..old }, new, r),
        UpdateEvent::User(u) => {
            let user = match u {
                Some(s) => s@,
                None => "unknown"@,
            };
            new == (UpdateCycleView { phase: UpdatePhase::BunBinary, user, bun: bun_path_of(user), ..old })
                && (r matches Step::Next(UpdateAction::CheckBunBinary { path }) && path@ == bun_path_of(user))
        },
        UpdateEvent::BunBinary(Err(e)) => finish(old, new, r) && r == Step::<ZlorbError>::Done(Err(ZlorbError::Io(e))),
        UpdateEvent::BunBinary(Ok(false)) => finish(old, new, r) && ends_other(r, bun_missing_text(old.user)),
        UpdateEvent::BunBinary(Ok(true)) => new == with_phase(old, UpdatePhase::Canonical)
            && (r matches Step::Next(UpdateAction::Canonicalize { path }) && path@ == c.path),
        UpdateEvent::Canonical(o) => {
            let dir = match o {
                Some(s) => s@,
                None => c.path,
            };
            new == (UpdateCycleView { phase: UpdatePhase::DirExists, dir, ..old })
                && (r matches Step::Next(UpdateAction::CheckDirExists { path }) && path@ == dir)
        },
        UpdateEvent::DirExists(false) => finish(old, new, r) && ends_other(r, dir_missing_text(old.dir)),
        UpdateEvent::DirExists(true) => new == with_phase(old, UpdatePhase::Install)
            && (r matches Step::Next(UpdateAction::BunInstall { bun, dir }) && bun@ == old.bun && dir@ == old.dir),
        UpdateEvent::Installed(Err(e)) => finish(old, new, r) && r == Step::<ZlorbError>::Done(Err(ZlorbError::Io(e))),
        UpdateEvent::Installed(Ok(stderr)) => if stderr@.len() > 0 {
            finish(old, new, r) && ends_other(r, install_failed_text(stderr@))
        } else {
            new == with_phase(old, UpdatePhase::Build)
                && (r matches Step::Next(UpdateAction::BunBuild { bun, dir }) && bun@ == old.bun && dir@ == c.path)
        },
        UpdateEvent::Built(Err(e)) => finish(old, new, r) && r == Step::<ZlorbError>::Done(Err(ZlorbError::Io(e))),
        UpdateEvent::Built(Ok(status)) => finish(old, new, r) && if build_failed(status.code, status.success) {
            ends_other(r, build_failed_text(status.code, status.stderr@))
        } else {
            r matches Step::Done(Ok(()))
        },
        UpdateEvent::CargoBuilt(Ok(())) => finish(old, new, r) && (r matches Step::Done(Ok(()))),
        UpdateEvent::CargoBuilt(Err(CargoFailure::Spawn(e))) => finish(old, new, r) && r == Step::<ZlorbError>::Done(Err(ZlorbError::Io(e))),
        UpdateEvent::CargoBuilt(Err(CargoFailure::Join)) => finish(old, new, r) && ends_other(r, cargo_join_text()),
        UpdateEvent::BuildCommandRan => false,
    }
}

/// The state an update starts in.
pub open spec fn initial_cycle() -> UpdateCycleView {
    UpdateCycleView {
        phase: UpdatePhase::LocalBranch,
        local_oid: Seq::empty(),
        remote_oid: Seq::empty(),
        has_updates: false,
        out_dir_missing: false,
        user: Seq::empty(),
        bun: Seq::empty(),
        dir: Seq::empty(),
    }
}

/// The position of a phase in the order in which an update passes through them.
pub open spec fn phase_rank(phase: UpdatePhase) -> int {
    match phase {
        UpdatePhase::LocalBranch => 0,
        UpdatePhase::Fetch => 1,
        UpdatePhase::Analysis => 2,
        UpdatePhase::FastForward => 3,
        UpdatePhase::Resolve => 4,
        UpdatePhase::DistDir => 5,
        UpdatePhase::OutDir => 6,
        UpdatePhase::User => 7,
        UpdatePhase::BunBinary => 8,
        UpdatePhase::Canonical => 9,
        UpdatePhase::DirExists => 10,
        UpdatePhase::Install => 11,
        UpdatePhase::Build => 12,
        UpdatePhase::Cargo => 13,
        UpdatePhase::Finished => 14,
    }
}

/// Every step moves an update forward, so an update finishes after at most fourteen steps;
/// it has finished exactly when the step gives a result rather than more work.
pub proof fn law_update_moves_forward(
    repo_path: Seq<char>,
    c: RepositoryView,
    old: UpdateCycleView,
    event: UpdateEvent,
    new: UpdateCycleView,
    r: Step<ZlorbError>,
)
    requires
        answers(old.phase, event),
        update_step_spec(repo_path, c, old, event, new, r),
    ensures
        phase_rank(old.phase) < phase_rank(new.phase),
        r is Done <==> new.phase == UpdatePhase::Finished,
{
}

/// Only fast-forward merges are applied: the update moves the branch only right after an
/// analysis that found the branch behind and fast-forwardable, and moves it to the fetched commit.
pub proof fn law_fast_forward_only(
    repo_path: Seq<char>,
    c: RepositoryView,
    old: UpdateCycleView,
    event: UpdateEvent,
    new: UpdateCycleView,
    r: Step<ZlorbError>,
)
    requires
        update_step_spec(repo_path, c, old, event, new, r),
        r matches Step::Next(UpdateAction::FastForward { .. }),
    ensures
        event matches UpdateEvent::Analysis(Ok(f)) && !f.up_to_date && f.fast_forward
            && (r matches Step::Next(UpdateAction::FastForward { target, .. }) && target@ == f.commit@),
{
}

/// A diverged branch (neither up to date nor fast-forwardable) ends the update with the git
/// error "Fast-forward only!" of class `Invalid` and code `NotFastForward`.
pub proof fn law_diverged_branch_is_refused(
    repo_path: Seq<char>,
    c: RepositoryView,
    old: UpdateCycleView,
    commit: Vec<u8>,
    new: UpdateCycleView,
    r: Step<ZlorbError>,
)
    requires
        update_step_spec(repo_path, c, old, UpdateEvent::Analysis(Ok(FetchAnalysis { up_to_date: false, fast_forward: false, commit })), new, r),
    ensures
        r matches Step::Done(Err(ZlorbError::Git(g)))
            && displays(&g, git_error_text(GitCode::NotFastForward, GitClass::Invalid, "Fast-forward only!"@)),
        new.phase == UpdatePhase::Finished,
{
}

/// An up-to-date branch brings no changes and is neither moved nor checked out; the update
/// goes on to look for the build output `dist` inside the repository, with the remote
/// commit taken to be the local one, so that only a missing output makes a build due.
pub proof fn law_up_to_date_is_left_alone(
    repo_path: Seq<char>,
    c: RepositoryView,
    old: UpdateCycleView,
    fast_forward: bool,
    commit: Vec<u8>,
    new: UpdateCycleView,
    r: Step<ZlorbError>,
)
    requires
        update_step_spec(repo_path, c, old, UpdateEvent::Analysis(Ok(FetchAnalysis { up_to_date: true, fast_forward, commit })), new, r),
    ensures
        !new.has_updates,
        !(r matches Step::Next(UpdateAction::FastForward { .. })),
        !(r matches Step::Next(UpdateAction::CheckoutAndResolve { .. })),
        new.phase == UpdatePhase::DistDir,
        new.local_oid == new.remote_oid,
        r matches Step::Next(UpdateAction::CheckDistDir { path }) && path@ == joined(c.path, "dist"@),
{
}

/// A build starts (or is rejected for an unknown build command) only when there are changes
/// or the output directory is missing.
pub proof fn law_builds_only_when_due(
    repo_path: Seq<char>,
    c: RepositoryView,
    old: UpdateCycleView,
    event: UpdateEvent,
    new: UpdateCycleView,
    r: Step<ZlorbError>,
)
    requires
        update_step_spec(repo_path, c, old, event, new, r),
        r matches Step::Next(UpdateAction::ReadUser) || r matches Step::Next(UpdateAction::CargoBuild { .. })
            || r matches Step::Done(Err(ZlorbError::InvalidConfig(_))),
    ensures
        new.has_updates || new.out_dir_missing,
{
}

/// With no output directory configured, once the build output `dist` has been looked for
/// (after a fast-forward, or for an up-to-date branch), the update ends at once, successfully, exactly when the output exists and
/// the remote branch is where the local one was; otherwise the build is due.
pub proof fn law_build_when_changed_or_output_missing(
    repo_path: Seq<char>,
    c: RepositoryView,
    old: UpdateCycleView,
    present: bool,
    new: UpdateCycleView,
    r: Step<ZlorbError>,
)
    requires
        c.out_dir is None,
        update_step_spec(repo_path, c, old, UpdateEvent::DistDir(Ok(present)), new, r),
    ensures
        r matches Step::Done(Ok(())) <==> (present && old.local_oid == old.remote_oid),
        new.has_updates <==> !(present && old.local_oid == old.remote_oid),
{
}

/// The output directory is looked for where joining it onto the repository path leads:
/// an absolute one replaces the repository path in the join too.
pub proof fn law_out_dir_path_is_join(repo_path: Seq<char>, out_dir: Seq<char>)
    ensures
        out_dir_path_of(repo_path, out_dir) == joined(repo_path, out_dir),
{
}

/// `r` starts the build that `build_command` calls for in `dir`: bun when the command
/// mentions `bun`, else cargo when it mentions `cargo`, else the command is rejected.
pub open spec fn starts_build_for(build_command: Seq<char>, dir: Seq<char>, r: Step<ZlorbError>) -> bool {
    if contains_text(build_command, "bun"@) {
        r matches Step::Next(UpdateAction::ReadUser)
    } else if contains_text(build_command, "cargo"@) {
        r matches Step::Next(UpdateAction::CargoBuild { dir: d }) && d@ == dir
    } else {
        r matches Step::Done(Err(ZlorbError::InvalidConfig(_)))
    }
}

/// Once the configured output directory has been looked for, a build is due exactly when the
/// fetch brought changes or the directory is missing: then the build starts (as the build
/// command calls for); otherwise the update ends successfully.
pub proof fn law_build_due_after_out_dir_check(
    repo_path: Seq<char>,
    c: RepositoryView,
    old: UpdateCycleView,
    present: bool,
    new: UpdateCycleView,
    r: Step<ZlorbError>,
)
    requires
        update_step_spec(repo_path, c, old, UpdateEvent::OutDir(present), new, r),
    ensures
        (old.has_updates || !present) ==> starts_build_for(c.build_command, c.path, r),
        !(old.has_updates || !present) ==> r matches Step::Done(Ok(())),
        new.has_updates == old.has_updates,
        new.out_dir_missing == !present,
{
}

/// With no output directory configured, once the build output has been looked for, the build
/// starts exactly when the output is missing or the resolved remote commit differs from the
/// local one; otherwise the update ends successfully.
pub proof fn law_build_due_after_dist_check(
    repo_path: Seq<char>,
    c: RepositoryView,
    old: UpdateCycleView,
    present: bool,
    new: UpdateCycleView,
    r: Step<ZlorbError>,
)
    requires
        c.out_dir is None,
        update_step_spec(repo_path, c, old, UpdateEvent::DistDir(Ok(present)), new, r),
    ensures
        (!present || old.local_oid != old.remote_oid) ==> starts_build_for(c.build_command, c.path, r),
        (present && old.local_oid == old.remote_oid) ==> r matches Step::Done(Ok(())),
{
}

/// After a fast-forward, the update compares against the commit the remote branch resolves to:
/// with no output directory configured and the build output present, the build starts exactly
/// when that commit differs from the local one.
pub proof fn law_resolved_commit_decides_build(
    repo_path: Seq<char>,
    c: RepositoryView,
    s0: UpdateCycleView,
    oid: Vec<u8>,
    s1: UpdateCycleView,
    r1: Step<ZlorbError>,
    s2: UpdateCycleView,
    r2: Step<ZlorbError>,
)
    requires
        c.out_dir is None,
        update_step_spec(repo_path, c, s0, UpdateEvent::Resolved(Ok(oid)), s1, r1),
        update_step_spec(repo_path, c, s1, UpdateEvent::DistDir(Ok(true)), s2, r2),
    ensures
        s1.remote_oid == oid@,
        s1.local_oid == s0.local_oid,
        s0.local_oid != oid@ ==> starts_build_for(c.build_command, c.path, r2),
        s0.local_oid == oid@ ==> r2 matches Step::Done(Ok(())),
{
}

/// A bun build that exits with code 1, or does not succeed, ends the update with the error
/// that reports its status and standard error; a successful build ends it successfully.
pub proof fn law_failed_bun_build_is_reported(
    repo_path: Seq<char>,
    c: RepositoryView,
    old: UpdateCycleView,
    status: BuildStatus,
    new: UpdateCycleView,
    r: Step<ZlorbError>,
)
    requires
        update_step_spec(repo_path, c, old, UpdateEvent::Built(Ok(status)), new, r),
    ensures
        (status.code == Some(1i32) || !status.success) ==> (r matches Step::Done(Err(ZlorbError::Other(m)))
            && m@ == "Bun build returned status "@ + int_text(if let Some(k) = status.code { k as int } else { -1 })
                + " resulting in failure: "@ + utf8_lossy_text(status.stderr@)),
        (status.success && status.code != Some(1i32)) ==> r matches Step::Done(Ok(())),
        new.phase == UpdatePhase::Finished,
{
}

/// A cargo build ends the update successfully exactly when it ran; one that could not be run
/// ends it with that I/O error.
pub proof fn law_cargo_outcome_is_reported(
    repo_path: Seq<char>,
    c: RepositoryView,
    old: UpdateCycleView,
    outcome: Result<(), CargoFailure>,
    new: UpdateCycleView,
    r: Step<ZlorbError>,
)
    requires
        update_step_spec(repo_path, c, old, UpdateEvent::CargoBuilt(outcome), new, r),
    ensures
        r matches Step::Done(Ok(())) <==> outcome is Ok,
        outcome matches Err(CargoFailure::Spawn(e)) ==> r == Step::<ZlorbError>::Done(Err(ZlorbError::Io(e))),
        outcome matches Err(CargoFailure::Join) ==> r matches Step::Done(Err(ZlorbError::Other(_))),
{
}

/// An update ends successfully only after a build that succeeded, or at a check that finds no
/// build due (no changes and no missing output).
pub proof fn law_success_only_when_built_or_not_due(
    repo_path: Seq<char>,
    c: RepositoryView,
    old: UpdateCycleView,
    event: UpdateEvent,
    new: UpdateCycleView,
    r: Step<ZlorbError>,
)
    requires
        update_step_spec(repo_path, c, old, event, new, r),
        r matches Step::Done(Ok(())),
    ensures
        (event matches UpdateEvent::Built(Ok(st)) && st.success && st.code != Some(1i32))
            || event matches UpdateEvent::CargoBuilt(Ok(()))
            || ((event is DistDir || event is OutDir) && !new.has_updates && !new.out_dir_missing),
{
}

/// A failure reported by the outside work, a missing bun, a missing directory or an install
/// that wrote on standard error ends the update with an error.
pub proof fn law_failures_end_in_error(
    repo_path: Seq<char>,
    c: RepositoryView,
    old: UpdateCycleView,
    event: UpdateEvent,
    new: UpdateCycleView,
    r: Step<ZlorbError>,
)
    requires
        update_step_spec(repo_path, c, old, event, new, r),
        event matches UpdateEvent::LocalBranch(Err(_)) || event matches UpdateEvent::LocalBranch(Ok(None))
            || event matches UpdateEvent::Fetched(Err(_)) || event matches UpdateEvent::Analysis(Err(_))
            || event matches UpdateEvent::FastForwarded(Err(_)) || event matches UpdateEvent::Resolved(Err(_))
            || event matches UpdateEvent::DistDir(Err(_)) || event matches UpdateEvent::BunBinary(Err(_))
            || event matches UpdateEvent::BunBinary(Ok(false)) || event matches UpdateEvent::DirExists(false)
            || event matches UpdateEvent::Installed(Err(_)) || event matches UpdateEvent::Built(Err(_))
            || (event matches UpdateEvent::Installed(Ok(e)) && e@.len() > 0)
            || event matches UpdateEvent::CargoBuilt(Err(_)),
    ensures
        r matches Step::Done(Err(_)),
        new.phase == UpdatePhase::Finished,
{
}

/// The build output is looked for at `dist` inside the repository; the check records a change
/// exactly when the output is missing or the resolved remote commit differs from the local one,
/// and with an output directory configured it goes on to look for that directory.
pub proof fn law_dist_check_records_changes(
    repo_path: Seq<char>,
    c: RepositoryView,
    old: UpdateCycleView,
    present: bool,
    new: UpdateCycleView,
    r: Step<ZlorbError>,
)
    requires
        update_step_spec(repo_path, c, old, UpdateEvent::DistDir(Ok(present)), new, r),
    ensures
        new.has_updates == (!present || old.local_oid != old.remote_oid),
        c.out_dir matches Some(d) ==> (r matches Step::Next(UpdateAction::CheckOutDir { path }) && path@ == joined(repo_path, d)),
{
}

/// The step that asks for the build output asks for `dist` inside the repository.
pub proof fn law_dist_is_inside_repository(
    repo_path: Seq<char>,
    c: RepositoryView,
    old: UpdateCycleView,
    event: UpdateEvent,
    new: UpdateCycleView,
    r: Step<ZlorbError>,
)
    requires
        update_step_spec(repo_path, c, old, event, new, r),
        r matches Step::Next(UpdateAction::CheckDistDir { .. }),
    ensures
        r matches Step::Next(UpdateAction::CheckDistDir { path }) && path@ == joined(c.path, "dist"@),
{
}

/// The local commit is recorded only from the local branch's answer, and the remote commit only
/// from the resolved remote branch (or, for an up-to-date branch, as the local commit); no other
/// step changes them.
pub proof fn law_commits_recorded_once(
    repo_path: Seq<char>,
    c: RepositoryView,
    old: UpdateCycleView,
    event: UpdateEvent,
    new: UpdateCycleView,
    r: Step<ZlorbError>,
)
    requires
        update_step_spec(repo_path, c, old, event, new, r),
    ensures
        event matches UpdateEvent::LocalBranch(Ok(Some(oid))) ==> new.local_oid == oid@,
        !(event matches UpdateEvent::LocalBranch(Ok(Some(_)))) ==> new.local_oid == old.local_oid,
        event matches UpdateEvent::Resolved(Ok(oid)) ==> new.remote_oid == oid@,
        (event matches UpdateEvent::Analysis(Ok(f)) && f.up_to_date) ==> new.remote_oid == old.local_oid,
        !(event is Resolved) && !(event matches UpdateEvent::Analysis(Ok(f)) && f.up_to_date) ==> new.remote_oid == old.remote_oid,
{
}

/// bun is looked for under the user's home: `/root/.bun/bin/bun` for root, else
/// `/home/<user>/.bun/bin/bun`, with the user `unknown` when none is set.
pub proof fn law_bun_is_the_users(
    repo_path: Seq<char>,
    c: RepositoryView,
    old: UpdateCycleView,
    user: Option<String>,
    new: UpdateCycleView,
    r: Step<ZlorbError>,
)
    requires
        update_step_spec(repo_path, c, old, UpdateEvent::User(user), new, r),
    ensures
        ({
            let name = match user { Some(u) => u@, None => "unknown"@ };
            let home = if name == "root"@ { "/root/"@ } else { joined("/home"@, name) };
            &&& r matches Step::Next(UpdateAction::CheckBunBinary { path }) && path@ == joined(home, ".bun/bin/bun"@)
            &&& new.user == name
            &&& new.bun == joined(home, ".bun/bin/bun"@)
        }),
{
}

/// Once bun is found, install runs with it in the repository's canonical directory (the
/// configured path when it cannot be canonicalized), and the build runs with it in the
/// configured path.
pub proof fn law_bun_runs_in_repository(
    repo_path: Seq<char>,
    c: RepositoryView,
    old: UpdateCycleView,
    event: UpdateEvent,
    new: UpdateCycleView,
    r: Step<ZlorbError>,
)
    requires
        update_step_spec(repo_path, c, old, event, new, r),
    ensures
        event matches UpdateEvent::Canonical(Some(d)) ==> new.dir == d@,
        event matches UpdateEvent::Canonical(None) ==> new.dir == c.path,
        r matches Step::Next(UpdateAction::BunInstall { bun, dir }) ==> bun@ == old.bun && dir@ == old.dir,
        r matches Step::Next(UpdateAction::BunBuild { bun, dir }) ==> bun@ == old.bun && dir@ == c.path,
{
}

impl RepoProcessor {
    /// A processor for an opened repository; its path is the configured one.
    pub fn new(config: RepositoryConfiguration, repo: git2::Repository) -> (r: Self)
        ensures
            r.repo_path@ == config.path@,
            r.config@ == config@,
            r.repo == repo,
    {
        let repo_path = config.path.clone();
        RepoProcessor { repo_path, repo, config }
    }

    /// The output directory to look for, when one is configured.
    pub fn out_dir_path(&self) -> (r: Option<String>)
        ensures
            match self.config.out_dir {
                Some(d) => r matches Some(p) && p@ == out_dir_path_of(self.repo_path@, d@),
                None => r is None,
            },
    {
        match &self.config.out_dir {
            Some(d) => {
                if path_is_absolute(d.as_str()) {
                    Some(d.clone())
                } else {
                    Some(join(self.repo_path.as_str(), d.as_str()))
                }
            },
            None => None,
        }
    }

    /// Starts an update: its state, and the first work, resolving the configured local branch.
    pub fn begin_update(&self) -> (r: (UpdateCycle, UpdateAction))
        ensures
            r.0@ == initial_cycle(),
            r.1 matches UpdateAction::ResolveLocalBranch { branch } && branch@ == self.config.branch@,
    {
        let cycle = UpdateCycle {
            phase: UpdatePhase::LocalBranch,
            local_oid: Vec::new(),
            remote_oid: Vec::new(),
            has_updates: false,
            out_dir_missing: false,
            user: String::new(),
            bun: String::new(),
            dir: String::new(),
        };
        assert(cycle@ =~= initial_cycle());
        (cycle, UpdateAction::ResolveLocalBranch { branch: self.config.branch.clone() })
    }

    fn finish_with(cycle: &mut UpdateCycle, result: Result<(), ZlorbError>) -> (r: Step<ZlorbError>)
        ensures
            final(cycle)@ == with_phase(old(cycle)@, UpdatePhase::Finished),
            r == Step::Done(result),
    {
        cycle.phase = UpdatePhase::Finished;
        Step::Done(result)
    }

    fn decide_build(&self, cycle: &mut UpdateCycle) -> (r: Step<ZlorbError>)
        ensures
            build_decision(self.config@, old(cycle)@, final(cycle)@, r),
    {
        if cycle.has_updates || cycle.out_dir_missing {
            let exec = BuildSystemExecutor { processor: self };
            match exec.run_build() {
                Ok(action) => {
                    match action {
                        UpdateAction::ReadUser => {
                            cycle.phase = UpdatePhase::User;
                        },
                        _ => {
                            cycle.phase = UpdatePhase::Cargo;
                        },
                    }
                    Step::Next(action)
                },
                Err(e) => Self::finish_with(cycle, Err(e)),
            }
        } else {
            Self::finish_with(cycle, Ok(()))
        }
    }

    fn after_fetch(&self, cycle: &mut UpdateCycle) -> (r: Step<ZlorbError>)
        ensures
            after_fetch(self.repo_path@, self.config@, old(cycle)@, final(cycle)@, r),
    {
        match self.out_dir_path() {
            Some(path) => {
                cycle.phase = UpdatePhase::OutDir;
                Step::Next(UpdateAction::CheckOutDir { path })
            },
            None => {
                cycle.out_dir_missing = false;
                self.decide_build(cycle)
            },
        }
    }

    /// Takes the answer to the last work and gives the next work or the update's result.
    pub fn update_step(&self, cycle: &mut UpdateCycle, event: UpdateEvent) -> (r: Step<ZlorbError>)
        requires
            answers(old(cycle).phase, event),
        ensures
            update_step_spec(self.repo_path@, self.config@, old(cycle)@, event, final(cycle)@, r),
    {
        match event {
            UpdateEvent::LocalBranch(Err(e)) => {
                let m = e.to_string();
                Self::finish_with(cycle, Err(ZlorbError::Other(m)))
            },
            UpdateEvent::LocalBranch(Ok(None)) => {
                let e = git_error(GitCode::NotFound, GitClass::NoClass, "Failed to get Oid from branch");
                Self::finish_with(cycle, Err(ZlorbError::Git(e)))
            },
            UpdateEvent::LocalBranch(Ok(Some(oid))) => {
                cycle.local_oid = oid;
                cycle.phase = UpdatePhase::Fetch;
                Step::Next(UpdateAction::FetchRemote {
                    remote: String::from_str("origin"),
                    branch: self.config.branch.clone(),
                })
            },
            UpdateEvent::Fetched(Err(e)) => Self::finish_with(cycle, Err(ZlorbError::Git(e))),
            UpdateEvent::Fetched(Ok(())) => {
                cycle.phase = UpdatePhase::Analysis;
                Step::Next(UpdateAction::AnalyzeFetchHead)
            },
            UpdateEvent::Analysis(Err(e)) => Self::finish_with(cycle, Err(ZlorbError::Git(e))),
            UpdateEvent::Analysis(Ok(f)) => {
                if f.up_to_date {
                    cycle.has_updates = false;
                    cycle.remote_oid = copy_bytes(&cycle.local_oid);
                    cycle.phase = UpdatePhase::DistDir;
                    Step::Next(UpdateAction::CheckDistDir { path: join(self.config.path.as_str(), "dist") })
                } else if !f.fast_forward {
                    let e = git_error(GitCode::NotFastForward, GitClass::Invalid, "Fast-forward only!");
                    Self::finish_with(cycle, Err(ZlorbError::Git(e)))
                } else {
                    cycle.phase = UpdatePhase::FastForward;
                    let reference = String::from_str("refs/heads/").concat(self.config.branch.as_str());
                    Step::Next(UpdateAction::FastForward { reference, target: f.commit })
                }
            },
            UpdateEvent::FastForwarded(Err(e)) => Self::finish_with(cycle, Err(ZlorbError::Git(e))),
            UpdateEvent::FastForwarded(Ok(())) => {
                cycle.phase = UpdatePhase::Resolve;
                let short_name = String::from_str("origin/").concat(self.config.branch.as_str());
                Step::Next(UpdateAction::CheckoutAndResolve { short_name })
            },
            UpdateEvent::Resolved(Err(e)) => Self::finish_with(cycle, Err(ZlorbError::Git(e))),
            UpdateEvent::Resolved(Ok(oid)) => {
                cycle.remote_oid = oid;
                cycle.phase = UpdatePhase::DistDir;
                Step::Next(UpdateAction::CheckDistDir { path: join(self.config.path.as_str(), "dist") })
            },
            UpdateEvent::DistDir(Err(e)) => Self::finish_with(cycle, Err(ZlorbError::Io(e))),
            UpdateEvent::DistDir(Ok(present)) => {
                let same = bytes_equal(&cycle.local_oid, &cycle.remote_oid);
                cycle.has_updates = !present || !same;
                self.after_fetch(cycle)
            },
            UpdateEvent::OutDir(present) => {
                cycle.out_dir_missing = !present;
                self.decide_build(cycle)
            },
            UpdateEvent::User(u) => {
                let user = match u {
                    Some(s) => s,
                    None => String::from_str("unknown"),
                };
                let bun = BunManager::bun_path(user.as_str());
                cycle.phase = UpdatePhase::BunBinary;
                cycle.user = user;
                cycle.bun = bun.clone();
                Step::Next(UpdateAction::CheckBunBinary { path: bun })
            },
            UpdateEvent::BunBinary(Err(e)) => Self::finish_with(cycle, Err(ZlorbError::Io(e))),
            UpdateEvent::BunBinary(Ok(found)) => {
                if !found {
                    let e = BunManager {}.missing_error(cycle.user.as_str());
                    Self::finish_with(cycle, Err(e))
                } else {
                    cycle.phase = UpdatePhase::Canonical;
                    Step::Next(UpdateAction::Canonicalize { path: self.config.path.clone() })
                }
            },
            UpdateEvent::Canonical(o) => {
                let dir = match o {
                    Some(s) => s,
                    None => self.config.path.clone(),
                };
                cycle.phase = UpdatePhase::DirExists;
                cycle.dir = dir.clone();
                Step::Next(UpdateAction::CheckDirExists { path: dir })
            },
            UpdateEvent::DirExists(found) => {
                if !found {
                    let e = BunManager {}.dir_missing_error(cycle.dir.as_str());
                    Self::finish_with(cycle, Err(e))
                } else {
                    cycle.phase = UpdatePhase::Install;
                    Step::Next(UpdateAction::BunInstall { bun: cycle.bun.clone(), dir: cycle.dir.clone() })
                }
            },
            UpdateEvent::Installed(Err(e)) => Self::finish_with(cycle, Err(ZlorbError::Io(e))),
            UpdateEvent::Installed(Ok(stderr)) => {
                match (BunManager {}).install_result(&stderr) {
                    Err(e) => Self::finish_with(cycle, Err(e)),
                    Ok(()) => {
                        cycle.phase = UpdatePhase::Build;
                        Step::Next(UpdateAction::BunBuild { bun: cycle.bun.clone(), dir: self.config.path.clone() })
                    },
                }
            },
            UpdateEvent::Built(Err(e)) => Self::finish_with(cycle, Err(ZlorbError::Io(e))),
            UpdateEvent::Built(Ok(status)) => {
                let result = (BunManager {}).build_result(status.code, status.success, &status.stderr);
                Self::finish_with(cycle, result)
            },
            UpdateEvent::CargoBuilt(Ok(())) => Self::finish_with(cycle, Ok(())),
            UpdateEvent::CargoBuilt(Err(CargoFailure::Spawn(e))) => Self::finish_with(cycle, Err(ZlorbError::Io(e))),
            UpdateEvent::CargoBuilt(Err(CargoFailure::Join)) => {
                let m = String::from_str("Failure when joining cargo build handle");
                Self::finish_with(cycle, Err(ZlorbError::Other(m)))
            },
            UpdateEvent::BuildCommandRan => {
                assert(false);
                Self::finish_with(cycle, Ok(()))
            },
        }
    }
}

} // verus!
