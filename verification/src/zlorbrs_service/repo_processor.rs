//! One tracked repository and its update cycle in zlorbrs: fetch, fast-forward only,
//! and run the build command when there are changes or the build output is missing.
use vstd::prelude::*;
use vstd::string::*;
use crate::outside::{git_error, git_error_text, GitClass, GitCode};
use crate::path::{join, joined};
use crate::sync::{FetchAnalysis, Step, UpdateAction, UpdateEvent};
use crate::text::{bytes_equal, copy_bytes, displays};
use crate::zlorbrs_lib::config::RepoConfig;
use crate::zlorbrs_lib::error::ZlorbError;
use crate::zlorbrs_service::bun::BunManager;

verus! {

/// A tracked repository, opened.
pub struct RepoProcessor {
    pub repo_path: String,
    pub repo: git2::Repository,
    pub config: RepoConfig,
}

/// How the build command's thread ended.
pub enum BuildRun {
    /// Changing into the repository failed.
    ChangeDir(std::io::Error),
    /// The build command could not be run.
    Spawn,
    /// The build command exited, with this code if it had one.
    Exited(Option<i32>),
}

/// Which answer an update waits for.
#[derive(Clone, Copy, Debug, PartialEq, Eq, Structural)]
pub enum SyncPhase {
    LocalBranch,
    Fetch,
    Analysis,
    FastForward,
    Resolve,
    DistDir,
    Build,
    Finished,
}

/// The state of one update.
pub struct SyncCycle {
    pub phase: SyncPhase,
    pub local_oid: Vec<u8>,
    pub remote_oid: Vec<u8>,
}

/// An update's state as plain values.
pub struct SyncCycleView {
    pub phase: SyncPhase,
    pub local_oid: Seq<u8>,
    pub remote_oid: Seq<u8>,
}

impl View for SyncCycle {
    type V = SyncCycleView;

    open spec fn view(&self) -> SyncCycleView {
        SyncCycleView { phase: self.phase, local_oid: self.local_oid@, remote_oid: self.remote_oid@ }
    }
}

/// The event is the answer that `phase` waits for.
pub open spec fn answers(phase: SyncPhase, event: UpdateEvent) -> bool {
    match phase {
        SyncPhase::LocalBranch => event is LocalBranch,
        SyncPhase::Fetch => event is Fetched,
        SyncPhase::Analysis => event is Analysis,
        SyncPhase::FastForward => event is FastForwarded,
        SyncPhase::Resolve => event is Resolved,
        SyncPhase::DistDir => event is DistDir,
        SyncPhase::Build => event is BuildCommandRan,
        SyncPhase::Finished => false,
    }
}

/// `s` with another phase.
pub open spec fn with_phase(s: SyncCycleView, phase: SyncPhase) -> SyncCycleView {
    SyncCycleView { phase, ..s }
}

/// The update is finished with `r`, the state otherwise unchanged.
pub open spec fn finish(old: SyncCycleView, new: SyncCycleView, r: Step<ZlorbError>) -> bool {
    new == with_phase(old, SyncPhase::Finished) && r is Done
}

/// With an update found, run the build command in the repository; else the update is done.
pub open spec fn build_if(c: RepoConfig, has_updates: bool, old: SyncCycleView, new: SyncCycleView, r: Step<ZlorbError>) -> bool {
    if has_updates {
        new == with_phase(old, SyncPhase::Build)
            && (r matches Step::Next(UpdateAction::RunBuildCommand { dir, command }) && dir@ == c.path@ && command@ == c.build_command@)
    } else {
        new == with_phase(old, SyncPhase::Finished) && (r matches Step::Done(Ok(())))
    }
}

/// One step of an update of the repository configured as `c`.
pub open spec fn sync_step_spec(c: RepoConfig, old: SyncCycleView, event: UpdateEvent, new: SyncCycleView, r: Step<ZlorbError>) -> bool {
    match event {
        UpdateEvent::LocalBranch(Err(e)) => finish(old, new, r) && (r matches Step::Done(Err(ZlorbError::Other(m))) && displays(&e, m@)),
        UpdateEvent::LocalBranch(Ok(None)) => finish(old, new, r) && (r matches Step::Done(Err(ZlorbError::Git(g)))
            && displays(&g, git_error_text(GitCode::NotFound, GitClass::NoClass, "Failed to get Oid from branch"@))),
        UpdateEvent::LocalBranch(Ok(Some(oid))) => new == (SyncCycleView { phase: SyncPhase::Fetch, local_oid: oid@, ..old })
            && (r matches Step::Next(UpdateAction::FetchRemote { remote, branch }) && remote@ == "origin"@ && branch@ == c.branch@),
        UpdateEvent::Fetched(Err(e)) => finish(old, new, r) && r == Step::<ZlorbError>::Done(Err(ZlorbError::Git(e))),
        UpdateEvent::Fetched(Ok(())) => new == with_phase(old, SyncPhase::Analysis) && (r matches Step::Next(UpdateAction::AnalyzeFetchHead)),
        UpdateEvent::Analysis(Err(e)) => finish(old, new, r) && r == Step::<ZlorbError>::Done(Err(ZlorbError::Git(e))),
        UpdateEvent::Analysis(Ok(f)) => if f.up_to_date {
            new == (SyncCycleView { phase: SyncPhase::DistDir, remote_oid: old.local_oid, ..old })
                && (r matches Step::Next(UpdateAction::CheckDistDir { path }) && path@ == joined(c.path@, "dist"@))
        } else if !f.fast_forward {
            finish(old, new, r) && (r matches Step::Done(Err(ZlorbError::Git(g)))
                && displays(&g, git_error_text(GitCode::NotFastForward, GitClass::Invalid, "Fast-forward only!"@)))
        } else {
            new == with_phase(old, SyncPhase::FastForward)
                && (r matches Step::Next(UpdateAction::FastForward { reference, target }) && reference@ == "refs/heads/"@ + c.branch@
                    && target@ == f.commit@)
        },
        UpdateEvent::FastForwarded(Err(e)) => finish(old, new, r) && r == Step::<ZlorbError>::Done(Err(ZlorbError::Git(e))),
        UpdateEvent::FastForwarded(Ok(())) => new == with_phase(old, SyncPhase::Resolve)
            && (r matches Step::Next(UpdateAction::CheckoutAndResolve { short_name }) && short_name@ == "origin/"@ + c.branch@),
        UpdateEvent::Resolved(Err(e)) => finish(old, new, r) && r == Step::<ZlorbError>::Done(Err(ZlorbError::Git(e))),
        UpdateEvent::Resolved(Ok(oid)) => new == (SyncCycleView { phase: SyncPhase::DistDir, remote_oid: oid@, ..old })
            && (r matches Step::Next(UpdateAction::CheckDistDir { path }) && path@ == joined(c.path@, "dist"@)),
        UpdateEvent::DistDir(Err(e)) => finish(old, new, r) && r == Step::<ZlorbError>::Done(Err(ZlorbError::Io(e))),
        UpdateEvent::DistDir(Ok(present)) => build_if(c, !present || old.local_oid != old.remote_oid, old, new, r),
        UpdateEvent::BuildCommandRan => finish(old, new, r) && (r matches Step::Done(Ok(()))),
        _ => false,
    }
}

/// The state an update starts in.
pub open spec fn initial_sync() -> SyncCycleView {
    SyncCycleView { phase: SyncPhase::LocalBranch, local_oid: Seq::empty(), remote_oid: Seq::empty() }
}

/// An update always ends well once the build command has run: its outcome is not looked at.
pub proof fn law_build_outcome_is_ignored(c: RepoConfig, old: SyncCycleView, new: SyncCycleView, r: Step<ZlorbError>)
    requires
        sync_step_spec(c, old, UpdateEvent::BuildCommandRan, new, r),
    ensures
        r matches Step::Done(Ok(())),
{
}

/// A branch that merge analysis finds up to date is not moved; the update goes on to look
/// for the build output `dist` inside the repository, with the remote commit taken to be the
/// local one, so that only a missing output runs the build command.
pub proof fn law_up_to_date_checks_output(c: RepoConfig, old: SyncCycleView, fast_forward: bool, commit: Vec<u8>, new: SyncCycleView, r: Step<ZlorbError>)
    requires
        sync_step_spec(c, old, UpdateEvent::Analysis(Ok(FetchAnalysis { up_to_date: true, fast_forward, commit })), new, r),
    ensures
        new.phase == SyncPhase::DistDir,
        new.local_oid == new.remote_oid,
        r matches Step::Next(UpdateAction::CheckDistDir { path }) && path@ == joined(c.path@, "dist"@),
{
}

/// Once the build output has been looked for, the build command runs exactly when the output
/// is missing or the remote branch is not where the local one was; otherwise the update ends well.
pub proof fn law_build_when_changed_or_output_missing(c: RepoConfig, old: SyncCycleView, present: bool, new: SyncCycleView, r: Step<ZlorbError>)
    requires
        sync_step_spec(c, old, UpdateEvent::DistDir(Ok(present)), new, r),
    ensures
        r matches Step::Next(UpdateAction::RunBuildCommand { .. }) <==> !(present && old.local_oid == old.remote_oid),
        r matches Step::Done(Ok(())) <==> (present && old.local_oid == old.remote_oid),
{
}

/// A diverged branch ends the update with the git error "Fast-forward only!" of class
/// `Invalid` and code `NotFastForward`.
pub proof fn law_diverged_branch_is_refused(c: RepoConfig, old: SyncCycleView, commit: Vec<u8>, new: SyncCycleView, r: Step<ZlorbError>)
    requires
        sync_step_spec(c, old, UpdateEvent::Analysis(Ok(FetchAnalysis { up_to_date: false, fast_forward: false, commit })), new, r),
    ensures
        r matches Step::Done(Err(ZlorbError::Git(g)))
            && displays(&g, git_error_text(GitCode::NotFastForward, GitClass::Invalid, "Fast-forward only!"@)),
        new.phase == SyncPhase::Finished,
{
}

/// Only fast-forward merges are applied, and the branch is moved to the fetched commit.
pub proof fn law_fast_forward_only(c: RepoConfig, old: SyncCycleView, event: UpdateEvent, new: SyncCycleView, r: Step<ZlorbError>)
    requires
        sync_step_spec(c, old, event, new, r),
        r matches Step::Next(UpdateAction::FastForward { .. }),
    ensures
        event matches UpdateEvent::Analysis(Ok(f)) && !f.up_to_date && f.fast_forward
            && (r matches Step::Next(UpdateAction::FastForward { target, .. }) && target@ == f.commit@),
{
}

/// After a fast-forward, the update compares against the commit the remote branch resolves to:
/// with the build output present, the build command runs exactly when that commit differs from
/// the local one.
pub proof fn law_resolved_commit_decides_build(
    c: RepoConfig,
    s0: SyncCycleView,
    oid: Vec<u8>,
    s1: SyncCycleView,
    r1: Step<ZlorbError>,
    s2: SyncCycleView,
    r2: Step<ZlorbError>,
)
    requires
        sync_step_spec(c, s0, UpdateEvent::Resolved(Ok(oid)), s1, r1),
        sync_step_spec(c, s1, UpdateEvent::DistDir(Ok(true)), s2, r2),
    ensures
        s1.remote_oid == oid@,
        s1.local_oid == s0.local_oid,
        s0.local_oid != oid@ ==> (r2 matches Step::Next(UpdateAction::RunBuildCommand { dir, command })
            && dir@ == c.path@ && command@ == c.build_command@),
        s0.local_oid == oid@ ==> r2 matches Step::Done(Ok(())),
{
}

/// An update ends successfully only once the build command has run, or at the check of the
/// build output when the output is there and the remote commit is the local one.
pub proof fn law_success_only_when_built_or_not_due(c: RepoConfig, old: SyncCycleView, event: UpdateEvent, new: SyncCycleView, r: Step<ZlorbError>)
    requires
        sync_step_spec(c, old, event, new, r),
        r matches Step::Done(Ok(())),
    ensures
        event is BuildCommandRan || (event matches UpdateEvent::DistDir(Ok(p)) && p && old.local_oid == old.remote_oid),
{
}

/// A failure reported by the outside work ends the update with an error.
pub proof fn law_failures_end_in_error(c: RepoConfig, old: SyncCycleView, event: UpdateEvent, new: SyncCycleView, r: Step<ZlorbError>)
    requires
        sync_step_spec(c, old, event, new, r),
        event matches UpdateEvent::LocalBranch(Err(_)) || event matches UpdateEvent::LocalBranch(Ok(None))
            || event matches UpdateEvent::Fetched(Err(_)) || event matches UpdateEvent::Analysis(Err(_))
            || event matches UpdateEvent::FastForwarded(Err(_)) || event matches UpdateEvent::Resolved(Err(_))
            || event matches UpdateEvent::DistDir(Err(_)),
    ensures
        r matches Step::Done(Err(_)),
        new.phase == SyncPhase::Finished,
{
}

/// The local commit is recorded only from the local branch's answer, and the remote commit only
/// from the resolved remote branch (or, for an up-to-date branch, as the local commit).
pub proof fn law_commits_recorded_once(c: RepoConfig, old: SyncCycleView, event: UpdateEvent, new: SyncCycleView, r: Step<ZlorbError>)
    requires
        sync_step_spec(c, old, event, new, r),
    ensures
        event matches UpdateEvent::LocalBranch(Ok(Some(oid))) ==> new.local_oid == oid@,
        !(event matches UpdateEvent::LocalBranch(Ok(Some(_)))) ==> new.local_oid == old.local_oid,
        event matches UpdateEvent::Resolved(Ok(oid)) ==> new.remote_oid == oid@,
        (event matches UpdateEvent::Analysis(Ok(f)) && f.up_to_date) ==> new.remote_oid == old.local_oid,
        !(event is Resolved) && !(event matches UpdateEvent::Analysis(Ok(f)) && f.up_to_date) ==> new.remote_oid == old.remote_oid,
        r matches Step::Next(UpdateAction::CheckDistDir { path }) ==> path@ == joined(c.path@, "dist"@),
{
}

impl RepoProcessor {
    /// A processor for an opened repository; its path is the configured one.
    pub fn new(config: RepoConfig, repo: git2::Repository) -> (r: Self)
        ensures
            r.repo_path@ == config.path@,
            r.config == config,
            r.repo == repo,
    {
        let repo_path = config.path.clone();
        RepoProcessor { repo_path, repo, config }
    }

    /// What the build thread reports: a failed change of directory as `Io`, a command that
    /// could not run as `Other`, and an exit judged by its code (code 1 fails).
    pub fn build_thread_result(outcome: BuildRun) -> (r: Result<(), ZlorbError>)
        ensures
            match outcome {
                BuildRun::ChangeDir(e) => r == Err::<(), ZlorbError>(ZlorbError::Io(e)),
                BuildRun::Spawn => r matches Err(ZlorbError::Other(m)) && m@ == "Unable to retrieve build handle"@,
                BuildRun::Exited(code) => if code == Some(1i32) {
                    r matches Err(ZlorbError::Other(m)) && m@ == "build returned status code 1 resulting in failure"@
                } else {
                    r matches Ok(())
                },
            },
    {
        match outcome {
            BuildRun::ChangeDir(e) => Err(ZlorbError::Io(e)),
            BuildRun::Spawn => Err(ZlorbError::Other(String::from_str("Unable to retrieve build handle"))),
            BuildRun::Exited(code) => (BunManager {}).build_result(code),
        }
    }

    /// What running the build reports once its thread is joined (`None` when it could not be
    /// joined): only a failed join is an error; the thread's own result is not passed on.
    pub fn run_build_result(joined: Option<Result<(), ZlorbError>>) -> (r: Result<(), ZlorbError>)
        ensures
            match joined {
                None => r matches Err(ZlorbError::Other(m)) && m@ == "Faild to join the thread"@,
                Some(_) => r matches Ok(()),
            },
    {
        match joined {
            None => Err(ZlorbError::Other(String::from_str("Faild to join the thread"))),
            Some(_) => Ok(()),
        }
    }

    /// Starts an update: its state, and the first work, resolving the configured local branch.
    pub fn begin_update(&self) -> (r: (SyncCycle, UpdateAction))
        ensures
            r.0@ == initial_sync(),
            r.1 matches UpdateAction::ResolveLocalBranch { branch } && branch@ == self.config.branch@,
    {
        let cycle = SyncCycle { phase: SyncPhase::LocalBranch, local_oid: Vec::new(), remote_oid: Vec::new() };
        assert(cycle@ =~= initial_sync());
        (cycle, UpdateAction::ResolveLocalBranch { branch: self.config.branch.clone() })
    }

    fn finish_with(cycle: &mut SyncCycle, result: Result<(), ZlorbError>) -> (r: Step<ZlorbError>)
        ensures
            final(cycle)@ == with_phase(old(cycle)@, SyncPhase::Finished),
            r == Step::Done(result),
    {
        cycle.phase = SyncPhase::Finished;
        Step::Done(result)
    }

    fn build_if(&self, cycle: &mut SyncCycle, has_updates: bool) -> (r: Step<ZlorbError>)
        ensures
            build_if(self.config, has_updates, old(cycle)@, final(cycle)@, r),
    {
        if has_updates {
            cycle.phase = SyncPhase::Build;
            Step::Next(UpdateAction::RunBuildCommand {
                dir: self.config.path.clone(),
                command: self.config.build_command.clone(),
            })
        } else {
            Self::finish_with(cycle, Ok(()))
        }
    }

    /// Takes the answer to the last work and gives the next work or the update's result.
    pub fn update_step(&self, cycle: &mut SyncCycle, event: UpdateEvent) -> (r: Step<ZlorbError>)
        requires
            answers(old(cycle).phase, event),
        ensures
            sync_step_spec(self.config, old(cycle)@, event, final(cycle)@, r),
    {
        match event {
            UpdateEvent::LocalBranch(Err(e)) => {
                let m = e.to_string();
                Self::finish_with(cycle, Err(ZlorbError::Other(m)))
            },
            UpdateEvent::LocalBranch(Ok(None)) => {
                let e = git_error(GitCode::NotFound, GitClass::NoClass, "Failed to get Oid from branch");
                Self::finish_with(cycle, Err(ZlorbError::Git(e)))
            },
            UpdateEvent::LocalBranch(Ok(Some(oid))) => {
                cycle.local_oid = oid;
                cycle.phase = SyncPhase::Fetch;
                Step::Next(UpdateAction::FetchRemote {
                    remote: String::from_str("origin"),
                    branch: self.config.branch.clone(),
                })
            },
            UpdateEvent::Fetched(Err(e)) => Self::finish_with(cycle, Err(ZlorbError::Git(e))),
            UpdateEvent::Fetched(Ok(())) => {
                cycle.phase = SyncPhase::Analysis;
                Step::Next(UpdateAction::AnalyzeFetchHead)
            },
            UpdateEvent::Analysis(Err(e)) => Self::finish_with(cycle, Err(ZlorbError::Git(e))),
            UpdateEvent::Analysis(Ok(f)) => {
                if f.up_to_date {
                    cycle.remote_oid = copy_bytes(&cycle.local_oid);
                    cycle.phase = SyncPhase::DistDir;
                    Step::Next(UpdateAction::CheckDistDir { path: join(self.config.path.as_str(), "dist") })
                } else if !f.fast_forward {
                    let e = git_error(GitCode::NotFastForward, GitClass::Invalid, "Fast-forward only!");
                    Self::finish_with(cycle, Err(ZlorbError::Git(e)))
                } else {
                    cycle.phase = SyncPhase::FastForward;
                    let reference = String::from_str("refs/heads/").concat(self.config.branch.as_str());
                    Step::Next(UpdateAction::FastForward { reference, target: f.commit })
                }
            },
            UpdateEvent::FastForwarded(Err(e)) => Self::finish_with(cycle, Err(ZlorbError::Git(e))),
            UpdateEvent::FastForwarded(Ok(())) => {
                cycle.phase = SyncPhase::Resolve;
                let short_name = String::from_str("origin/").concat(self.config.branch.as_str());
                Step::Next(UpdateAction::CheckoutAndResolve { short_name })
            },
            UpdateEvent::Resolved(Err(e)) => Self::finish_with(cycle, Err(ZlorbError::Git(e))),
            UpdateEvent::Resolved(Ok(oid)) => {
                cycle.remote_oid = oid;
                cycle.phase = SyncPhase::DistDir;
                Step::Next(UpdateAction::CheckDistDir { path: join(self.config.path.as_str(), "dist") })
            },
            UpdateEvent::DistDir(Err(e)) => Self::finish_with(cycle, Err(ZlorbError::Io(e))),
            UpdateEvent::DistDir(Ok(present)) => {
                let same = bytes_equal(&cycle.local_oid, &cycle.remote_oid);
                self.build_if(cycle, !present || !same)
            },
            UpdateEvent::BuildCommandRan => Self::finish_with(cycle, Ok(())),
            _ => {
                assert(false);
                Self::finish_with(cycle, Ok(()))
            },
        }
    }
}

} // verus!
