use zlorb::sync::{BuildStatus, CargoFailure, FetchAnalysis, Step, UpdateAction, UpdateEvent};
use zlorb::zlorb_lib::config::RepositoryConfiguration;
use zlorb::zlorb_lib::error::ZlorbError;
use zlorb::zlorb_service::build_system_executor::{BuildStrategy, BuildSystemExecutor, BunManager, RustManager};
use zlorb::zlorb_service::config_manager::ConfigManager;
use zlorb::zlorb_service::repo_processor::{RepoProcessor, UpdateCycle, UpdatePhase};
use zlorb::zlorb_service::service_config::ServiceConfig;

fn config(build_command: &str, out_dir: Option<&str>) -> RepositoryConfiguration {
    RepositoryConfiguration {
        name: "site".to_string(),
        path: "/srv/site".to_string(),
        remote: "origin".to_string(),
        branch: "main".to_string(),
        build_command: build_command.to_string(),
        out_dir: out_dir.map(|s| s.to_string()),
    }
}

fn processor(tag: &str, build_command: &str, out_dir: Option<&str>) -> RepoProcessor {
    let repo = git2::Repository::init(format!("/tmp/zlorb-service-tests/{}", tag)).unwrap();
    RepoProcessor::new(config(build_command, out_dir), repo)
}

fn git_err(msg: &str) -> git2::Error {
    git2::Error::from_str(msg)
}

fn io_err(msg: &str) -> std::io::Error {
    std::io::Error::new(std::io::ErrorKind::Other, msg)
}

fn next(step: Step<ZlorbError>) -> UpdateAction {
    match step {
        Step::Next(a) => a,
        Step::Done(_) => panic!("expected more work"),
    }
}

fn done(step: Step<ZlorbError>) -> Result<(), ZlorbError> {
    match step {
        Step::Done(r) => r,
        Step::Next(_) => panic!("expected the update to finish"),
    }
}

fn flags(up_to_date: bool, fast_forward: bool) -> FetchAnalysis {
    FetchAnalysis { up_to_date, fast_forward, commit: vec![7; 20] }
}

/// Runs the git part of an update up to the build-output check, with the given oids.
fn through_fetch(p: &RepoProcessor, local: Vec<u8>, remote: Vec<u8>) -> UpdateCycle {
    let (mut c, first) = p.begin_update();
    assert!(matches!(first, UpdateAction::ResolveLocalBranch { ref branch } if branch == "main"));
    match next(p.update_step(&mut c, UpdateEvent::LocalBranch(Ok(Some(local))))) {
        UpdateAction::FetchRemote { remote, branch } => {
            assert_eq!(remote, "origin");
            assert_eq!(branch, "main");
        },
        _ => panic!("expected a fetch"),
    }
    assert!(matches!(next(p.update_step(&mut c, UpdateEvent::Fetched(Ok(())))), UpdateAction::AnalyzeFetchHead));
    match next(p.update_step(&mut c, UpdateEvent::Analysis(Ok(flags(false, true))))) {
        UpdateAction::FastForward { reference, target } => {
            assert_eq!(reference, "refs/heads/main");
            assert_eq!(target, vec![7; 20]);
        },
        _ => panic!("expected a fast-forward"),
    }
    match next(p.update_step(&mut c, UpdateEvent::FastForwarded(Ok(())))) {
        UpdateAction::CheckoutAndResolve { short_name } => assert_eq!(short_name, "origin/main"),
        _ => panic!("expected a checkout"),
    }
    match next(p.update_step(&mut c, UpdateEvent::Resolved(Ok(remote)))) {
        UpdateAction::CheckDistDir { path } => assert_eq!(path, "/srv/site/dist"),
        _ => panic!("expected the dist check"),
    }
    assert_eq!(c.phase, UpdatePhase::DistDir);
    c
}

#[test]
fn service_config_defaults() {
    let c = ServiceConfig::default();
    assert_eq!(c.sleep_time, 5);
    assert_eq!(c.username, "NO USERNAME PROVIDED");
    assert_eq!(c.token, "NO TOKEN PROVIDED");
}

#[test]
fn config_manager_paths() {
    let m = ConfigManager::new("/home/u".to_string());
    assert_eq!(m.service_config_path(), "/home/u/.config/zlorb/service-config.json");
    assert_eq!(m.repo_config_path("site"), "/home/u/.config/zlorb/configs/site/config.json");
    assert_eq!(m.repo_config_path("/abs"), "/abs/config.json");
}

#[test]
fn strategy_follows_build_command() {
    let cases = [
        ("bun run build", BuildStrategy::Bun(BunManager {})),
        ("cargo build --release", BuildStrategy::Rust(RustManager {})),
        ("cargo bun", BuildStrategy::Bun(BunManager {})),
        ("make", BuildStrategy::Unknown),
        ("", BuildStrategy::Unknown),
    ];
    for (i, (command, expected)) in cases.into_iter().enumerate() {
        let p = processor(&format!("strategy{}", i), command, None);
        let exec = BuildSystemExecutor { processor: &p };
        assert_eq!(exec.determine_strategy(), expected, "{}", command);
    }
}

#[test]
fn unknown_build_command_is_invalid_config() {
    let p = processor("invalid", "make all", None);
    let exec = BuildSystemExecutor { processor: &p };
    match exec.run_build() {
        Err(ZlorbError::InvalidConfig(m)) => {
            assert_eq!(m, "The build command 'make all' provided to repo: site was invalid")
        },
        _ => panic!("expected InvalidConfig"),
    }
    let rust = processor("rust", "cargo build", None);
    let exec = BuildSystemExecutor { processor: &rust };
    assert!(matches!(exec.run_build(), Ok(UpdateAction::CargoBuild { ref dir }) if dir == "/srv/site"));
}

#[test]
fn bun_locations_and_verdicts() {
    assert_eq!(BunManager::bun_path("root"), "/root/.bun/bin/bun");
    assert_eq!(BunManager::bun_path("alice"), "/home/alice/.bun/bin/bun");
    assert_eq!(BunManager::bun_path("unknown"), "/home/unknown/.bun/bin/bun");
    let b = BunManager {};
    assert!(b.install_result(&vec![]).is_ok());
    match b.install_result(&b"warn: x".to_vec()) {
        Err(ZlorbError::Other(m)) => assert_eq!(m, "Npm install failed: warn: x"),
        _ => panic!(),
    }
    assert!(b.build_result(Some(0), true, &vec![]).is_ok());
    match b.build_result(Some(2), false, &b"boom".to_vec()) {
        Err(ZlorbError::Other(m)) => assert_eq!(m, "Bun build returned status 2 resulting in failure: boom"),
        _ => panic!(),
    }
    match b.build_result(Some(1), false, &vec![]) {
        Err(ZlorbError::Other(m)) => assert_eq!(m, "Bun build returned status 1 resulting in failure: "),
        _ => panic!(),
    }
    match b.build_result(None, false, &vec![]) {
        Err(ZlorbError::Other(m)) => assert_eq!(m, "Bun build returned status -1 resulting in failure: "),
        _ => panic!(),
    }
}

#[test]
fn unchanged_repo_with_output_is_not_built() {
    let p = processor("unchanged", "bun run build", None);
    let mut c = through_fetch(&p, vec![1; 20], vec![1; 20]);
    assert!(done(p.update_step(&mut c, UpdateEvent::DistDir(Ok(true)))).is_ok());
    assert_eq!(c.phase, UpdatePhase::Finished);
    assert!(!c.has_updates);
}

#[test]
fn changed_repo_runs_bun_pipeline() {
    let p = processor("changed", "bun run build", None);
    let mut c = through_fetch(&p, vec![1; 20], vec![2; 20]);
    assert!(matches!(next(p.update_step(&mut c, UpdateEvent::DistDir(Ok(true)))), UpdateAction::ReadUser));
    assert!(c.has_updates);
    match next(p.update_step(&mut c, UpdateEvent::User(None))) {
        UpdateAction::CheckBunBinary { path } => assert_eq!(path, "/home/unknown/.bun/bin/bun"),
        _ => panic!(),
    }
    match next(p.update_step(&mut c, UpdateEvent::BunBinary(Ok(true)))) {
        UpdateAction::Canonicalize { path } => assert_eq!(path, "/srv/site"),
        _ => panic!(),
    }
    match next(p.update_step(&mut c, UpdateEvent::Canonical(Some("/real/site".to_string())))) {
        UpdateAction::CheckDirExists { path } => assert_eq!(path, "/real/site"),
        _ => panic!(),
    }
    match next(p.update_step(&mut c, UpdateEvent::DirExists(true))) {
        UpdateAction::BunInstall { bun, dir } => {
            assert_eq!(bun, "/home/unknown/.bun/bin/bun");
            assert_eq!(dir, "/real/site");
        },
        _ => panic!(),
    }
    match next(p.update_step(&mut c, UpdateEvent::Installed(Ok(vec![])))) {
        UpdateAction::BunBuild { bun, dir } => {
            assert_eq!(bun, "/home/unknown/.bun/bin/bun");
            assert_eq!(dir, "/srv/site");
        },
        _ => panic!(),
    }
    let status = BuildStatus { code: Some(0), success: true, stderr: vec![] };
    assert!(done(p.update_step(&mut c, UpdateEvent::Built(Ok(status)))).is_ok());
}

#[test]
fn missing_dist_triggers_build() {
    let p = processor("nodist", "cargo build", None);
    let mut c = through_fetch(&p, vec![3; 20], vec![3; 20]);
    match next(p.update_step(&mut c, UpdateEvent::DistDir(Ok(false)))) {
        UpdateAction::CargoBuild { dir } => assert_eq!(dir, "/srv/site"),
        _ => panic!(),
    }
    assert!(done(p.update_step(&mut c, UpdateEvent::CargoBuilt(Ok(())))).is_ok());
}

#[test]
fn cargo_failures_are_reported() {
    let p = processor("cargofail", "cargo build", None);
    let mut c = through_fetch(&p, vec![3; 20], vec![4; 20]);
    next(p.update_step(&mut c, UpdateEvent::DistDir(Ok(true))));
    match done(p.update_step(&mut c, UpdateEvent::CargoBuilt(Err(CargoFailure::Join)))) {
        Err(ZlorbError::Other(m)) => assert_eq!(m, "Failure when joining cargo build handle"),
        _ => panic!(),
    }
}

#[test]
fn missing_bun_is_reported() {
    let p = processor("nobun", "bun run build", None);
    let mut c = through_fetch(&p, vec![1; 20], vec![2; 20]);
    next(p.update_step(&mut c, UpdateEvent::DistDir(Ok(true))));
    next(p.update_step(&mut c, UpdateEvent::User(Some("root".to_string()))));
    assert_eq!(c.bun, "/root/.bun/bin/bun");
    match done(p.update_step(&mut c, UpdateEvent::BunBinary(Ok(false)))) {
        Err(ZlorbError::Other(m)) => assert_eq!(m, "Bun is not installed or not in the PATH for user: root"),
        _ => panic!(),
    }
}

#[test]
fn missing_directory_and_install_failure() {
    let p = processor("nodir", "bun run build", None);
    let mut c = through_fetch(&p, vec![1; 20], vec![2; 20]);
    next(p.update_step(&mut c, UpdateEvent::DistDir(Ok(true))));
    next(p.update_step(&mut c, UpdateEvent::User(Some("alice".to_string()))));
    next(p.update_step(&mut c, UpdateEvent::BunBinary(Ok(true))));
    next(p.update_step(&mut c, UpdateEvent::Canonical(None)));
    assert_eq!(c.dir, "/srv/site");
    match done(p.update_step(&mut c, UpdateEvent::DirExists(false))) {
        Err(ZlorbError::Other(m)) => assert_eq!(m, "Directory does not exist: /srv/site"),
        _ => panic!(),
    }

    let q = processor("installfail", "bun run build", None);
    let mut c = through_fetch(&q, vec![1; 20], vec![2; 20]);
    next(q.update_step(&mut c, UpdateEvent::DistDir(Ok(true))));
    next(q.update_step(&mut c, UpdateEvent::User(Some("alice".to_string()))));
    next(q.update_step(&mut c, UpdateEvent::BunBinary(Ok(true))));
    next(q.update_step(&mut c, UpdateEvent::Canonical(None)));
    next(q.update_step(&mut c, UpdateEvent::DirExists(true)));
    match done(q.update_step(&mut c, UpdateEvent::Installed(Ok(b"err".to_vec())))) {
        Err(ZlorbError::Other(m)) => assert_eq!(m, "Npm install failed: err"),
        _ => panic!(),
    }
}

#[test]
fn up_to_date_repo_checks_out_dir() {
    let p = processor("uptodate", "bun run build", Some("build"));
    let (mut c, _) = p.begin_update();
    next(p.update_step(&mut c, UpdateEvent::LocalBranch(Ok(Some(vec![9; 20])))));
    next(p.update_step(&mut c, UpdateEvent::Fetched(Ok(()))));
    match next(p.update_step(&mut c, UpdateEvent::Analysis(Ok(flags(true, false))))) {
        UpdateAction::CheckDistDir { path } => assert_eq!(path, "/srv/site/dist"),
        _ => panic!("expected the dist check"),
    }
    assert!(!c.has_updates);
    assert_eq!(c.local_oid, c.remote_oid);
    match next(p.update_step(&mut c, UpdateEvent::DistDir(Ok(true)))) {
        UpdateAction::CheckOutDir { path } => assert_eq!(path, "/srv/site/build"),
        _ => panic!("expected the output directory check"),
    }
    assert!(done(p.update_step(&mut c, UpdateEvent::OutDir(true))).is_ok());

    let q = processor("uptodate-missing", "bun run build", Some("/var/www/out"));
    let (mut c, _) = q.begin_update();
    next(q.update_step(&mut c, UpdateEvent::LocalBranch(Ok(Some(vec![9; 20])))));
    next(q.update_step(&mut c, UpdateEvent::Fetched(Ok(()))));
    next(q.update_step(&mut c, UpdateEvent::Analysis(Ok(flags(true, true)))));
    match next(q.update_step(&mut c, UpdateEvent::DistDir(Ok(true)))) {
        UpdateAction::CheckOutDir { path } => assert_eq!(path, "/var/www/out"),
        _ => panic!(),
    }
    assert!(matches!(next(q.update_step(&mut c, UpdateEvent::OutDir(false))), UpdateAction::ReadUser));
    assert!(c.out_dir_missing);
}

#[test]
fn diverged_branch_is_refused() {
    let p = processor("diverged", "bun run build", None);
    let (mut c, _) = p.begin_update();
    next(p.update_step(&mut c, UpdateEvent::LocalBranch(Ok(Some(vec![1; 20])))));
    next(p.update_step(&mut c, UpdateEvent::Fetched(Ok(()))));
    match done(p.update_step(&mut c, UpdateEvent::Analysis(Ok(flags(false, false))))) {
        Err(ZlorbError::Git(e)) => {
            assert_eq!(e.message(), "Fast-forward only!");
            assert_eq!(e.to_string(), "Fast-forward only!; class=Invalid (3); code=NotFastForward (-11)");
            assert_eq!(e.code(), git2::ErrorCode::NotFastForward);
            assert_eq!(e.class(), git2::ErrorClass::Invalid);
        },
        _ => panic!("expected a git error"),
    }
}

#[test]
fn git_failures_end_the_update() {
    let p = processor("gitfail", "bun run build", None);
    let (mut c, _) = p.begin_update();
    match done(p.update_step(&mut c, UpdateEvent::LocalBranch(Err(git_err("no such branch"))))) {
        Err(ZlorbError::Other(m)) => assert_eq!(m, git_err("no such branch").to_string()),
        _ => panic!(),
    }
    let (mut c, _) = p.begin_update();
    match done(p.update_step(&mut c, UpdateEvent::LocalBranch(Ok(None)))) {
        Err(ZlorbError::Git(e)) => {
            assert_eq!(e.message(), "Failed to get Oid from branch");
            assert_eq!(e.to_string(), "Failed to get Oid from branch; code=NotFound (-3)");
            assert_eq!(e.code(), git2::ErrorCode::NotFound);
        },
        _ => panic!(),
    }
    let (mut c, _) = p.begin_update();
    next(p.update_step(&mut c, UpdateEvent::LocalBranch(Ok(Some(vec![1; 20])))));
    match done(p.update_step(&mut c, UpdateEvent::Fetched(Err(git_err("no remote"))))) {
        Err(ZlorbError::Git(e)) => assert_eq!(e.message(), "no remote"),
        _ => panic!(),
    }
    let mut c = through_fetch(&p, vec![1; 20], vec![2; 20]);
    match done(p.update_step(&mut c, UpdateEvent::DistDir(Err(io_err("denied"))))) {
        Err(ZlorbError::Io(e)) => assert_eq!(e.to_string(), "denied"),
        _ => panic!(),
    }
}

#[test]
fn every_step_moves_forward() {
    let order = [
        UpdatePhase::LocalBranch,
        UpdatePhase::Fetch,
        UpdatePhase::Analysis,
        UpdatePhase::FastForward,
        UpdatePhase::Resolve,
        UpdatePhase::DistDir,
        UpdatePhase::OutDir,
        UpdatePhase::User,
        UpdatePhase::BunBinary,
        UpdatePhase::Canonical,
        UpdatePhase::DirExists,
        UpdatePhase::Install,
        UpdatePhase::Build,
        UpdatePhase::Cargo,
        UpdatePhase::Finished,
    ];
    let rank = |p: UpdatePhase| order.iter().position(|q| *q == p).unwrap();
    let p = processor("forward", "bun run build", Some("out"));
    let (mut c, _) = p.begin_update();
    let events = vec![
        UpdateEvent::LocalBranch(Ok(Some(vec![1; 20]))),
        UpdateEvent::Fetched(Ok(())),
        UpdateEvent::Analysis(Ok(flags(false, true))),
        UpdateEvent::FastForwarded(Ok(())),
        UpdateEvent::Resolved(Ok(vec![1; 20])),
        UpdateEvent::DistDir(Ok(true)),
        UpdateEvent::OutDir(false),
        UpdateEvent::User(Some("alice".to_string())),
        UpdateEvent::BunBinary(Ok(true)),
        UpdateEvent::Canonical(None),
        UpdateEvent::DirExists(true),
        UpdateEvent::Installed(Ok(vec![])),
        UpdateEvent::Built(Ok(BuildStatus { code: Some(0), success: true, stderr: vec![] })),
    ];
    let mut steps = 0;
    for e in events {
        let before = rank(c.phase);
        let step = p.update_step(&mut c, e);
        steps += 1;
        assert!(rank(c.phase) > before);
        assert_eq!(matches!(step, Step::Done(_)), c.phase == UpdatePhase::Finished);
    }
    assert_eq!(c.phase, UpdatePhase::Finished);
    assert!(steps <= 14);
}

#[test]
fn up_to_date_repo_without_dist_is_built() {
    let p = processor("uptodate-nodist", "bun run build", None);
    let (mut c, _) = p.begin_update();
    next(p.update_step(&mut c, UpdateEvent::LocalBranch(Ok(Some(vec![5; 20])))));
    next(p.update_step(&mut c, UpdateEvent::Fetched(Ok(()))));
    next(p.update_step(&mut c, UpdateEvent::Analysis(Ok(flags(true, false)))));
    assert!(matches!(next(p.update_step(&mut c, UpdateEvent::DistDir(Ok(false)))), UpdateAction::ReadUser));
    let q = processor("uptodate-dist", "bun run build", None);
    let (mut c, _) = q.begin_update();
    next(q.update_step(&mut c, UpdateEvent::LocalBranch(Ok(Some(vec![5; 20])))));
    next(q.update_step(&mut c, UpdateEvent::Fetched(Ok(()))));
    next(q.update_step(&mut c, UpdateEvent::Analysis(Ok(flags(true, false)))));
    assert!(done(q.update_step(&mut c, UpdateEvent::DistDir(Ok(true)))).is_ok());
}
