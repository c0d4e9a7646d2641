use zlorb::sync::{FetchAnalysis, Step, UpdateAction, UpdateEvent};
use zlorb::zlorbrs_ctl::daemon::{DaemonManager, ServiceCommand};
use zlorb::zlorbrs_lib::config::RepoConfig;
use zlorb::zlorbrs_lib::error::ZlorbError;
use zlorb::zlorbrs_service::bun::BunManager;
use zlorb::zlorbrs_service::config_manager::ConfigManager;
use zlorb::zlorbrs_service::repo_processor::{RepoProcessor, SyncPhase};
use zlorb::zlorbrs_service::service_coordinator::ServiceCoordinator;

fn processor(tag: &str) -> RepoProcessor {
    let repo = git2::Repository::init(format!("/tmp/zlorbrs-tests/{}", tag)).unwrap();
    let config = RepoConfig::new("site".to_string(), "/srv/site".to_string(), "main".to_string());
    RepoProcessor::new(config, repo)
}

fn next(step: Step<ZlorbError>) -> UpdateAction {
    match step {
        Step::Next(a) => a,
        Step::Done(_) => panic!("expected more work"),
    }
}

#[test]
fn daemon_command_choice() {
    assert_eq!(DaemonManager::start(Ok(true)).ok(), Some(ServiceCommand::Restart));
    assert_eq!(DaemonManager::start(Ok(false)).ok(), Some(ServiceCommand::Start));
    assert_eq!(ServiceCommand::Start.args(), vec!["start", "zlorbrs"]);
    assert_eq!(ServiceCommand::Restart.args(), vec!["restart", "zlorbrs"]);
    assert_eq!(DaemonManager::process_check_args(), vec!["is-active", "--quiet", "zlorbrs"]);
    assert!(DaemonManager::start(Err(ZlorbError::HomeDirNotFound)).is_err());
}

#[test]
fn repo_config_defaults_and_paths() {
    let c = RepoConfig::new("site".to_string(), "/srv/site".to_string(), "main".to_string());
    assert_eq!(c.remote, "origin");
    assert_eq!(c.build_command, "bun run build");
    assert_eq!(RepoConfig::load_path("/home/u", "site"), "/home/u/.config/zlorbrs/configs/site");
    assert_eq!(c.config_dir("/home/u"), "/home/u/.config/zlorbrs/configs/site");
    assert_eq!(c.config_file("/home/u"), "/home/u/.config/zlorbrs/configs/site/config.json");
}

#[test]
fn zlorbrs_config_manager_paths() {
    let m = ConfigManager::new("/home/u".to_string());
    assert_eq!(m.default_config_path(), "/.config/zlorbrs/service-config.json");
    assert_eq!(m.repo_configs_init_path(), "/.config/zlorbrs/configs");
    assert_eq!(m.service_config_path(), "/home/u/.config/zlorbrs/service-config.json");
    assert_eq!(ConfigManager::configs_dir_path("/home/u"), "/home/u/.config/zlorbrs/configs");
    assert_eq!(ConfigManager::entry_config_path("/home/u/.config/zlorbrs/configs/a"), "/home/u/.config/zlorbrs/configs/a/config.json");
    assert_eq!(m.repo_config_path("site"), "/home/u/.config/zlorbrs/configs/site/config.json");
    match ConfigManager::parse_failure() {
        ZlorbError::ConfigParseError(m) => assert_eq!(m, "Failed to convert config file to json string"),
        _ => panic!(),
    }
}

#[test]
fn bun_verdicts() {
    let b = BunManager {};
    assert!(b.build_result(Some(0)).is_ok());
    assert!(b.build_result(Some(2)).is_ok());
    assert!(b.build_result(None).is_ok());
    match b.build_result(Some(1)) {
        Err(ZlorbError::Other(m)) => assert_eq!(m, "build returned status code 1 resulting in failure"),
        _ => panic!(),
    }
    assert!(b.install_result(&vec![]).is_ok());
    assert!(b.install_result(&b"x".to_vec()).is_err());
}

#[test]
fn coordinator_first_round_does_not_sleep() {
    let mut s = ServiceCoordinator::new(ConfigManager::new("/home/u".to_string()));
    assert!(!s.repos_loaded());
    assert_eq!(s.wait_for_run(), None);
    let repos = vec![processor("coordinated")];
    s.load_configs(repos, zlorb::zlorb_service::service_config::ServiceConfig::default());
    assert!(s.repos_loaded());
    assert!(s.ready_to_wait());
    assert_eq!(s.repos().len(), 1);
    assert_eq!(s.repos()[0].config.name, "site");
    assert_eq!(s.wait_for_run(), Some(5));
    assert_eq!(s.repos().len(), 1);
}

#[test]
fn up_to_date_repo_checks_dist_first() {
    let p = processor("uptodate");
    let (mut c, _) = p.begin_update();
    next(p.update_step(&mut c, UpdateEvent::LocalBranch(Ok(Some(vec![1; 20])))));
    next(p.update_step(&mut c, UpdateEvent::Fetched(Ok(()))));
    let flags = || FetchAnalysis { up_to_date: true, fast_forward: false, commit: vec![1; 20] };
    match next(p.update_step(&mut c, UpdateEvent::Analysis(Ok(flags())))) {
        UpdateAction::CheckDistDir { path } => assert_eq!(path, "/srv/site/dist"),
        _ => panic!(),
    }
    assert!(matches!(p.update_step(&mut c, UpdateEvent::DistDir(Ok(true))), Step::Done(Ok(()))));
    assert_eq!(c.phase, SyncPhase::Finished);

    let q = processor("uptodate-nodist");
    let (mut c, _) = q.begin_update();
    next(q.update_step(&mut c, UpdateEvent::LocalBranch(Ok(Some(vec![1; 20])))));
    next(q.update_step(&mut c, UpdateEvent::Fetched(Ok(()))));
    next(q.update_step(&mut c, UpdateEvent::Analysis(Ok(flags()))));
    match next(q.update_step(&mut c, UpdateEvent::DistDir(Ok(false)))) {
        UpdateAction::RunBuildCommand { dir, command } => {
            assert_eq!(dir, "/srv/site");
            assert_eq!(command, "bun run build");
        },
        _ => panic!(),
    }
    assert!(matches!(q.update_step(&mut c, UpdateEvent::BuildCommandRan), Step::Done(Ok(()))));
}

#[test]
fn diverged_branch_error_text() {
    let p = processor("diverged");
    let (mut c, _) = p.begin_update();
    next(p.update_step(&mut c, UpdateEvent::LocalBranch(Ok(Some(vec![1; 20])))));
    next(p.update_step(&mut c, UpdateEvent::Fetched(Ok(()))));
    let flags = || FetchAnalysis { up_to_date: false, fast_forward: false, commit: vec![2; 20] };
    match p.update_step(&mut c, UpdateEvent::Analysis(Ok(flags()))) {
        Step::Done(Err(ZlorbError::Git(e))) => {
            assert_eq!(e.to_string(), "Fast-forward only!; class=Invalid (3); code=NotFastForward (-11)")
        },
        _ => panic!(),
    }
}

#[test]
fn fast_forwarded_repo_checks_dist_inside() {
    let p = processor("ff");
    let (mut c, _) = p.begin_update();
    next(p.update_step(&mut c, UpdateEvent::LocalBranch(Ok(Some(vec![1; 20])))));
    next(p.update_step(&mut c, UpdateEvent::Fetched(Ok(()))));
    let flags = || FetchAnalysis { up_to_date: false, fast_forward: true, commit: vec![3; 20] };
    match next(p.update_step(&mut c, UpdateEvent::Analysis(Ok(flags())))) {
        UpdateAction::FastForward { reference, target } => {
            assert_eq!(reference, "refs/heads/main");
            assert_eq!(target, vec![3; 20]);
        },
        _ => panic!(),
    }
    next(p.update_step(&mut c, UpdateEvent::FastForwarded(Ok(()))));
    match next(p.update_step(&mut c, UpdateEvent::Resolved(Ok(vec![1; 20])))) {
        UpdateAction::CheckDistDir { path } => assert_eq!(path, "/srv/site/dist"),
        _ => panic!(),
    }
    assert!(matches!(p.update_step(&mut c, UpdateEvent::DistDir(Ok(true))), Step::Done(Ok(()))));
}
