//! The primary orchestrator of zlorbrs: its state, and the pacing of its rounds.
use vstd::prelude::*;
use crate::zlorb_service::service_config::ServiceConfig;
use crate::zlorbrs_service::config_manager::ConfigManager;
use crate::zlorbrs_service::repo_processor::RepoProcessor;

verus! {

/// Manages the system's global state and the continuous operation loop.
pub struct ServiceCoordinator {
    service_config: Option<ServiceConfig>,
    repo_configs: Option<Vec<RepoProcessor>>,
    first_run_flag: bool,
    config_manager: ConfigManager,
}

impl ServiceCoordinator {
    /// No round has run yet.
    pub closed spec fn is_first_run(&self) -> bool {
        self.first_run_flag
    }

    /// The settings the coordinator holds, if any.
    pub closed spec fn settings(&self) -> Option<ServiceConfig> {
        self.service_config
    }

    /// The repositories the coordinator holds, if any.
    pub closed spec fn repo_list(&self) -> Option<Vec<RepoProcessor>> {
        self.repo_configs
    }

    /// Whether the coordinator holds the repositories to update.
    pub open spec fn has_repos(&self) -> bool {
        self.repo_list() is Some
    }

    /// A coordinator before its first round, holding neither settings nor repositories.
    pub fn new(config_manager: ConfigManager) -> (r: Self)
        ensures
            r.is_first_run(),
            r.settings() is None,
            !r.has_repos(),
            r.manager().home() == config_manager.home(),
    {
        ServiceCoordinator { service_config: None, repo_configs: None, first_run_flag: true, config_manager }
    }

    /// The configuration manager.
    pub closed spec fn manager(&self) -> ConfigManager {
        self.config_manager
    }

    /// The configuration manager.
    pub fn config_manager(&self) -> (r: &ConfigManager)
        ensures
            *r == self.manager(),
    {
        &self.config_manager
    }

    /// Keeps the loaded repositories and settings in memory, so that the rounds need not go
    /// back to the file system; a repository added later takes a restart.
    pub fn load_configs(&mut self, repo_configs: Vec<RepoProcessor>, service_config: ServiceConfig)
        ensures
            final(self).repo_list() == Some(repo_configs),
            final(self).settings() == Some(service_config),
            final(self).is_first_run() == old(self).is_first_run(),
            final(self).manager() == old(self).manager(),
    {
        self.repo_configs = Some(repo_configs);
        self.service_config = Some(service_config);
    }

    /// Paces the loop: the first round starts at once (`None`) and marks the first run done;
    /// every later round first sleeps for the configured number of seconds.
    pub fn wait_for_run(&mut self) -> (r: Option<u64>)
        requires
            !old(self).is_first_run() ==> old(self).settings() is Some,
        ensures
            old(self).is_first_run() ==> r is None,
            !old(self).is_first_run() ==> r == Some(old(self).settings().unwrap().sleep_time),
            !final(self).is_first_run(),
            final(self).settings() == old(self).settings(),
            final(self).repo_list() == old(self).repo_list(),
            final(self).manager() == old(self).manager(),
    {
        if !self.first_run_flag {
            match &self.service_config {
                Some(c) => Some(c.sleep_time),
                None => None,
            }
        } else {
            self.first_run_flag = false;
            None
        }
    }

    /// Whether `wait_for_run` can pace the next round: it is the first one, or the
    /// coordinator holds its settings.
    pub fn ready_to_wait(&self) -> (r: bool)
        ensures
            r == (self.is_first_run() || self.settings() is Some),
    {
        self.first_run_flag || self.service_config.is_some()
    }

    /// Whether the coordinator holds the repositories to update.
    pub fn repos_loaded(&self) -> (r: bool)
        ensures
            r == self.has_repos(),
    {
        self.repo_configs.is_some()
    }

    /// The repositories that a round updates.
    pub fn repos(&self) -> (r: &Vec<RepoProcessor>)
        requires
            self.has_repos(),
        ensures
            self.repo_list() == Some(*r),
    {
        self.repo_configs.as_ref().unwrap()
    }
}

} // verus!
