//! The run configuration: the settings that the orchestrator, the deploy
//! and the agent interface read.
use vstd::prelude::*;
use crate::cleanup::CleanupPolicy;

verus! {

/// The project a run works on.
#[derive(Debug, Clone, PartialEq, Eq)]
pub struct ProjectConfig {
    pub repository: String,
}

/// Where run artifacts go.
#[derive(Debug, Clone, PartialEq, Eq)]
pub struct PathConfig {
    pub artifacts_dir: String,
    pub downloads_dir_env: String,
}

/// How the browser tabs are driven.
#[derive(Debug, Clone, PartialEq, Eq)]
pub struct BrowserConfig {
    pub tabs: u16,
    pub chat_url: String,
    pub model: String,
    pub profile_dir_env: String,
    pub state_dir_env: String,
    pub tar_wait_minutes: u16,
    pub submit_delay_seconds: u16,
    pub submit_jitter_seconds: u16,
    pub completion_check_seconds: u16,
    pub poll_interval_seconds: u16,
}

/// How a downloaded archive is deployed.
#[derive(Debug, Clone, PartialEq, Eq)]
pub struct DeployConfig {
    pub enabled: bool,
    pub dry_run: bool,
    pub remote_host_env: String,
    pub remote_dir_env: String,
    pub remote_command_env: String,
    pub remote_strip_components: u16,
    pub remote_cleanup_policy: CleanupPolicy,
    pub remote_status_poll_seconds: u16,
}

/// How the source archive is uploaded to a tab.
#[derive(Debug, Clone, PartialEq, Eq)]
pub struct SourceArchiveConfig {
    pub enabled: bool,
    pub repo_url_env: String,
    pub ref_name: String,
    pub prefix: String,
    pub archive_filename: String,
    pub delete_after_upload: bool,
}

/// How tool prompts in the chat are answered.
#[derive(Debug, Clone, PartialEq, Eq)]
pub struct PromptPolicy {
    pub deny_github_write_by_default: bool,
    pub allow_info_prompts: bool,
    pub allowed_repositories: Vec<String>,
}

/// The whole configuration.
#[derive(Debug, Clone, PartialEq, Eq)]
pub struct JailgunConfig {
    pub project: ProjectConfig,
    pub paths: PathConfig,
    pub browser: BrowserConfig,
    pub deploy: DeployConfig,
    pub source_archive: SourceArchiveConfig,
    pub prompt_policy: PromptPolicy,
}

impl JailgunConfig {
    /// A copy of the configuration, setting for setting.
    pub fn duplicate(&self) -> (r: JailgunConfig)
        ensures
            r.project == self.project,
            r.paths == self.paths,
            r.browser == self.browser,
            r.deploy == self.deploy,
            r.source_archive == self.source_archive,
            r.prompt_policy.deny_github_write_by_default == self.prompt_policy.deny_github_write_by_default,
            r.prompt_policy.allow_info_prompts == self.prompt_policy.allow_info_prompts,
            r.prompt_policy.allowed_repositories@ == self.prompt_policy.allowed_repositories@,
    {
        let mut repos: Vec<String> = Vec::new();
        let mut i: usize = 0;
        while i < self.prompt_policy.allowed_repositories.len()
            invariant
                i <= self.prompt_policy.allowed_repositories.len(),
                repos@ == self.prompt_policy.allowed_repositories@.take(i as int),
            decreases self.prompt_policy.allowed_repositories.len() - i,
        {
            repos.push(self.prompt_policy.allowed_repositories[i].clone());
            assert(repos@ =~= self.prompt_policy.allowed_repositories@.take(i + 1));
            i += 1;
        }
        assert(self.prompt_policy.allowed_repositories@.take(self.prompt_policy.allowed_repositories@.len() as int)
            == self.prompt_policy.allowed_repositories@);
        JailgunConfig {
            project: ProjectConfig { repository: self.project.repository.clone() },
            paths: PathConfig {
                artifacts_dir: self.paths.artifacts_dir.clone(),
                downloads_dir_env: self.paths.downloads_dir_env.clone(),
            },
            browser: BrowserConfig {
                tabs: self.browser.tabs,
                chat_url: self.browser.chat_url.clone(),
                model: self.browser.model.clone(),
                profile_dir_env: self.browser.profile_dir_env.clone(),
                state_dir_env: self.browser.state_dir_env.clone(),
                tar_wait_minutes: self.browser.tar_wait_minutes,
                submit_delay_seconds: self.browser.submit_delay_seconds,
                submit_jitter_seconds: self.browser.submit_jitter_seconds,
                completion_check_seconds: self.browser.completion_check_seconds,
                poll_interval_seconds: self.browser.poll_interval_seconds,
            },
            deploy: DeployConfig {
                enabled: self.deploy.enabled,
                dry_run: self.deploy.dry_run,
                remote_host_env: self.deploy.remote_host_env.clone(),
                remote_dir_env: self.deploy.remote_dir_env.clone(),
                remote_command_env: self.deploy.remote_command_env.clone(),
                remote_strip_components: self.deploy.remote_strip_components,
                remote_cleanup_policy: self.deploy.remote_cleanup_policy,
                remote_status_poll_seconds: self.deploy.remote_status_poll_seconds,
            },
            source_archive: SourceArchiveConfig {
                enabled: self.source_archive.enabled,
                repo_url_env: self.source_archive.repo_url_env.clone(),
                ref_name: self.source_archive.ref_name.clone(),
                prefix: self.source_archive.prefix.clone(),
                archive_filename: self.source_archive.archive_filename.clone(),
                delete_after_upload: self.source_archive.delete_after_upload,
            },
            prompt_policy: PromptPolicy {
                deny_github_write_by_default: self.prompt_policy.deny_github_write_by_default,
                allow_info_prompts: self.prompt_policy.allow_info_prompts,
                allowed_repositories: repos,
            },
        }
    }
}

} // verus!
