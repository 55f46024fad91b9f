//! Deploy jobs waiting in a run's queue: each is a cleanup of the remote
//! checkout followed by a deploy of the downloaded archive.
use vstd::prelude::*;
use crate::cleanup::{CleanupPolicy, CleanupRequest};
use crate::deploy::DeployRequest;

verus! {

/// One archive to deploy, with everything its cleanup and deploy need.
#[derive(Debug, Clone, PartialEq, Eq)]
pub struct DeployJob {
    pub run_id: String,
    pub tab_id: u16,
    pub archive_path: String,
    pub remote_host: String,
    pub remote_dir: String,
    pub remote_command: String,
    pub remote_archive_basename: String,
    pub strip_components: u16,
    pub cleanup_policy: CleanupPolicy,
    pub receipt_dir: String,
    pub status_poll_seconds: u16,
    pub status_max_minutes: u16,
    pub ci_tracker_enabled: bool,
    pub ci_branch: String,
    pub ci_max_attempts: u32,
    pub ci_poll_seconds: u16,
    pub stash_on_failure: bool,
    pub dry_run: bool,
}

impl DeployJob {
    /// The cleanup that comes first: the job's tab, host, directory,
    /// policy and receipt directory.
    pub fn cleanup_request(&self) -> (r: CleanupRequest)
        ensures
            r.run_id == self.run_id,
            r.tab_id == Some(self.tab_id),
            r.remote_host == self.remote_host,
            r.remote_dir == self.remote_dir,
            r.policy == self.cleanup_policy,
            r.receipt_dir == self.receipt_dir,
    {
        CleanupRequest {
            run_id: self.run_id.clone(),
            tab_id: Some(self.tab_id),
            remote_host: self.remote_host.clone(),
            remote_dir: self.remote_dir.clone(),
            policy: self.cleanup_policy,
            receipt_dir: self.receipt_dir.clone(),
        }
    }

    /// The deploy that follows: every setting of the job.
    pub fn deploy_request(&self) -> (r: DeployRequest)
        ensures
            r.run_id == self.run_id,
            r.tab_id == self.tab_id,
            r.remote_host == self.remote_host,
            r.remote_dir == self.remote_dir,
            r.remote_command == self.remote_command,
            r.remote_archive_basename == self.remote_archive_basename,
            r.local_archive_path == self.archive_path,
            r.strip_components == self.strip_components,
            r.cleanup_policy == self.cleanup_policy,
            r.receipt_dir == self.receipt_dir,
            r.status_poll_seconds == self.status_poll_seconds,
            r.status_max_minutes == self.status_max_minutes,
            r.ci_tracker_enabled == self.ci_tracker_enabled,
            r.ci_branch == self.ci_branch,
            r.ci_max_attempts == self.ci_max_attempts,
            r.ci_poll_seconds == self.ci_poll_seconds,
            r.stash_on_failure == self.stash_on_failure,
            r.dry_run == self.dry_run,
    {
        DeployRequest {
            run_id: self.run_id.clone(),
            tab_id: self.tab_id,
            remote_host: self.remote_host.clone(),
            remote_dir: self.remote_dir.clone(),
            remote_command: self.remote_command.clone(),
            remote_archive_basename: self.remote_archive_basename.clone(),
            local_archive_path: self.archive_path.clone(),
            strip_components: self.strip_components,
            cleanup_policy: self.cleanup_policy,
            receipt_dir: self.receipt_dir.clone(),
            status_poll_seconds: self.status_poll_seconds,
            status_max_minutes: self.status_max_minutes,
            ci_tracker_enabled: self.ci_tracker_enabled,
            ci_branch: self.ci_branch.clone(),
            ci_max_attempts: self.ci_max_attempts,
            ci_poll_seconds: self.ci_poll_seconds,
            stash_on_failure: self.stash_on_failure,
            dry_run: self.dry_run,
        }
    }
}

} // verus!
