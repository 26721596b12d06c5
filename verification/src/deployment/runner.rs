//! Deployment run settings and the events a run reports.
use crate::config::{text_or, Config};
use vstd::prelude::*;

verus! {

/// Where a deployment run keeps its files.
#[derive(Debug, Clone)]
pub struct DeploymentOptions {
    pub data_dir: String,
}

impl DeploymentOptions {
    /// The options of a configuration: its data directory.
    pub fn from_config(config: &Config) -> (r: DeploymentOptions)
        ensures
            r.data_dir@ == text_or(config.data_dir, "/tmp/link"@),
    {
        DeploymentOptions { data_dir: config.data_dir() }
    }
}

/// What a deployment run reports while it works.
#[derive(Debug)]
pub enum DeploymentEvent {
    /// Download progress in percent.
    DownloadProgress(u8),
    /// The firmware is downloaded to this path.
    FirmwareDownloaded(String),
}

} // verus!
