//! Firmware deployments: request payloads, download bookkeeping, the fwup
//! invocation and progress reporting.
pub mod checksum;
pub mod download;
pub mod fwup;
pub mod installer;
pub mod report;
pub mod runner;
pub mod types;

use crate::text::{concat, decimal, owned, u64_decimal};
use vstd::prelude::*;

verus! {

/// Why a deployment did not complete.
#[derive(Debug)]
pub enum DeploymentError {
    Download(String),
    Fwup(String),
    InvalidMessage(String),
    /// A file-system error, with the error's text.
    Io(String),
    /// The server sent an `update` whose `update_available` is `false`.
    NoUpdateAvailable,
    /// The downloaded byte count differs from the announced size.
    SizeMismatch { expected: u64, actual: u64 },
    /// The downloaded bytes do not hash to the announced checksum.
    ChecksumMismatch { expected: String, actual: String },
}

/// The reason text reported in a failed `status_update`.
pub open spec fn status_reason_text(e: DeploymentError) -> Seq<char> {
    match e {
        DeploymentError::Download(r) => "Download failed: "@ + r@,
        DeploymentError::Fwup(r) => "FWUP error: "@ + r@,
        DeploymentError::InvalidMessage(r) => "Invalid deployment message: "@ + r@,
        DeploymentError::Io(r) => "Deployment IO error: "@ + r@,
        DeploymentError::NoUpdateAvailable => "No update available"@,
        DeploymentError::SizeMismatch { expected, actual } => "Download failed: size mismatch: expected "@
            + decimal(expected as nat) + " bytes, got "@ + decimal(actual as nat),
        DeploymentError::ChecksumMismatch { expected, actual } =>
            "Download failed: checksum mismatch: expected "@ + expected@ + ", got "@ + actual@,
    }
}

impl DeploymentError {
    /// The reason text reported to the server.
    pub fn status_reason(&self) -> (r: String)
        ensures
            r@ == status_reason_text(*self),
    {
        match self {
            DeploymentError::Download(reason) => concat("Download failed: ", reason.as_str()),
            DeploymentError::Fwup(reason) => concat("FWUP error: ", reason.as_str()),
            DeploymentError::InvalidMessage(reason) => concat(
                "Invalid deployment message: ",
                reason.as_str(),
            ),
            DeploymentError::Io(error) => concat("Deployment IO error: ", error.as_str()),
            DeploymentError::NoUpdateAvailable => owned("No update available"),
            DeploymentError::SizeMismatch { expected, actual } => {
                let mut r = owned("Download failed: size mismatch: expected ");
                r.append(u64_decimal(*expected).as_str());
                r.append(" bytes, got ");
                r.append(u64_decimal(*actual).as_str());
                r
            },
            DeploymentError::ChecksumMismatch { expected, actual } => {
                let mut r = owned("Download failed: checksum mismatch: expected ");
                r.append(expected.as_str());
                r.append(", got ");
                r.append(actual.as_str());
                r
            },
        }
    }
}

/// The `Display` text of a deployment error.
pub open spec fn deployment_error_text(e: DeploymentError) -> Seq<char> {
    match e {
        DeploymentError::Download(r) => "download failed: "@ + r@,
        DeploymentError::Fwup(r) => "fwup failed: "@ + r@,
        DeploymentError::InvalidMessage(r) => "invalid deployment message: "@ + r@,
        DeploymentError::Io(r) => "io error: "@ + r@,
        DeploymentError::NoUpdateAvailable => "no update available"@,
        DeploymentError::SizeMismatch { expected, actual } => "size mismatch: expected "@
            + decimal(expected as nat) + " bytes, got "@ + decimal(actual as nat),
        DeploymentError::ChecksumMismatch { expected, actual } => "checksum mismatch: expected "@
            + expected@ + ", got "@ + actual@,
    }
}

impl DeploymentError {
    /// The error's message (its `Display` text).
    pub fn message(&self) -> (r: String)
        ensures
            r@ == deployment_error_text(*self),
    {
        match self {
            DeploymentError::Download(reason) => concat("download failed: ", reason.as_str()),
            DeploymentError::Fwup(reason) => concat("fwup failed: ", reason.as_str()),
            DeploymentError::InvalidMessage(reason) => concat("invalid deployment message: ", reason.as_str()),
            DeploymentError::Io(error) => concat("io error: ", error.as_str()),
            DeploymentError::NoUpdateAvailable => owned("no update available"),
            DeploymentError::SizeMismatch { expected, actual } => {
                let mut r = owned("size mismatch: expected ");
                r.append(u64_decimal(*expected).as_str());
                r.append(" bytes, got ");
                r.append(u64_decimal(*actual).as_str());
                r
            },
            DeploymentError::ChecksumMismatch { expected, actual } => {
                let mut r = owned("checksum mismatch: expected ");
                r.append(expected.as_str());
                r.append(", got ");
                r.append(actual.as_str());
                r
            },
        }
    }
}

} // verus!
