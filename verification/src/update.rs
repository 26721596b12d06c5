//! The earlier update path: its errors, options, progress events and the
//! fwup installer settings.
use crate::text::{concat, owned};
use vstd::prelude::*;

verus! {

/// Why an update did not complete.
#[derive(Debug)]
pub enum UpdateError {
    Download(String),
    Fwup(String),
    InvalidMessage(String),
    /// A file-system error, with the error's text.
    Io(String),
}

/// The reason text reported in a failed `status_update`.
pub open spec fn update_reason_text(e: UpdateError) -> Seq<char> {
    match e {
        UpdateError::Download(r) => "Download failed: "@ + r@,
        UpdateError::Fwup(r) => "FWUP error: "@ + r@,
        UpdateError::InvalidMessage(r) => "Invalid update message: "@ + r@,
        UpdateError::Io(r) => "Update IO error: "@ + r@,
    }
}

impl UpdateError {
    /// The reason text reported to the server.
    pub fn status_reason(&self) -> (r: String)
        ensures
            r@ == update_reason_text(*self),
    {
        match self {
            UpdateError::Download(reason) => concat("Download failed: ", reason.as_str()),
            UpdateError::Fwup(reason) => concat("FWUP error: ", reason.as_str()),
            UpdateError::InvalidMessage(reason) => concat("Invalid update message: ", reason.as_str()),
            UpdateError::Io(error) => concat("Update IO error: ", error.as_str()),
        }
    }
}

/// Where updates are downloaded.
#[derive(Debug, Clone)]
pub struct ApplyOptions {
    pub data_dir: String,
}

/// Progress of an update run.
#[derive(Debug)]
pub enum UpdateRunEvent {
    DownloadProgress(u8),
    /// The path of the downloaded firmware file.
    FirmwareDownloaded(String),
}

/// Applies firmware with fwup to a device path with a task.
#[derive(Debug, Clone)]
pub struct FwupInstaller {
    devpath: String,
    task: String,
}

impl FwupInstaller {
    /// The device path written to.
    pub closed spec fn devpath_text(&self) -> Seq<char> {
        self.devpath@
    }

    /// The fwup task run.
    pub closed spec fn task_text(&self) -> Seq<char> {
        self.task@
    }

    /// An installer for `devpath` running `task`.
    pub fn new(devpath: &str, task: &str) -> (r: FwupInstaller)
        ensures
            r.devpath_text() == devpath@,
            r.task_text() == task@,
    {
        FwupInstaller { devpath: owned(devpath), task: owned(task) }
    }

    /// The device path written to.
    pub fn devpath(&self) -> (r: &str)
        ensures
            r@ == self.devpath_text(),
    {
        self.devpath.as_str()
    }

    /// The fwup task run.
    pub fn task(&self) -> (r: &str)
        ensures
            r@ == self.task_text(),
    {
        self.task.as_str()
    }
}

} // verus!
