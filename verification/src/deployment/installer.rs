//! The fwup-based firmware installer's settings.
use crate::text::{copy_strings, string_texts};
use crate::text::owned;
use crate::config::{list_or_empty, text_or, Config};
use vstd::prelude::*;

verus! {

/// Applies firmware with the `fwup` command line tool.
#[derive(Debug, Clone)]
pub struct FwupInstaller {
    devpath: String,
    task: String,
    public_keys: Vec<String>,
}

/// The settings of a `FwupInstaller`.
pub struct FwupInstallerView {
    pub devpath: Seq<char>,
    pub task: Seq<char>,
    pub public_keys: Seq<Seq<char>>,
}

impl View for FwupInstaller {
    type V = FwupInstallerView;

    closed spec fn view(&self) -> FwupInstallerView {
        FwupInstallerView {
            devpath: self.devpath@,
            task: self.task@,
            public_keys: string_texts(self.public_keys@),
        }
    }
}

impl FwupInstaller {
    /// An installer for `devpath` and `task`, with no signing keys.
    pub fn new(devpath: &str, task: &str) -> (r: FwupInstaller)
        ensures
            r@ == (FwupInstallerView { devpath: devpath@, task: task@, public_keys: Seq::empty() }),
    {
        let r = FwupInstaller { devpath: owned(devpath), task: owned(task), public_keys: Vec::new() };
        assert(r@.public_keys =~= Seq::<Seq<char>>::empty());
        r
    }

    /// The installer of a configuration: its fwup device path and task, and
    /// the configured firmware signing keys, in order (none when none are
    /// configured).
    pub fn from_config(config: &Config) -> (r: FwupInstaller)
        ensures
            r@ == (FwupInstallerView {
                devpath: text_or(config.fwup_devpath, "/dev/mmcblk0"@),
                task: text_or(config.fwup_task, "upgrade"@),
                public_keys: string_texts(list_or_empty(config.fwup_public_keys)),
            }),
    {
        let keys = copy_strings(config.fwup_public_keys());
        FwupInstaller::new(config.fwup_devpath(), config.fwup_task()).with_public_keys(keys)
    }

    /// The same installer, verifying firmware against `public_keys`.
    pub fn with_public_keys(self, public_keys: Vec<String>) -> (r: FwupInstaller)
        ensures
            r@ == (FwupInstallerView { public_keys: string_texts(public_keys@), ..self@ }),
    {
        FwupInstaller { public_keys, ..self }
    }

    /// The device path fwup writes to.
    pub fn devpath(&self) -> (r: &str)
        ensures
            r@ == self@.devpath,
    {
        self.devpath.as_str()
    }

    /// The fwup task.
    pub fn task(&self) -> (r: &str)
        ensures
            r@ == self@.task,
    {
        self.task.as_str()
    }

    /// The firmware signing keys.
    pub fn public_keys(&self) -> (r: &[String])
        ensures
            string_texts(r@) == self@.public_keys,
    {
        self.public_keys.as_slice()
    }
}

} // verus!
