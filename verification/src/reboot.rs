//! When the device reboots, and with which command.
use crate::config::{list_or_empty, text_or, RebootConfig};
use crate::text::string_texts;
use crate::text::owned;
use vstd::prelude::*;

verus! {

/// Why a reboot is requested.
#[derive(Debug, Clone, Copy, PartialEq, Eq, Structural)]
pub enum RebootReason {
    ServerRequested,
    FirmwareApplied,
}

/// Why running the reboot command failed.
#[derive(Debug)]
pub enum RebootError {
    /// The command could not be started; the text of the OS error.
    Spawn { command: String, source: String },
    /// The command exited unsuccessfully.
    Command { command: String, status: String, output: String },
}

/// Reboots by running a command.
#[derive(Debug, Clone)]
pub struct CommandRebooter {
    command: String,
    args: Vec<String>,
}

impl CommandRebooter {
    /// A rebooter that runs `command` with `args`.
    pub fn new(command: &str, args: Vec<String>) -> (r: CommandRebooter)
        ensures
            r.command_text() == command@,
            r.arg_texts() == string_texts(args@),
    {
        CommandRebooter { command: owned(command), args }
    }

    /// The system `reboot` command without arguments.
    pub fn system() -> (r: CommandRebooter)
        ensures
            r.command_text() == "reboot"@,
            r.arg_texts().len() == 0,
    {
        let r = CommandRebooter::new("reboot", Vec::new());
        assert(r.arg_texts() =~= Seq::<Seq<char>>::empty());
        r
    }

    /// The command's text.
    pub closed spec fn command_text(&self) -> Seq<char> {
        self.command@
    }

    /// The arguments' texts.
    pub closed spec fn arg_texts(&self) -> Seq<Seq<char>> {
        string_texts(self.args@)
    }

    /// The command.
    pub fn command(&self) -> (r: &str)
        ensures
            r@ == self.command_text(),
    {
        self.command.as_str()
    }

    /// The arguments.
    pub fn args(&self) -> (r: &[String])
        ensures
            string_texts(r@) == self.arg_texts(),
    {
        self.args.as_slice()
    }
}

/// Whether a rebooter is installed and for which reasons it may run.
#[derive(Debug, Clone, Copy)]
pub struct RebootController {
    pub has_rebooter: bool,
    pub after_firmware_apply: bool,
    pub on_server_request: bool,
}

/// Whether the policy allows a reboot for `reason`.
pub open spec fn reboot_allowed(c: RebootController, reason: RebootReason) -> bool {
    match reason {
        RebootReason::ServerRequested => c.on_server_request,
        RebootReason::FirmwareApplied => c.after_firmware_apply,
    }
}

impl RebootController {
    /// The policy of an optional `[reboot]` section, and the command rebooter
    /// it configures: none unless the section is present and enabled.
    pub fn from_config(config: Option<&RebootConfig>) -> (r: (RebootController, Option<CommandRebooter>))
        ensures
            r.0.has_rebooter == r.1 is Some,
            r.1 is Some <==> (config matches Some(c) && c.enabled == Some(true)),
            r.1 is Some ==> (config matches Some(c) && r.0.after_firmware_apply == (
            c.after_firmware_apply != Some(false)) && r.0.on_server_request == (c.on_server_request
                != Some(false)) && r.1->0.command_text() == text_or(c.command, "reboot"@)
                && r.1->0.arg_texts() == string_texts(list_or_empty(c.args))),
            r.1 is None ==> !r.0.after_firmware_apply && !r.0.on_server_request,
    {
        let config = match config {
            Some(c) => c,
            None => {
                return (RebootController::disabled(), None);
            },
        };
        if !config.enabled() {
            return (RebootController::disabled(), None);
        }
        let rebooter = CommandRebooter::new(config.command(), crate::text::copy_strings(config.args()));
        (
            RebootController {
                has_rebooter: true,
                after_firmware_apply: config.after_firmware_apply(),
                on_server_request: config.on_server_request(),
            },
            Some(rebooter),
        )
    }

    /// The policy of a rebooter set by the caller: reboots for every reason.
    pub fn with_rebooter() -> (r: RebootController)
        ensures
            r.has_rebooter && r.after_firmware_apply && r.on_server_request,
    {
        RebootController { has_rebooter: true, after_firmware_apply: true, on_server_request: true }
    }

    /// No rebooter, no reboots.
    pub fn disabled() -> (r: RebootController)
        ensures
            !r.has_rebooter && !r.after_firmware_apply && !r.on_server_request,
    {
        RebootController { has_rebooter: false, after_firmware_apply: false, on_server_request: false }
    }

    /// Turns reboots off.
    pub fn disable(&mut self)
        ensures
            *final(self) == RebootController::disabled_value(),
    {
        *self = RebootController::disabled();
    }

    /// The disabled policy.
    pub open spec fn disabled_value() -> RebootController {
        RebootController { has_rebooter: false, after_firmware_apply: false, on_server_request: false }
    }

    /// The policy of a rebooter set by the caller.
    pub open spec fn with_rebooter_value() -> RebootController {
        RebootController { has_rebooter: true, after_firmware_apply: true, on_server_request: true }
    }

    /// Installs a rebooter set by the caller.
    pub fn set_rebooter(&mut self)
        ensures
            *final(self) == RebootController::with_rebooter_value(),
    {
        *self = RebootController::with_rebooter();
    }

    /// Whether the policy allows a reboot for `reason`.
    pub fn allows(&self, reason: RebootReason) -> (r: bool)
        ensures
            r == reboot_allowed(*self, reason),
    {
        match reason {
            RebootReason::ServerRequested => self.on_server_request,
            RebootReason::FirmwareApplied => self.after_firmware_apply,
        }
    }

    /// Whether a reboot for `reason` will run: a rebooter is installed and
    /// the policy allows it.
    pub fn is_enabled_for(&self, reason: RebootReason) -> (r: bool)
        ensures
            r == (self.has_rebooter && reboot_allowed(*self, reason)),
    {
        self.has_rebooter && self.allows(reason)
    }
}

/// The `Display` text of a reboot error.
pub open spec fn reboot_error_text(e: RebootError) -> Seq<char> {
    match e {
        RebootError::Spawn { command, source } => "failed to start reboot command `"@ + command@ + "`: "@ + source@,
        RebootError::Command { command, status, output } => "reboot command `"@ + command@
            + "` failed with status "@ + status@ + ": "@ + output@,
    }
}

impl RebootError {
    /// The error's message (its `Display` text).
    pub fn message(&self) -> (r: String)
        ensures
            r@ == reboot_error_text(*self),
    {
        match self {
            RebootError::Spawn { command, source } => {
                let mut r = owned("failed to start reboot command `");
                r.append(command.as_str());
                r.append("`: ");
                r.append(source.as_str());
                r
            },
            RebootError::Command { command, status, output } => {
                let mut r = owned("reboot command `");
                r.append(command.as_str());
                r.append("` failed with status ");
                r.append(status.as_str());
                r.append(": ");
                r.append(output.as_str());
                r
            },
        }
    }
}

/// The output reported for a failed reboot or identify command: its
/// standard error, or its standard output when standard error is empty, each
/// decoded leniently and trimmed.
pub open spec fn failure_output_text(stdout: Seq<u8>, stderr: Seq<u8>) -> Seq<char> {
    let err = crate::text::trim(crate::scripts::utf8_lossy(stderr));
    if err.len() == 0 {
        crate::text::trim(crate::scripts::utf8_lossy(stdout))
    } else {
        err
    }
}

/// The output reported for a failed reboot or identify command.
pub fn command_failure_output(stdout: &[u8], stderr: &[u8]) -> (r: String)
    ensures
        r@ == failure_output_text(stdout@, stderr@),
{
    let err_text = crate::scripts::lossy_text(stderr);
    let err = crate::text::trimmed(err_text.as_str());
    if err.as_str().is_empty() {
        let out_text = crate::scripts::lossy_text(stdout);
        crate::text::trimmed(out_text.as_str())
    } else {
        err
    }
}

} // verus!
