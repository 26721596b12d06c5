//! The identify action and whether it is enabled.
use crate::config::{list_or_empty, present_command, IdentifyConfig};
use crate::text::string_texts;
use crate::text::owned;
use vstd::prelude::*;

verus! {

/// Why running the identify command failed.
#[derive(Debug)]
pub enum IdentifyError {
    /// The command could not be started; the text of the OS error.
    Spawn { command: String, source: String },
    /// The command exited unsuccessfully.
    Command { command: String, status: String, output: String },
}

/// Identifies the device by running a command.
#[derive(Debug, Clone)]
pub struct CommandIdentifyAction {
    command: String,
    args: Vec<String>,
}

impl CommandIdentifyAction {
    /// An action that runs `command` with `args`.
    pub fn new(command: &str, args: Vec<String>) -> (r: CommandIdentifyAction)
        ensures
            r.command_text() == command@,
            r.arg_texts() == string_texts(args@),
    {
        CommandIdentifyAction { command: owned(command), args }
    }

    /// The command's text.
    pub closed spec fn command_text(&self) -> Seq<char> {
        self.command@
    }

    /// The arguments' texts.
    pub closed spec fn arg_texts(&self) -> Seq<Seq<char>> {
        string_texts(self.args@)
    }

    /// The command.
    pub fn command(&self) -> (r: &str)
        ensures
            r@ == self.command_text(),
    {
        self.command.as_str()
    }

    /// The arguments.
    pub fn args(&self) -> (r: &[String])
        ensures
            string_texts(r@) == self.arg_texts(),
    {
        self.args.as_slice()
    }
}

/// Whether an identify action is installed.
#[derive(Debug, Clone, Copy)]
pub struct IdentifyController {
    pub has_action: bool,
}

impl IdentifyController {
    /// The command action of an optional `[identify]` section: present when
    /// the section is enabled and names a non-blank command.
    pub fn from_config(config: Option<&IdentifyConfig>) -> (r: (IdentifyController, Option<CommandIdentifyAction>))
        ensures
            r.0.has_action == r.1 is Some,
            r.1 is Some <==> (config matches Some(c) && c.enabled == Some(true) && present_command(
                c.command,
            ) is Some),
            r.1 matches Some(a) ==> (config matches Some(c) && present_command(c.command) == Some(
                a.command_text(),
            ) && a.arg_texts() == string_texts(list_or_empty(c.args))),
    {
        let config = match config {
            Some(c) => c,
            None => {
                return (IdentifyController::disabled(), None);
            },
        };
        if !config.enabled() {
            return (IdentifyController::disabled(), None);
        }
        let command = match config.command() {
            Some(c) => c,
            None => {
                return (IdentifyController::disabled(), None);
            },
        };
        let action = CommandIdentifyAction::new(command, crate::text::copy_strings(config.args()));
        (IdentifyController { has_action: true }, Some(action))
    }

    /// An action set by the caller.
    pub fn with_action() -> (r: IdentifyController)
        ensures
            r.has_action,
    {
        IdentifyController { has_action: true }
    }

    /// No identify action.
    pub fn disabled() -> (r: IdentifyController)
        ensures
            !r.has_action,
    {
        IdentifyController { has_action: false }
    }

    /// Whether an identify request runs an action.
    pub fn is_enabled(&self) -> (r: bool)
        ensures
            r == self.has_action,
    {
        self.has_action
    }
}

/// The `Display` text of a identify error.
pub open spec fn identify_error_text(e: IdentifyError) -> Seq<char> {
    match e {
        IdentifyError::Spawn { command, source } => "failed to start identify command `"@ + command@ + "`: "@ + source@,
        IdentifyError::Command { command, status, output } => "identify command `"@ + command@
            + "` failed with status "@ + status@ + ": "@ + output@,
    }
}

impl IdentifyError {
    /// The error's message (its `Display` text).
    pub fn message(&self) -> (r: String)
        ensures
            r@ == identify_error_text(*self),
    {
        match self {
            IdentifyError::Spawn { command, source } => {
                let mut r = owned("failed to start identify command `");
                r.append(command.as_str());
                r.append("`: ");
                r.append(source.as_str());
                r
            },
            IdentifyError::Command { command, status, output } => {
                let mut r = owned("identify command `");
                r.append(command.as_str());
                r.append("` failed with status ");
                r.append(status.as_str());
                r.append(": ");
                r.append(output.as_str());
                r
            },
        }
    }
}

} // verus!
