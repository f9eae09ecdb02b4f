//! The command line: its commands and what each asks the program to do.

use std::path::PathBuf;
use vstd::prelude::*;
use crate::usb::model::model_named;
use crate::usb::{DeviceSelector, Model};

verus! {

#[verifier::external_type_specification]
#[verifier::external_body]
pub struct ExPathBuf(PathBuf);

/// The parsed command line.
pub struct Cli {
    pub cmd: Commands,
}

/// The subcommands.
pub enum Commands {
    /// Show device presence and lock status.
    Status { model: String, json: bool },
    /// Unlock the drive (prompting for the password when none is given).
    Unlock { model: String, password: Option<String>, dry_run: bool, timeout_ms: Option<u64> },
    /// Diagnose common permission and connection issues.
    Doctor {},
    /// Generate shell completions.
    GenCompletions { shell: CompletionShell },
    /// Generate a man page into the given directory.
    GenMan { out: PathBuf },
}

/// The shells that completions can be generated for.
#[derive(Clone, Copy, Debug, PartialEq, Eq, Structural)]
pub enum CompletionShell {
    Bash,
    Zsh,
    Fish,
}

/// What a command asks the program to do.
pub enum Plan {
    /// Report the status of the selected drive, as JSON or as text.
    ShowStatus { selector: DeviceSelector, json: bool },
    /// Pretend to unlock this model, touching no device.
    DryRun { model: Model },
    /// Unlock the selected drive; prompt for the password when there is none.
    Unlock { selector: DeviceSelector, password: Option<String>, timeout_ms: Option<u64> },
    /// Print the diagnosis.
    Doctor,
    GenCompletions { shell: CompletionShell },
    GenMan { out: PathBuf },
}

/// Why a command cannot be carried out.
#[derive(Debug, PartialEq, Eq)]
pub enum CliError {
    /// The model name is none of t1, t3, t5 ("unknown model: {name}").
    UnknownModel(String),
}

impl CliError {
    /// The message that describes the error.
    pub fn message(&self) -> (text: String)
        ensures
            match self {
                CliError::UnknownModel(name) => text@ == "unknown model: "@ + name@,
            },
    {
        match self {
            CliError::UnknownModel(name) => String::from_str("unknown model: ").concat(name.as_str()),
        }
    }
}

/// The selector that a command built for a model.
pub open spec fn selector_for(m: Model) -> DeviceSelector {
    DeviceSelector { vid: crate::usb::SAMSUNG_VID, pid: m.locked_pid(), model: m }
}

impl Cli {
    /// Decides what the command line asks for. A status or unlock command
    /// names a model; when the name is not one of the known models the
    /// command fails with the name, before anything else is looked at.
    pub fn plan(self) -> (plan: Result<Plan, CliError>)
        ensures
            match self.cmd {
                Commands::Status { model, json } => match model_named(model@) {
                    Some(m) => plan matches Ok(Plan::ShowStatus { selector, json: j })
                        && selector == selector_for(m) && j == json,
                    None => plan == Err::<Plan, CliError>(CliError::UnknownModel(model)),
                },
                Commands::Unlock { model, password, dry_run, timeout_ms } => match model_named(
                    model@,
                ) {
                    Some(m) => if dry_run {
                        plan matches Ok(Plan::DryRun { model: pm }) && pm == m
                    } else {
                        plan matches Ok(Plan::Unlock { selector, password: p, timeout_ms: t })
                            && selector == selector_for(m) && p == password && t == timeout_ms
                    },
                    None => plan == Err::<Plan, CliError>(CliError::UnknownModel(model)),
                },
                Commands::Doctor {  } => plan matches Ok(Plan::Doctor),
                Commands::GenCompletions { shell } => plan matches Ok(
                    Plan::GenCompletions { shell: s },
                ) && s == shell,
                Commands::GenMan { out } => plan matches Ok(Plan::GenMan { out: o }) && o == out,
            },
    {
        match self.cmd {
            Commands::Status { model, json } => match Model::from_str(model.as_str()) {
                Some(m) => Ok(Plan::ShowStatus { selector: DeviceSelector::new(m), json }),
                None => Err(CliError::UnknownModel(model)),
            },
            Commands::Unlock { model, password, dry_run, timeout_ms } => match Model::from_str(
                model.as_str(),
            ) {
                Some(m) => {
                    let selector = DeviceSelector::new(m);
                    if dry_run {
                        Ok(Plan::DryRun { model: m })
                    } else {
                        Ok(Plan::Unlock { selector, password, timeout_ms })
                    }
                },
                None => Err(CliError::UnknownModel(model)),
            },
            Commands::Doctor {  } => Ok(Plan::Doctor),
            Commands::GenCompletions { shell } => Ok(Plan::GenCompletions { shell }),
            Commands::GenMan { out } => Ok(Plan::GenMan { out }),
        }
    }
}

} // verus!
