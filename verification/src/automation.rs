//! Data model of scripted automation. Running a script against a live
//! browser is the shell's business; the core only defines the records.

use vstd::prelude::*;

verus! {

/// Tools around recorded scripts. Stateless.
pub struct AutomationTools;

/// One scripted action.
#[derive(Debug, Clone)]
pub struct Command {
    pub action: String,
    pub target: String,
    pub value: Option<String>,
}

/// When a script runs.
#[derive(Debug, Clone)]
pub struct Schedule {
    pub cron: String,
    pub repeat: bool,
}

/// A recorded script.
#[derive(Debug, Clone)]
pub struct Script {
    pub name: String,
    pub commands: Vec<Command>,
    pub schedule: Option<Schedule>,
}

/// A script bound to an interval.
#[derive(Debug, Clone)]
pub struct Task {
    pub script: Script,
    pub interval: String,
    pub enabled: bool,
}

} // verus!
