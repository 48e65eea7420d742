//! Input rules of the command runner.
use crate::error::{is_request_error, AppError, AppResult};
use crate::text::owned;
use crate::tools::registry::ToolInput;
use vstd::prelude::*;

verus! {

/// A shell command to run: the command, its working directory, and the
/// seconds it may take.
#[derive(Debug, Clone, PartialEq, Eq)]
pub struct CommandPlan {
    pub command: String,
    pub cwd: String,
    pub timeout_seconds: u64,
}

/// The timeout of a command: as given (20 seconds by default), at most 120.
pub open spec fn spec_timeout(given: Option<u64>) -> u64 {
    let t = match given {
        Some(t) => t,
        None => 20,
    };
    if t < 120 {
        t
    } else {
        120
    }
}

/// The command to run for a tool input: a request error when the command is
/// missing; the working directory defaults to ".".
pub fn plan_command(input: &ToolInput) -> (r: AppResult<CommandPlan>)
    ensures
        input.command is None ==> (r matches Err(e) && is_request_error(
            e,
            "tool input requires `command` string"@,
        )),
        input.command is Some ==> (r matches Ok(p) && p.command == input.command->0 && p.cwd@
            == match input.cwd {
            Some(c) => c@,
            None => "."@,
        } && p.timeout_seconds == spec_timeout(input.timeout_seconds)),
{
    let command = match &input.command {
        Some(c) => c.clone(),
        None => {
            return Err(AppError::Request(owned("tool input requires `command` string")));
        },
    };
    let cwd = match &input.cwd {
        Some(c) => c.clone(),
        None => owned("."),
    };
    let t = match input.timeout_seconds {
        Some(t) => t,
        None => 20,
    };
    let timeout_seconds = if t < 120 {
        t
    } else {
        120
    };
    Ok(CommandPlan { command, cwd, timeout_seconds })
}

/// A command never gets more than 120 seconds.
pub proof fn lemma_timeout_capped(given: Option<u64>)
    ensures
        spec_timeout(given) <= 120,
{
}

/// A command's timeout is the one given, 20 seconds when none is given, and
/// never more than 120 seconds: the smaller of the two.
pub proof fn lemma_timeout_values(given: Option<u64>)
    ensures
        given is None ==> spec_timeout(given) == 20,
        given matches Some(t) ==> spec_timeout(given) == if t <= 120 {
            t
        } else {
            120
        },
{
}

} // verus!
