//! Input rules of the git tools.
use crate::error::{is_request_error, AppError, AppResult};
use crate::text::owned;
use crate::tools::registry::ToolInput;
use vstd::prelude::*;

verus! {

/// The repository a git tool works in, or a request error when it is missing.
pub fn repo_path(input: &ToolInput) -> (r: AppResult<String>)
    ensures
        input.path is Some ==> r == Ok::<String, AppError>(input.path->0),
        input.path is None ==> (r matches Err(e) && is_request_error(
            e,
            "tool input requires `path` string"@,
        )),
{
    match &input.path {
        Some(p) => Ok(p.clone()),
        None => Err(AppError::Request(owned("tool input requires `path` string"))),
    }
}

} // verus!
