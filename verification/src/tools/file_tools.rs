//! Input rules of the file tools: the path they need, the traversal guard,
//! and how much of a file is returned.
use crate::error::{is_request_error, AppError, AppResult};
use crate::text::{chars_of, contains_chars, has_sub, owned};
use crate::tools::registry::ToolInput;
use vstd::prelude::*;

verus! {

/// The path a file tool works on, or a request error when it is missing.
pub fn get_path(input: &ToolInput) -> (r: AppResult<String>)
    ensures
        input.path is Some ==> r == Ok::<String, AppError>(input.path->0),
        input.path is None ==> (r matches Err(e) && is_request_error(
            e,
            "tool input requires `path` string"@,
        )),
{
    match &input.path {
        Some(p) => Ok(p.clone()),
        None => Err(AppError::Request(owned("tool input requires `path` string"))),
    }
}

/// Refuses a path that contains "..".
pub fn ensure_safe(path: &str) -> (r: AppResult<()>)
    ensures
        has_sub(path@, ".."@) ==> (r matches Err(e) && is_request_error(
            e,
            "parent path traversal is not allowed"@,
        )),
        !has_sub(path@, ".."@) ==> r is Ok,
{
    let p = chars_of(path);
    let dots = chars_of("..");
    if contains_chars(&p, &dots) {
        Err(AppError::Request(owned("parent path traversal is not allowed")))
    } else {
        Ok(())
    }
}

/// The most bytes `read_file` returns: as given, and by default 200000.
pub fn read_limit(input: &ToolInput) -> (n: u64)
    ensures
        n == match input.max_bytes {
            Some(m) => m,
            None => 200_000,
        },
{
    match input.max_bytes {
        Some(m) => m,
        None => 200_000,
    }
}

/// How much of a file of `len` bytes is returned under the limit, and whether
/// it was cut short.
pub fn read_window(len: usize, max_bytes: u64) -> (r: (usize, bool))
    ensures
        r.1 == (len > max_bytes),
        r.0 == if len > max_bytes {
            max_bytes as int
        } else {
            len as int
        },
        r.0 <= len,
{
    if (len as u64) > max_bytes {
        (max_bytes as usize, true)
    } else {
        (len, false)
    }
}

} // verus!
