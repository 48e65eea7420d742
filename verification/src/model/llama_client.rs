//! Addresses of the llama-server and the reading of its replies.
use crate::error::{is_model_runtime_error, AppError, AppResult};
use crate::text::{concat_str, decimal, owned, push_decimal};
use vstd::prelude::*;

verus! {

/// `http://host:port`.
pub open spec fn spec_base_url(host: Seq<char>, port: u16) -> Seq<char> {
    "http://"@ + host + ":"@ + decimal(port as nat)
}

/// The base URL of the llama-server.
pub fn llama_base_url(host: &str, port: u16) -> (r: String)
    ensures
        r@ == spec_base_url(host@, port),
{
    let mut r = concat_str("http://", host);
    r.append(":");
    push_decimal(&mut r, port as u64);
    r
}

/// The health endpoint under a base URL.
pub fn health_url(base: &str) -> (r: String)
    ensures
        r@ == base@ + "/health"@,
{
    concat_str(base, "/health")
}

/// The chat-completions endpoint under a base URL.
pub fn chat_url(base: &str) -> (r: String)
    ensures
        r@ == base@ + "/v1/chat/completions"@,
{
    concat_str(base, "/v1/chat/completions")
}

/// The error for a reply with an unsuccessful HTTP status (given as text).
pub fn http_failure(status: &str) -> (e: AppError)
    ensures
        is_model_runtime_error(e, "llama-server returned HTTP "@ + status@),
{
    AppError::ModelRuntime(concat_str("llama-server returned HTTP ", status))
}

/// The answer of a reply: the content of its first choice, or an error when
/// there is none.
pub fn first_choice(contents: Vec<String>) -> (r: AppResult<String>)
    ensures
        contents.len() > 0 ==> r == Ok::<String, AppError>(contents@[0]),
        contents.len() == 0 ==> (r matches Err(e) && is_model_runtime_error(
            e,
            "llama-server returned no choices"@,
        )),
{
    let mut contents = contents;
    if contents.len() > 0 {
        Ok(contents.swap_remove(0))
    } else {
        Err(AppError::ModelRuntime(owned("llama-server returned no choices")))
    }
}

/// The base URL is plain HTTP to the host, with the port in decimal after a
/// colon: `http://` + host + `:` + port.
pub proof fn lemma_base_url_layout(host: Seq<char>, port: u16)
    ensures
        ("http://"@ + host).is_prefix_of(spec_base_url(host, port)),
        (":"@ + decimal(port as nat)).is_suffix_of(spec_base_url(host, port)),
        spec_base_url(host, port).len() == 7 + host.len() + 1 + decimal(port as nat).len(),
{
    reveal_strlit("http://");
    reveal_strlit(":");
    let u = spec_base_url(host, port);
    let pre = "http://"@ + host;
    let suf = ":"@ + decimal(port as nat);
    assert(u =~= pre + suf);
    assert(pre =~= u.subrange(0, pre.len() as int));
    assert(suf =~= u.subrange(u.len() - suf.len(), u.len() as int));
}

} // verus!
