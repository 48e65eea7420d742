//! Decisions of the model runtime: its status label, the start-up checks and
//! command line of llama-server, waiting for it to become healthy, idle
//! shutdown, and the stand-in answer used when no model is available.
use crate::error::{is_model_runtime_error, AppError, AppResult};
use crate::text::{concat_str, decimal, owned, push_decimal, str_eq};
use vstd::prelude::*;

verus! {

/// What the runtime reports about the model server.
#[derive(Debug, Clone, PartialEq, Eq)]
pub struct RuntimeStatus {
    pub running: bool,
    pub mock_enabled: bool,
    pub model_path: String,
    pub llama_server_binary: String,
    pub base_url: String,
}

/// The label of the model server's state.
pub open spec fn spec_status_label(healthy: bool, running: bool) -> Seq<char> {
    if healthy {
        "ready"@
    } else if running {
        "starting_or_unhealthy"@
    } else {
        "stopped"@
    }
}

/// "ready" when the server answers health checks, "starting_or_unhealthy"
/// when its process runs but it does not, "stopped" otherwise.
pub fn status_label(healthy: bool, running: bool) -> (s: &'static str)
    ensures
        s@ == spec_status_label(healthy, running),
{
    if healthy {
        "ready"
    } else if running {
        "starting_or_unhealthy"
    } else {
        "stopped"
    }
}

/// The text before the message in a stand-in answer.
pub open spec fn mock_prefix() -> Seq<char> {
    "[Mock Brain Response] استلمت رسالتك: "@
}

/// The text after the message in a stand-in answer.
pub open spec fn mock_suffix() -> Seq<char> {
    "\n\nالـ Brain Core شغال، لكن llama-server غير متاح حاليًا. ظبط `brain_config.toml` بمسار الموديل و `llama_server_binary` عشان الرد يبقى من Qwen فعليًا."@
}

/// The stand-in answer to a message when no model is available.
pub fn mock_answer(message: &str) -> (r: String)
    ensures
        r@ == mock_prefix() + message@ + mock_suffix(),
{
    let mut r = concat_str("[Mock Brain Response] استلمت رسالتك: ", message);
    r.append(
        "\n\nالـ Brain Core شغال، لكن llama-server غير متاح حاليًا. ظبط `brain_config.toml` بمسار الموديل و `llama_server_binary` عشان الرد يبقى من Qwen فعليًا.",
    );
    r
}

/// Refuses to start the server when the model file is missing, or when a
/// binary other than the plain "llama-server" command is missing.
pub fn check_start_paths(
    model_path: &str,
    model_exists: bool,
    binary: &str,
    binary_exists: bool,
) -> (r: AppResult<()>)
    ensures
        !model_exists ==> (r matches Err(e) && is_model_runtime_error(
            e,
            "model file not found: "@ + model_path@,
        )),
        model_exists && binary@ != "llama-server"@ && !binary_exists ==> (r matches Err(e)
            && is_model_runtime_error(e, "llama-server binary not found: "@ + binary@)),
        model_exists && (binary@ == "llama-server"@ || binary_exists) ==> r is Ok,
{
    if !model_exists {
        return Err(AppError::ModelRuntime(concat_str("model file not found: ", model_path)));
    }
    if !str_eq(binary, "llama-server") && !binary_exists {
        return Err(AppError::ModelRuntime(concat_str("llama-server binary not found: ", binary)));
    }
    Ok(())
}

/// The arguments llama-server is started with.
pub open spec fn spec_server_args(
    model_path: Seq<char>,
    host: Seq<char>,
    port: u16,
    context_size: u32,
    threads: u32,
    extra: Seq<Seq<char>>,
) -> Seq<Seq<char>> {
    seq![
        "-m"@,
        model_path,
        "--host"@,
        host,
        "--port"@,
        decimal(port as nat),
        "-c"@,
        decimal(context_size as nat),
        "-t"@,
        decimal(threads as nat),
    ] + extra
}

fn decimal_string(n: u64) -> (r: String)
    ensures
        r@ == decimal(n as nat),
{
    let mut r = String::new();
    push_decimal(&mut r, n);
    assert(r@ =~= decimal(n as nat));
    r
}

/// The arguments llama-server is started with.
pub fn llama_server_args(
    model_path: &str,
    host: &str,
    port: u16,
    context_size: u32,
    threads: u32,
    extra_args: &Vec<String>,
) -> (r: Vec<String>)
    ensures
        r@.map_values(|a: String| a@) == spec_server_args(
            model_path@,
            host@,
            port,
            context_size,
            threads,
            extra_args@.map_values(|a: String| a@),
        ),
{
    let mut r: Vec<String> = Vec::new();
    r.push(owned("-m"));
    r.push(owned(model_path));
    r.push(owned("--host"));
    r.push(owned(host));
    r.push(owned("--port"));
    r.push(decimal_string(port as u64));
    r.push(owned("-c"));
    r.push(decimal_string(context_size as u64));
    r.push(owned("-t"));
    r.push(decimal_string(threads as u64));
    let ghost fixed = r@;
    let mut i: usize = 0;
    while i < extra_args.len()
        invariant
            i <= extra_args@.len(),
            r@ == fixed + extra_args@.take(i as int),
        decreases extra_args.len() - i,
    {
        r.push(extra_args[i].clone());
        assert(r@ =~= fixed + extra_args@.take(i + 1));
        i += 1;
    }
    assert(extra_args@.take(extra_args@.len() as int) =~= extra_args@);
    assert(r@.map_values(|a: String| a@) =~= spec_server_args(
        model_path@,
        host@,
        port,
        context_size,
        threads,
        extra_args@.map_values(|a: String| a@),
    ));
    r
}

/// Whether an idle server should be stopped: it has been unused for at least
/// the timeout.
pub fn idle_expired(elapsed_seconds: u64, timeout_seconds: u64) -> (b: bool)
    ensures
        b == (elapsed_seconds >= timeout_seconds),
{
    elapsed_seconds >= timeout_seconds
}

/// How many health checks are made after starting the server before giving up.
pub open spec fn max_health_probes() -> u32 {
    60
}

/// What to do next while making the model server ready.
#[derive(Debug, PartialEq, Eq)]
pub enum ReadyAction {
    /// Ask the server whether it is healthy, and report the answer.
    CheckHealth,
    /// Start the server process, then check its health.
    StartServer,
    /// Wait half a second, then report that the wait is over.
    Sleep,
    /// Readiness is decided.
    Done(AppResult<String>),
}

/// The progress of making the model server ready.
#[derive(Debug, Clone, PartialEq, Eq)]
pub struct ReadyCheck {
    pub auto_start: bool,
    pub started: bool,
    pub probes: u32,
}

/// `a` finishes with success and this message.
pub open spec fn done_ok(a: ReadyAction, msg: Seq<char>) -> bool {
    a matches ReadyAction::Done(Ok(s)) && s@ == msg
}

/// `a` finishes with a model-runtime error with this message.
pub open spec fn done_err(a: ReadyAction, msg: Seq<char>) -> bool {
    a matches ReadyAction::Done(Err(e)) && is_model_runtime_error(e, msg)
}

impl ReadyCheck {
    /// A fresh check; its first action is `CheckHealth`.
    pub fn new(auto_start: bool) -> (r: ReadyCheck)
        ensures
            r == (ReadyCheck { auto_start, started: false, probes: 0 }),
    {
        ReadyCheck { auto_start, started: false, probes: 0 }
    }

    /// The step after a health answer. Before the start: healthy means ready;
    /// otherwise start the server, unless automatic start is off. After the
    /// start: healthy means ready; otherwise wait, while fewer than 60 checks
    /// have been made.
    pub fn on_health(&mut self, healthy: bool) -> (a: ReadyAction)
        ensures
            final(self).auto_start == old(self).auto_start,
            old(self).probes <= max_health_probes() ==> final(self).probes <= max_health_probes(),
            !old(self).started ==> {
                &&& final(self).probes == old(self).probes
                &&& healthy ==> done_ok(a, "llama-server already healthy"@) && !final(self).started
                &&& !healthy && !old(self).auto_start ==> done_err(
                    a,
                    "model is not running and auto_start=false"@,
                ) && !final(self).started
                &&& !healthy && old(self).auto_start ==> a == ReadyAction::StartServer
                    && final(self).started
            },
            old(self).started ==> {
                &&& final(self).started
                &&& old(self).probes >= max_health_probes() ==> final(self).probes == old(self).probes
                    && done_err(a, "llama-server did not become healthy in time"@)
                &&& old(self).probes < max_health_probes() ==> final(self).probes == old(self).probes
                    + 1 && (healthy ==> done_ok(a, "llama-server started and healthy"@)) && (
                !healthy ==> a == ReadyAction::Sleep)
            },
    {
        if !self.started {
            if healthy {
                ReadyAction::Done(Ok(owned("llama-server already healthy")))
            } else if !self.auto_start {
                ReadyAction::Done(
                    Err(AppError::ModelRuntime(owned("model is not running and auto_start=false"))),
                )
            } else {
                self.started = true;
                ReadyAction::StartServer
            }
        } else if self.probes >= 60 {
            ReadyAction::Done(
                Err(AppError::ModelRuntime(owned("llama-server did not become healthy in time"))),
            )
        } else {
            self.probes = self.probes + 1;
            if healthy {
                ReadyAction::Done(Ok(owned("llama-server started and healthy")))
            } else {
                ReadyAction::Sleep
            }
        }
    }

    /// The step after a wait: give up once 60 checks were made, else check again.
    pub fn on_slept(&self) -> (a: ReadyAction)
        ensures
            self.probes >= max_health_probes() ==> done_err(
                a,
                "llama-server did not become healthy in time"@,
            ),
            self.probes < max_health_probes() ==> a == ReadyAction::CheckHealth,
    {
        if self.probes >= 60 {
            ReadyAction::Done(
                Err(AppError::ModelRuntime(owned("llama-server did not become healthy in time"))),
            )
        } else {
            ReadyAction::CheckHealth
        }
    }
}

/// The state labels: "ready" whenever the server answers health checks;
/// otherwise "starting_or_unhealthy" while its process runs, and "stopped"
/// when it does not.
pub proof fn lemma_status_labels(healthy: bool, running: bool)
    ensures
        healthy ==> spec_status_label(healthy, running) == "ready"@,
        !healthy && running ==> spec_status_label(healthy, running) == "starting_or_unhealthy"@,
        !healthy && !running ==> spec_status_label(healthy, running) == "stopped"@,
{
}

/// llama-server is started with the model (`-m`), host (`--host`), port
/// (`--port`), context size (`-c`) and thread count (`-t`), each flag
/// directly followed by its value, numbers in decimal, and then the extra
/// arguments unchanged and in order.
pub proof fn lemma_server_args_layout(
    model_path: Seq<char>,
    host: Seq<char>,
    port: u16,
    context_size: u32,
    threads: u32,
    extra: Seq<Seq<char>>,
)
    ensures
        ({
            let a = spec_server_args(model_path, host, port, context_size, threads, extra);
            &&& a.len() == 10 + extra.len()
            &&& a[0] == "-m"@ && a[1] == model_path
            &&& a[2] == "--host"@ && a[3] == host
            &&& a[4] == "--port"@ && a[5] == decimal(port as nat)
            &&& a[6] == "-c"@ && a[7] == decimal(context_size as nat)
            &&& a[8] == "-t"@ && a[9] == decimal(threads as nat)
            &&& a.subrange(10, a.len() as int) == extra
        }),
{
    let a = spec_server_args(model_path, host, port, context_size, threads, extra);
    assert(a.subrange(10, a.len() as int) =~= extra);
}

/// After starting the server, readiness allows 60 health checks half a
/// second apart (about 30 seconds) before it gives up.
pub proof fn lemma_health_check_budget()
    ensures
        max_health_probes() == 60,
{
}

} // verus!
