//! Settings of the service, and their defaults: where it listens, where it
//! keeps data, how much context it gathers, and which model it runs with
//! which llama-server settings (all but the sampling parameters).
use crate::text::owned;
use vstd::prelude::*;

verus! {

/// Where the HTTP API listens.
#[derive(Debug, Clone, PartialEq, Eq)]
pub struct ServerConfig {
    pub host: String,
    pub port: u16,
}

/// Where data is kept on disk.
#[derive(Debug, Clone, PartialEq, Eq)]
pub struct PathsConfig {
    pub data_dir: String,
    pub database_path: String,
}

/// How much context the brain gathers per message.
#[derive(Debug, Clone, PartialEq, Eq)]
pub struct BrainPolicyConfig {
    pub default_project_id: String,
    pub default_language: String,
    pub max_recent_messages: usize,
    pub memory_search_limit: usize,
}

/// The model and the llama-server that runs it: every model setting but
/// the sampling parameters.
#[derive(Debug, Clone, PartialEq, Eq)]
pub struct ModelRuntimeDefaults {
    pub name: String,
    pub model_id: String,
    pub model_path: String,
    pub llama_server_binary: String,
    pub llama_host: String,
    pub llama_port: u16,
    pub context_size: u32,
    pub threads: u32,
    pub max_tokens: u32,
    pub auto_start: bool,
    pub keep_loaded: bool,
    pub idle_timeout_seconds: u64,
    pub mock_when_unavailable: bool,
    pub extra_args: Vec<String>,
}

impl Default for ServerConfig {
    /// Local host, port 8787.
    fn default() -> (r: ServerConfig)
        ensures
            r.host@ == "127.0.0.1"@,
            r.port == 8787,
    {
        ServerConfig { host: owned("127.0.0.1"), port: 8787 }
    }
}

impl Default for PathsConfig {
    /// `./data` and `./data/brain.sqlite`.
    fn default() -> (r: PathsConfig)
        ensures
            r.data_dir@ == "./data"@,
            r.database_path@ == "./data/brain.sqlite"@,
    {
        PathsConfig { data_dir: owned("./data"), database_path: owned("./data/brain.sqlite") }
    }
}

impl Default for BrainPolicyConfig {
    /// Project "logixa_brain", Egyptian Arabic, 12 recent messages, 6 memories.
    fn default() -> (r: BrainPolicyConfig)
        ensures
            r.default_project_id@ == "logixa_brain"@,
            r.default_language@ == "ar-EG"@,
            r.max_recent_messages == 12,
            r.memory_search_limit == 6,
    {
        BrainPolicyConfig {
            default_project_id: owned("logixa_brain"),
            default_language: owned("ar-EG"),
            max_recent_messages: 12,
            memory_search_limit: 6,
        }
    }
}

impl Default for ModelRuntimeDefaults {
    /// Qwen3.5-4B from `./models`, served by `llama-server` on local port
    /// 8788 with an 8192-token context, 4 threads and answers of at most
    /// 1024 tokens; started on demand, unloaded after 180 idle seconds, with
    /// mock answers while it is unavailable.
    fn default() -> (r: ModelRuntimeDefaults)
        ensures
            r.name@ == "Qwen3.5-4B Brain Fast"@,
            r.model_id@ == "qwen3.5-4b-brain-fast"@,
            r.model_path@ == "./models/Qwen3.5-4B-UD-Q4_K_XL.gguf"@,
            r.llama_server_binary@ == "llama-server"@,
            r.llama_host@ == "127.0.0.1"@,
            r.llama_port == 8788,
            r.context_size == 8192,
            r.threads == 4,
            r.max_tokens == 1024,
            r.auto_start,
            !r.keep_loaded,
            r.idle_timeout_seconds == 180,
            r.mock_when_unavailable,
            r.extra_args@.len() == 0,
    {
        ModelRuntimeDefaults {
            name: owned("Qwen3.5-4B Brain Fast"),
            model_id: owned("qwen3.5-4b-brain-fast"),
            model_path: owned("./models/Qwen3.5-4B-UD-Q4_K_XL.gguf"),
            llama_server_binary: owned("llama-server"),
            llama_host: owned("127.0.0.1"),
            llama_port: 8788,
            context_size: 8192,
            threads: 4,
            max_tokens: 1024,
            auto_start: true,
            keep_loaded: false,
            idle_timeout_seconds: 180,
            mock_when_unavailable: true,
            extra_args: Vec::new(),
        }
    }
}

} // verus!
