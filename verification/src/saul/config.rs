//! System configuration: the settings every part of the agent reads.

use crate::text::owned;
use vstd::prelude::*;

verus! {

/// Top-level configuration.
#[derive(Debug)]
pub struct Config {
    pub agent: AgentConfig,
    pub memory: MemoryConfig,
    pub inference: InferenceConfig,
    pub execution: ExecutionConfig,
    pub database: DatabaseConfig,
}

#[derive(Debug)]
pub struct AgentConfig {
    /// Agent name (thematic, can be changed).
    pub name: String,
    /// Max RAM in bytes (hard limit: 3 GB = 3_221_225_472).
    pub max_ram_bytes: u64,
    /// How often (ms) to poll memory usage.
    pub memory_poll_interval_ms: u64,
    /// Enable self-improvement (self-modification patches).
    pub self_improvement: bool,
}

#[derive(Debug)]
pub struct MemoryConfig {
    /// Max entries in the hot LRU cache.
    pub lru_capacity: usize,
    /// Compact memories older than this many days.
    pub compact_after_days: u32,
    /// Max summary length in characters.
    pub max_summary_chars: usize,
}

#[derive(Debug)]
pub struct InferenceConfig {
    /// Path to a GGUF model file or a directory of them.
    pub model_path: String,
    /// llama-server binary path.
    pub llama_server_bin: String,
    pub server_port: u16,
    /// Upper bound on context tokens; the planner may reduce it.
    pub context_length: u32,
    pub threads: u32,
    /// Prompt batch size; the planner may override it.
    pub batch_size: u32,
    /// GPU layers to offload (0 = CPU only).
    pub gpu_layers: u32,
    /// Max tokens generated per request.
    pub max_tokens: u32,
    /// Sampling temperature, as the bit pattern of an `f32`.
    pub temperature_bits: u32,
}

#[derive(Debug)]
pub struct ExecutionConfig {
    /// Working directory for script execution.
    pub work_dir: String,
    /// Timeout for script execution (seconds).
    pub script_timeout_secs: u64,
    /// Max script output kept (bytes).
    pub max_output_bytes: usize,
    /// Enable browser automation.
    pub browser_enabled: bool,
}

#[derive(Debug)]
pub struct DatabaseConfig {
    pub host: String,
    pub port: u16,
    pub name: String,
    pub user: String,
    pub password: String,
    pub pool_size: usize,
}

/// The default hard RAM cap: 3 GiB.
pub const DEFAULT_MAX_RAM: u64 = 3221225472;

/// The bit pattern of the `f32` 0.7, the default temperature.
pub const DEFAULT_TEMPERATURE_BITS: u32 = 0x3f33_3333;

/// Threads for inference: what the machine offers (2 when unknown), never
/// more than 2, to keep memory-mapped weights from thrashing.
pub open spec fn thread_count(available: Option<u32>) -> u32 {
    let n = match available {
        Some(n) => n,
        None => 2,
    };
    if n < 2 {
        n
    } else {
        2
    }
}

impl Config {
    /// The defaults, given the paths found on this machine (`model_path`,
    /// `llama_server_bin`, the working directory `work_dir`) and the number
    /// of threads it offers.
    pub fn with_detected(
        model_path: &str,
        llama_server_bin: &str,
        work_dir: &str,
        available_threads: Option<u32>,
    ) -> (c: Config)
        ensures
            c.agent.name@ == "Heisenberg"@,
            c.agent.max_ram_bytes == DEFAULT_MAX_RAM,
            c.agent.memory_poll_interval_ms == 2000,
            !c.agent.self_improvement,
            c.memory.lru_capacity == 512,
            c.memory.compact_after_days == 30,
            c.memory.max_summary_chars == 2048,
            c.inference.model_path@ == model_path@,
            c.inference.llama_server_bin@ == llama_server_bin@,
            c.inference.server_port == 34884,
            c.inference.context_length == 4096,
            c.inference.threads == thread_count(available_threads),
            c.inference.batch_size == 512,
            c.inference.gpu_layers == 0,
            c.inference.max_tokens == 1024,
            c.inference.temperature_bits == DEFAULT_TEMPERATURE_BITS,
            c.execution.work_dir@ == work_dir@,
            c.execution.script_timeout_secs == 30,
            c.execution.max_output_bytes == 65536,
            !c.execution.browser_enabled,
            c.database.host@ == "localhost"@,
            c.database.port == 5432,
            c.database.name@ == "heisenberg"@,
            c.database.user@ == "heisenberg"@,
            c.database.password@ == "blue_sky"@,
            c.database.pool_size == 4,
    {
        let offered: u32 = match available_threads {
            Some(n) => n,
            None => 2,
        };
        let threads: u32 = if offered < 2 {
            offered
        } else {
            2
        };
        Config {
            agent: AgentConfig {
                name: owned("Heisenberg"),
                max_ram_bytes: DEFAULT_MAX_RAM,
                memory_poll_interval_ms: 2000,
                self_improvement: false,
            },
            memory: MemoryConfig { lru_capacity: 512, compact_after_days: 30, max_summary_chars: 2048 },
            inference: InferenceConfig {
                model_path: owned(model_path),
                llama_server_bin: owned(llama_server_bin),
                server_port: 34884,
                context_length: 4096,
                threads,
                batch_size: 512,
                gpu_layers: 0,
                max_tokens: 1024,
                temperature_bits: DEFAULT_TEMPERATURE_BITS,
            },
            execution: ExecutionConfig {
                work_dir: owned(work_dir),
                script_timeout_secs: 30,
                max_output_bytes: 65536,
                browser_enabled: false,
            },
            database: DatabaseConfig {
                host: owned("localhost"),
                port: 5432,
                name: owned("heisenberg"),
                user: owned("heisenberg"),
                password: owned("blue_sky"),
                pool_size: 4,
            },
        }
    }
}

} // verus!
