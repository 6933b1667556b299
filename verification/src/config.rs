use vstd::prelude::*;

verus! {

/// Launch and schedule settings for the one managed server.
///
/// Paths are held as plain strings; whoever opens files or spawns the
/// process resolves them. `on` and `off` are times of day in 24-hour
/// `HH:MM` form; they are parsed and validated when the supervisor is
/// built. Heap sizes are in megabytes.
pub struct Server {
    /// Directory the server process runs in.
    pub base: String,
    /// Path of the server's launchable artifact.
    pub jar: String,
    /// Path of the append-only log file.
    pub log: String,
    /// Path of the input channel the shutdown instruction is written to.
    pub stdin: String,
    /// Daily start time, `HH:MM`.
    pub on: String,
    /// Daily stop time, `HH:MM`.
    pub off: String,
    /// Maximum heap size in megabytes.
    pub max_heap_size: u32,
    /// Soft maximum heap size in megabytes.
    pub soft_max_heap_size: u32,
    /// Extra launch arguments, passed through verbatim.
    pub extra_args: Vec<String>,
}

/// Top-level configuration: the executable, the quiet flag, and the
/// managed server's settings.
pub struct Config {
    /// Path of the executable that runs the server artifact.
    pub java: String,
    /// When set, nothing is echoed to the console.
    pub quiet: bool,
    /// The managed server's settings.
    pub server: Server,
}

} // verus!
