//! Scheduled supervisor for one long-running game-server process.
//!
//! The library holds the verified core: the daily on/off schedule and its
//! clock comparison, the supervisor state machine that turns logical events
//! into start/stop actions, the managed server's lifecycle state together
//! with the exact log-line and launch-argument formats, and the construction
//! checks. The thin shell that owns files, threads and the spawned process
//! lives outside the library and only carries these decisions out.

pub mod clock;
pub mod config;
pub mod manager;
pub mod schedule;
pub mod server;
pub mod textfmt;

pub use config::Config;
pub use config::Server;
pub use manager::MinecraftServerManager;
pub use manager::ServerManagerEvent;
pub use manager::SupervisorAction;
pub use manager::SupervisorState;
pub use server::MinecraftServer;
pub use server::ServerError;
