//! Building blocks for plugins that attach to a monitoring daemon's native
//! plugin interface: a bridge that routes structured log records into the
//! host's single C-style logging sink, capability-gated dispatch across a
//! manager/plugin object model, and an orchestrator that enforces
//! exactly-once default initialization.

pub mod capabilities;
pub mod filter;
pub mod level;
pub mod lifecycle;
pub mod logger;
pub mod parse;
pub mod plugins;
