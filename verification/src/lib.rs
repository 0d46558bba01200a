//! Bridge between a game client and an external protocol-translation proxy.
//!
//! The proxy is a separate process. This library holds the rules around it:
//! which files it needs and where they come from, how it is started and how
//! its readiness is told, how a server's address is rewritten so that the
//! client dials the proxy, and how the proxy's request to authenticate is
//! relayed to the session server. The library does no I/O. Where something
//! has to happen outside, a state machine names the action, and the caller
//! performs it and reports back.

pub mod address;
pub mod answer;
pub mod artifact;
pub mod join;
pub mod launch;
pub mod output;
pub mod plugin;
pub mod provision;
pub mod relay;
pub mod text;
pub mod version;

pub use answer::{build_custom_query_answer, CustomQueryAnswer};
pub use join::OpenAuthModJoinTask;
pub use plugin::ViaVersionPlugin;
pub use provision::{download_file, try_download_file};
pub use version::{parse_java_version, try_find_java_version, Version};
