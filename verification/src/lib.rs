//! Bootstrap of an HTTP listener, stated as verified decisions.
//!
//! The crate holds the rules by which a server is configured and started:
//! which network address it binds, in which order the cross-cutting layers
//! wrap the router, and in which order start-up proceeds and fails. Sockets,
//! the router and the layers themselves belong to the program around this
//! library, which carries out what the functions here decide.
pub mod address;
pub mod config;
pub mod pipeline;
pub mod run;
pub mod server;

pub use config::ConfigView;
pub use config::ServerConfig;
pub use pipeline::Layer;
pub use run::Run;
pub use run::RunAction;
pub use run::RunError;
pub use run::RunEvent;
pub use run::RunPhase;
pub use server::Server;
