//! A server: a configuration and the shared state that its routes work on.
use crate::address::address_text;
use crate::address::format_address;
use crate::address::lemma_address_injective;
use crate::config::default_config;
use crate::config::ServerConfig;
use crate::pipeline::pipeline_layers;
use crate::pipeline::plan_layers;
use crate::pipeline::Layer;
use vstd::prelude::*;

verus! {

/// An HTTP server that has not been started.
///
/// `S` is the handle to the state that the routes share. The server hands it
/// on unchanged and never looks inside.
pub struct Server<S> {
    config: ServerConfig,
    state: S,
}

impl<S> Server<S> {
    /// The configuration that the server was made with.
    pub closed spec fn spec_config(&self) -> ServerConfig {
        self.config
    }

    /// The state handle that the server was made with.
    pub closed spec fn spec_state(&self) -> S {
        self.state
    }

    /// The address that the server binds, as text.
    pub open spec fn spec_address(&self) -> Seq<char> {
        address_text(self.spec_config().host@, self.spec_config().port)
    }

    /// The layers that the server's pipeline is made of, innermost first.
    pub open spec fn spec_layers(&self) -> Seq<Layer> {
        pipeline_layers(self.spec_config().cors_enabled)
    }

    /// Makes a server from a state handle and a configuration. Nothing is
    /// checked: a host that names no address is found when the server runs.
    pub fn new(state: S, config: ServerConfig) -> (server: Self)
        ensures
            server.spec_config() == config,
            server.spec_state() == state,
    {
        Server { config, state }
    }

    /// Makes a server with the default configuration.
    pub fn with_defaults(state: S) -> (server: Self)
        ensures
            server.spec_config()@ == default_config(),
            server.spec_state() == state,
    {
        Server::new(state, ServerConfig::default())
    }

    /// The server's configuration.
    pub fn config(&self) -> (config: &ServerConfig)
        ensures
            *config == self.spec_config(),
    {
        &self.config
    }

    /// The server's state handle.
    pub fn state(&self) -> (state: &S)
        ensures
            *state == self.spec_state(),
    {
        &self.state
    }

    /// Lists the layers of the request pipeline in the order in which they
    /// are attached to the router: logging, request identifier, tracing and,
    /// where the configuration enables it, permissive cross-origin access.
    /// The server is left as it was, so the pipeline can be built again.
    pub fn build_app(&self) -> (layers: Vec<Layer>)
        ensures
            layers@ == self.spec_layers(),
    {
        plan_layers(self.config.cors_enabled)
    }

    /// The address that the server binds, `host:port`.
    pub fn address(&self) -> (text: String)
        ensures
            text@ == self.spec_address(),
    {
        format_address(self.config.host.as_str(), self.config.port)
    }
}

/// The address is a function of the host and the port: asked twice, or of
/// another server with the same host and port, it is the same text.
pub proof fn lemma_address_determined<S, T>(a: Server<S>, b: Server<T>)
    requires
        a.spec_config()@.host == b.spec_config()@.host,
        a.spec_config()@.port == b.spec_config()@.port,
    ensures
        a.spec_address() == b.spec_address(),
{
}

/// Servers with the same address text have the same host and the same port.
pub proof fn lemma_address_tells_host_and_port<S, T>(a: Server<S>, b: Server<T>)
    requires
        a.spec_address() == b.spec_address(),
    ensures
        a.spec_config()@.host == b.spec_config()@.host,
        a.spec_config()@.port == b.spec_config()@.port,
{
    lemma_address_injective(
        a.spec_config().host@,
        a.spec_config().port,
        b.spec_config().host@,
        b.spec_config().port,
    );
}

/// The pipeline is a function of the cross-origin flag alone: built twice,
/// or for another server with the same flag, it is the same list of layers,
/// whatever the host, the port and the state.
pub proof fn lemma_pipeline_determined<S, T>(a: Server<S>, b: Server<T>)
    requires
        a.spec_config()@.cors_enabled == b.spec_config()@.cors_enabled,
    ensures
        a.spec_layers() == b.spec_layers(),
{
}

} // verus!
