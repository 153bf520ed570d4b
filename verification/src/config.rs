//! The binding parameters of a server.
use vstd::prelude::*;

verus! {

/// Where a server listens and whether it answers cross-origin requests.
///
/// The host is kept as written: whether it names an address is found out
/// only when the server is started.
#[derive(Debug)]
pub struct ServerConfig {
    pub host: String,
    pub port: u16,
    pub cors_enabled: bool,
}

/// A configuration as a mathematical value.
pub struct ConfigView {
    pub host: Seq<char>,
    pub port: u16,
    pub cors_enabled: bool,
}

impl View for ServerConfig {
    type V = ConfigView;

    open spec fn view(&self) -> ConfigView {
        ConfigView { host: self.host@, port: self.port, cors_enabled: self.cors_enabled }
    }
}

/// The loopback host that a default configuration names, `127.0.0.1`.
pub open spec fn default_host() -> Seq<char> {
    seq!['1', '2', '7', '.', '0', '.', '0', '.', '1']
}

/// The configuration used where none is given: loopback, port 8080,
/// cross-origin access permitted.
pub open spec fn default_config() -> ConfigView {
    ConfigView { host: default_host(), port: 8080, cors_enabled: true }
}

impl Default for ServerConfig {
    fn default() -> (config: Self)
        ensures
            config@ == default_config(),
    {
        let host = String::from_str("127.0.0.1");
        proof {
            reveal_strlit("127.0.0.1");
            assert(host@ =~= default_host());
        }
        ServerConfig { host, port: 8080, cors_enabled: true }
    }
}

} // verus!
