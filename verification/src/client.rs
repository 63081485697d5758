//! The endpoints as the transport client takes them.

use vstd::prelude::*;
use crate::json;
use crate::storage::entities::clone_text;

verus! {

/// How the transport client talks to a server.
#[derive(Debug, Clone, Copy, PartialEq, Eq, Structural)]
pub enum TransportProtocol {
    Quic,
    Tcp,
    WebSocket,
}

/// A server as the transport client takes it.
#[derive(Debug)]
pub struct ServerEndpoint {
    pub protocol: TransportProtocol,
    pub host: String,
    pub port: u16,
    pub path: Option<String>,
    pub use_tls: bool,
}

/// What a [`ServerEndpoint`] holds.
pub struct ServerEndpointModel {
    pub protocol: TransportProtocol,
    pub host: Seq<char>,
    pub port: u16,
    pub path: Option<Seq<char>>,
    pub use_tls: bool,
}

impl View for ServerEndpoint {
    type V = ServerEndpointModel;

    open spec fn view(&self) -> ServerEndpointModel {
        ServerEndpointModel {
            protocol: self.protocol,
            host: self.host@,
            port: self.port,
            path: json::opt_view(self.path),
            use_tls: self.use_tls,
        }
    }
}

impl Clone for ServerEndpoint {
    fn clone(&self) -> (r: Self)
        ensures
            r == *self,
    {
        ServerEndpoint {
            protocol: self.protocol,
            host: self.host.clone(),
            port: self.port,
            path: clone_text(&self.path),
            use_tls: self.use_tls,
        }
    }
}

} // verus!
