use vstd::prelude::*;

verus! {

/// Configuration of the client role: the PSK, the rendezvous endpoint to
/// dial out to, and the local target endpoint to bridge users to.
pub struct ClientConfig {
    pub psk: Vec<u8>,
    pub reverse_server: String,
    pub target: String,
}

/// Configuration of the server role: the PSK, the endpoint to accept
/// reverse tunnels on, and the public endpoint to accept users on.
pub struct ServerConfig {
    pub psk: Vec<u8>,
    pub reverse_port: String,
    pub target: String,
}

} // verus!
