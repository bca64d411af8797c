use vstd::prelude::*;

verus! {

/// A port of a container, as the runtime reports it.
#[derive(Clone, Debug, PartialEq)]
pub struct Port {
    /// Host IP address that the container's port is mapped to
    pub ip: Option<String>,
    /// Port on the container
    pub private_port: i32,
    /// Port exposed on the host
    pub public_port: Option<i32>,
    pub _type: Type,
}

impl Port {
    /// An open port on a container: not mapped to any host address or port.
    pub fn new(private_port: i32, _type: Type) -> (port: Port)
        ensures
            port.ip is None,
            port.private_port == private_port,
            port.public_port is None,
            port._type == _type,
    {
        Port { ip: None, private_port, public_port: None, _type }
    }
}

/// The transport protocol of a port.
#[derive(Clone, Copy, Debug, Eq, PartialEq, Ord, PartialOrd, Hash, Structural)]
pub enum Type {
    Tcp,
    Udp,
    Sctp,
}

} // verus!
