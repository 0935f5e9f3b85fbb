//! Socket addresses.

use vstd::prelude::*;

use crate::error::{ProxyError, ProxyErrorView};

verus! {

/// An IP address and a port.
///
/// `ip` is the address as the operating system's address type writes it. `flowinfo` and
/// `scope_id` are those of an IPv6 address and zero for an IPv4 address.
#[derive(Debug)]
pub struct SocketAddr {
    pub ip: String,
    pub flowinfo: u32,
    pub scope_id: u32,
    pub port: u16,
}

/// The mathematical counterpart of [`SocketAddr`].
pub struct SocketAddrView {
    pub ip: Seq<char>,
    pub flowinfo: u32,
    pub scope_id: u32,
    pub port: u16,
}

impl View for SocketAddr {
    type V = SocketAddrView;

    open spec fn view(&self) -> SocketAddrView {
        SocketAddrView {
            ip: self.ip@,
            flowinfo: self.flowinfo,
            scope_id: self.scope_id,
            port: self.port,
        }
    }
}

impl Clone for SocketAddr {
    fn clone(&self) -> (copy: SocketAddr)
        ensures
            copy@ == self@,
    {
        SocketAddr {
            ip: self.ip.clone(),
            flowinfo: self.flowinfo,
            scope_id: self.scope_id,
            port: self.port,
        }
    }
}

impl SocketAddrView {
    /// Whether a port follows this address's port.
    pub open spec fn has_next_port(self) -> bool {
        self.port < u16::MAX
    }

    /// The same address with the next port.
    pub open spec fn next_port(self) -> SocketAddrView {
        SocketAddrView { port: (self.port + 1) as u16, ..self }
    }
}

/// The error for an address whose port is the last one.
pub open spec fn port_overflow() -> ProxyErrorView {
    ProxyErrorView::Transport("Port overflow when calculating RTCP port"@)
}

/// The address of the RTCP socket that belongs to an RTP address: the same address with the
/// next port.
pub fn increment_port(addr: &SocketAddr) -> (r: Result<SocketAddr, ProxyError>)
    ensures
        match r {
            Ok(next) => addr@.has_next_port() && next@ == addr@.next_port(),
            Err(e) => !addr@.has_next_port() && e@ == port_overflow(),
        },
{
    match addr.port.checked_add(1) {
        Some(port) => {
            let mut next: SocketAddr = addr.clone();
            next.port = port;
            Ok(next)
        },
        None => Err(ProxyError::transport("Port overflow when calculating RTCP port")),
    }
}

} // verus!
