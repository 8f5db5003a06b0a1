//! Endpoints of a TCP connection, and the rule that both must be on this host.

use crate::decimal::{decimal, push_decimal};
use crate::error::RemotePidError;
use vstd::prelude::*;

verus! {

/// One end of a TCP connection: an IP address and a port.
#[derive(Debug, Clone, Copy, PartialEq, Eq)]
pub enum Endpoint {
    /// An IPv4 address, by its four octets, and a port.
    V4 { octets: [u8; 4], port: u16 },
    /// An IPv6 address, as one 128-bit number in network order, with the
    /// scope that qualifies it and a port.
    V6 { bits: u128, scope_id: u32, port: u16 },
}

impl Endpoint {
    /// Whether the address is routed within this host only: `127.0.0.0/8`
    /// for IPv4, `::1` for IPv6.
    pub open spec fn loopback(&self) -> bool {
        match *self {
            Endpoint::V4 { octets, .. } => octets[0] == 127,
            Endpoint::V6 { bits, .. } => bits == 1,
        }
    }

    /// Whether the address is a loopback address.
    #[verifier::when_used_as_spec(loopback)]
    pub fn is_loopback(&self) -> (yes: bool)
        ensures
            yes == self.loopback(),
    {
        match self {
            Endpoint::V4 { octets, .. } => octets[0] == 127,
            Endpoint::V6 { bits, .. } => *bits == 1,
        }
    }

    /// How a loopback endpoint is written: an IPv4 address as its four octets
    /// in base ten with dots between them, then a colon and the port; the
    /// IPv6 loopback address as `[::1]`, with a percent sign and the scope
    /// before the closing bracket where the scope is not zero, then a colon
    /// and the port.
    pub open spec fn text(self) -> Seq<char>
        recommends
            self.is_loopback(),
    {
        match self {
            Endpoint::V4 { octets, port } => decimal(octets[0] as nat) + seq!['.'] + decimal(
                octets[1] as nat,
            ) + seq!['.'] + decimal(octets[2] as nat) + seq!['.'] + decimal(octets[3] as nat)
                + seq![':'] + decimal(port as nat),
            Endpoint::V6 { scope_id, port, .. } => seq!['[', ':', ':', '1'] + (if scope_id == 0 {
                Seq::<char>::empty()
            } else {
                seq!['%'] + decimal(scope_id as nat)
            }) + seq![']', ':'] + decimal(port as nat),
        }
    }

    /// Appends the text of this loopback endpoint to `text`.
    pub(crate) fn push_text(&self, text: &mut String)
        requires
            self.is_loopback(),
        ensures
            final(text)@ == old(text)@ + self.text(),
    {
        proof {
            reveal_strlit(".");
            reveal_strlit(":");
            reveal_strlit("[::1");
            reveal_strlit("%");
            reveal_strlit("]:");
        }
        match self {
            Endpoint::V4 { octets, port } => {
                push_decimal(text, octets[0] as u32);
                text.append(".");
                push_decimal(text, octets[1] as u32);
                text.append(".");
                push_decimal(text, octets[2] as u32);
                text.append(".");
                push_decimal(text, octets[3] as u32);
                text.append(":");
                push_decimal(text, *port as u32);
            },
            Endpoint::V6 { scope_id, port, .. } => {
                text.append("[::1");
                if *scope_id != 0 {
                    text.append("%");
                    push_decimal(text, *scope_id);
                }
                text.append("]:");
                push_decimal(text, *port as u32);
            },
        }
    }

    /// The port.
    pub fn port(&self) -> (port: u16)
        ensures
            port == match *self {
                Endpoint::V4 { port, .. } => port,
                Endpoint::V6 { port, .. } => port,
            },
    {
        match self {
            Endpoint::V4 { port, .. } => *port,
            Endpoint::V6 { port, .. } => *port,
        }
    }
}

/// The two ends of one TCP connection as the caller sees it, both of them
/// loopback addresses.
#[derive(Debug)]
pub struct ConnectionPair {
    local: Endpoint,
    remote: Endpoint,
}

impl View for ConnectionPair {
    type V = (Endpoint, Endpoint);

    closed spec fn view(&self) -> (Endpoint, Endpoint) {
        (self.local, self.remote)
    }
}

impl ConnectionPair {
    #[verifier::type_invariant]
    spec fn both_loopback(self) -> bool {
        self.local.is_loopback() && self.remote.is_loopback()
    }

    /// Pairs `local` with `remote` if both are loopback addresses.
    pub fn new(local: Endpoint, remote: Endpoint) -> (pair: Result<ConnectionPair, RemotePidError>)
        ensures
            match pair {
                Ok(p) => local.is_loopback() && remote.is_loopback() && p@ == (local, remote),
                Err(e) => e == RemotePidError::NonLocalConnection && !(local.is_loopback()
                    && remote.is_loopback()),
            },
    {
        if !local.is_loopback() || !remote.is_loopback() {
            Err(RemotePidError::NonLocalConnection)
        } else {
            Ok(ConnectionPair { local, remote })
        }
    }

    /// The caller's end, a loopback address.
    pub fn local(&self) -> (end: Endpoint)
        ensures
            end == self@.0,
            end.is_loopback(),
    {
        proof {
            use_type_invariant(self);
        }
        self.local
    }

    /// The far end, a loopback address.
    pub fn remote(&self) -> (end: Endpoint)
        ensures
            end == self@.1,
            end.is_loopback(),
    {
        proof {
            use_type_invariant(self);
        }
        self.remote
    }
}

} // verus!
