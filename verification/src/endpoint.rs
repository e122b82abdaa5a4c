//! What a probe asks of the socket layer, as plain values: address families,
//! bind targets, and the two IPv6 trials.

use vstd::prelude::*;

verus! {

/// Address family of a stream socket.
#[derive(Debug, Clone, Copy, PartialEq, Eq, Structural)]
pub enum Family {
    /// IPv4.
    Inet,
    /// IPv6.
    Inet6,
}

/// An IPv6 socket address: the eight 16-bit groups of the address in the
/// order in which they are written, and the port, flow and scope fields.
#[derive(Debug, Clone, Copy, PartialEq, Eq)]
pub struct Endpoint {
    /// The address, most significant group first.
    pub segments: [u16; 8],
    /// The port; 0 asks the system for an ephemeral one.
    pub port: u16,
    /// The flow information field.
    pub flowinfo: u32,
    /// The scope identifier.
    pub scope_id: u32,
}

impl Endpoint {
    /// `[::1]:0`, the IPv6 loopback address with an ephemeral port.
    pub open spec fn spec_loopback() -> Endpoint {
        Endpoint { segments: [0, 0, 0, 0, 0, 0, 0, 1], port: 0, flowinfo: 0, scope_id: 0 }
    }

    /// `[::ffff:127.0.0.1]:0`, the IPv4 loopback address in its IPv4-mapped
    /// form, with an ephemeral port.
    pub open spec fn spec_mapped_loopback() -> Endpoint {
        Endpoint {
            segments: [0, 0, 0, 0, 0, 0xffff, 0x7f00, 0x0001],
            port: 0,
            flowinfo: 0,
            scope_id: 0,
        }
    }

    /// `[::1]:0`.
    #[verifier::when_used_as_spec(spec_loopback)]
    pub fn loopback() -> (target: Endpoint)
        ensures
            target == Endpoint::spec_loopback(),
    {
        Endpoint { segments: [0, 0, 0, 0, 0, 0, 0, 1], port: 0, flowinfo: 0, scope_id: 0 }
    }

    /// `[::ffff:127.0.0.1]:0`.
    #[verifier::when_used_as_spec(spec_mapped_loopback)]
    pub fn mapped_loopback() -> (target: Endpoint)
        ensures
            target == Endpoint::spec_mapped_loopback(),
    {
        Endpoint {
            segments: [0, 0, 0, 0, 0, 0xffff, 0x7f00, 0x0001],
            port: 0,
            flowinfo: 0,
            scope_id: 0,
        }
    }
}

} // verus!
