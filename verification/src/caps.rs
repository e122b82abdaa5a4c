//! The capability record.

use vstd::prelude::*;

verus! {

/// The three capabilities as mathematical values: what a [`Probe`] stands for
/// in contracts.
pub struct ProbeView {
    /// An IPv4 stream socket can be created.
    pub ipv4: bool,
    /// An IPv6 stream socket can be created and bound to `::1`.
    pub ipv6: bool,
    /// An IPv6 stream socket can be bound to `::ffff:127.0.0.1`.
    pub ipv4_mapped_ipv6: bool,
}

impl ProbeView {
    /// The record in which no capability has been confirmed.
    pub open spec fn unsupported() -> ProbeView {
        ProbeView { ipv4: false, ipv6: false, ipv4_mapped_ipv6: false }
    }
}

/// Represents the IP stack communication capabilities of the system.
///
/// A record is only ever produced by a finished probe session, and its flags
/// cannot be changed afterwards.
#[derive(Debug, Clone, Copy, PartialEq, Eq, Structural)]
pub struct Probe {
    ipv4: bool,
    ipv6: bool,
    ipv4_mapped_ipv6: bool,
}

impl View for Probe {
    type V = ProbeView;

    closed spec fn view(&self) -> ProbeView {
        ProbeView { ipv4: self.ipv4, ipv6: self.ipv6, ipv4_mapped_ipv6: self.ipv4_mapped_ipv6 }
    }
}

impl Probe {
    /// Returns `true` if the system supports IPv4 communication.
    pub fn ipv4(&self) -> (flag: bool)
        ensures
            flag == self@.ipv4,
    {
        self.ipv4
    }

    /// Returns `true` if the system supports IPv6 communication.
    pub fn ipv6(&self) -> (flag: bool)
        ensures
            flag == self@.ipv6,
    {
        self.ipv6
    }

    /// Returns `true` if the system understands IPv4-mapped IPv6.
    pub fn ipv4_mapped_ipv6(&self) -> (flag: bool)
        ensures
            flag == self@.ipv4_mapped_ipv6,
    {
        self.ipv4_mapped_ipv6
    }

    /// The record a session starts from: nothing confirmed yet.
    pub(crate) fn unsupported() -> (caps: Probe)
        ensures
            caps@ == ProbeView::unsupported(),
    {
        Probe { ipv4: false, ipv6: false, ipv4_mapped_ipv6: false }
    }

    /// This record with IPv4 confirmed.
    pub(crate) fn with_ipv4(self) -> (caps: Probe)
        ensures
            caps@ == (ProbeView { ipv4: true, ..self@ }),
    {
        Probe { ipv4: true, ipv6: self.ipv6, ipv4_mapped_ipv6: self.ipv4_mapped_ipv6 }
    }

    /// This record with IPv6 confirmed.
    pub(crate) fn with_ipv6(self) -> (caps: Probe)
        ensures
            caps@ == (ProbeView { ipv6: true, ..self@ }),
    {
        Probe { ipv4: self.ipv4, ipv6: true, ipv4_mapped_ipv6: self.ipv4_mapped_ipv6 }
    }

    /// This record with IPv4-mapped IPv6 confirmed.
    pub(crate) fn with_ipv4_mapped_ipv6(self) -> (caps: Probe)
        ensures
            caps@ == (ProbeView { ipv4_mapped_ipv6: true, ..self@ }),
    {
        Probe { ipv4: self.ipv4, ipv6: self.ipv6, ipv4_mapped_ipv6: true }
    }

    /// A record is its three flags and nothing more: two records are equal
    /// exactly when their flags are.
    pub proof fn lemma_equal_by_flags(self, other: Probe)
        ensures
            self == other <==> self@ == other@,
    {
    }
}

} // verus!
