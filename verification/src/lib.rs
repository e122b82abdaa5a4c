//! Runtime detection of the IP communication modes a host supports: plain
//! IPv4, plain IPv6, and IPv4-mapped IPv6 (reaching an IPv4 endpoint through
//! an IPv6 socket in the `::ffff:0:0/96` range).
//!
//! The crate holds the rules of the probe and none of its system calls. A
//! [`Session`] names, one at a time, the socket operations to perform and
//! turns their reported outcomes into a [`Probe`]; a [`ProbeCache`] keeps the
//! first record that was found and serves every later query from it.

pub mod cache;
pub mod caps;
pub mod endpoint;
pub mod run;
pub mod session;

pub use cache::{ipv4, ipv4_mapped_ipv6, ipv6, probe, ProbeCache};
pub use caps::{Probe, ProbeView};
pub use endpoint::{Endpoint, Family};
pub use run::{Reports, TrialReport};
pub use session::{Action, Session, SessionView, Stage, Step, Trial};
