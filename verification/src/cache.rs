//! The probe result, kept once and served from then on.

use vstd::prelude::*;
use crate::caps::Probe;

verus! {

/// Single-assignment storage for one capability record.
///
/// A cache starts empty, is filled by the first query, and keeps that record
/// for good: nothing here empties a cache or replaces what it holds.
#[derive(Debug)]
pub struct ProbeCache {
    slot: Option<Probe>,
}

impl View for ProbeCache {
    type V = Option<Probe>;

    closed spec fn view(&self) -> Option<Probe> {
        self.slot
    }
}

impl ProbeCache {
    /// An empty cache.
    pub fn new() -> (cache: ProbeCache)
        ensures
            cache@ is None,
    {
        ProbeCache { slot: None }
    }

    /// The record the cache holds, if it holds one. This never probes.
    pub fn get(&self) -> (held: Option<Probe>)
        ensures
            held == self@,
    {
        self.slot
    }

    /// Offers the cache what a probe found, and returns the record the cache
    /// holds from now on. An empty cache takes `found`; a cache that holds a
    /// record keeps it, and `found` is dropped: of several probes that ran
    /// side by side, the first to publish is the one that counts.
    pub fn publish(&mut self, found: Probe) -> (kept: Probe)
        ensures
            served(old(self)@, kept, final(self)@),
            old(self)@ is None ==> kept == found,
    {
        match self.slot {
            Some(held) => held,
            None => {
                self.slot = Some(found);
                found
            },
        }
    }
}

/// What a query does to a cache: it answers with `caps` and leaves the cache
/// holding `caps`, and where the cache held a record before, that record is
/// the answer.
pub open spec fn served(before: Option<Probe>, caps: Probe, after: Option<Probe>) -> bool {
    &&& after == Some(caps)
    &&& before matches Some(held) ==> caps == held
}

/// Probes IPv4, IPv6 and IPv4-mapped IPv6 communication capabilities, once.
///
/// Returns the record that `cache` holds. Only where the cache is empty is
/// `init` called, which is to run a probe session, and what it returns is
/// stored and returned. A cache that holds a record is left as it is, and
/// `init` is dropped unused: it need not even be callable then.
pub fn probe<F: FnOnce() -> Probe>(cache: &mut ProbeCache, init: F) -> (caps: Probe)
    requires
        old(cache)@ is None ==> init.requires(()),
    ensures
        served(old(cache)@, caps, final(cache)@),
        old(cache)@ is None ==> init.ensures((), caps),
{
    match cache.get() {
        Some(held) => held,
        None => cache.publish(init()),
    }
}

/// Returns `true` if the system supports IPv4 communication.
///
/// This is a query like [`probe`], answered with the IPv4 flag of the record
/// in place of the record.
pub fn ipv4<F: FnOnce() -> Probe>(cache: &mut ProbeCache, init: F) -> (flag: bool)
    requires
        old(cache)@ is None ==> init.requires(()),
    ensures
        final(cache)@ matches Some(caps) && served(old(cache)@, caps, final(cache)@) && flag
            == caps@.ipv4 && (old(cache)@ is None ==> init.ensures((), caps)),
{
    probe(cache, init).ipv4()
}

/// Returns `true` if the system supports IPv6 communication.
///
/// This is a query like [`probe`], answered with the IPv6 flag of the record
/// in place of the record.
pub fn ipv6<F: FnOnce() -> Probe>(cache: &mut ProbeCache, init: F) -> (flag: bool)
    requires
        old(cache)@ is None ==> init.requires(()),
    ensures
        final(cache)@ matches Some(caps) && served(old(cache)@, caps, final(cache)@) && flag
            == caps@.ipv6 && (old(cache)@ is None ==> init.ensures((), caps)),
{
    probe(cache, init).ipv6()
}

/// Returns `true` if the system understands IPv4-mapped IPv6.
///
/// This is a query like [`probe`], answered with the IPv4-mapped flag of the
/// record in place of the record.
pub fn ipv4_mapped_ipv6<F: FnOnce() -> Probe>(cache: &mut ProbeCache, init: F) -> (flag: bool)
    requires
        old(cache)@ is None ==> init.requires(()),
    ensures
        final(cache)@ matches Some(caps) && served(old(cache)@, caps, final(cache)@) && flag
            == caps@.ipv4_mapped_ipv6 && (old(cache)@ is None ==> init.ensures((), caps)),
{
    probe(cache, init).ipv4_mapped_ipv6()
}

/// Asking again changes nothing. Of two queries on one cache, one after the
/// other, the second is answered with the record that answered the first and
/// leaves the cache as it found it. So every query after the first returns
/// the same record, and none of them runs a probe: what the second query's
/// initializer would have found plays no part in its answer.
pub proof fn lemma_query_again(
    before: Option<Probe>,
    first: Probe,
    between: Option<Probe>,
    second: Probe,
    after: Option<Probe>,
)
    requires
        served(before, first, between),
        served(between, second, after),
    ensures
        second == first,
        after == between,
{
}

/// The flag queries and the record query agree. Whatever query came first,
/// a query that follows it is answered from the same record: each flag it
/// may return is the flag of the record that answered the first.
pub proof fn lemma_flags_agree(
    before: Option<Probe>,
    first: Probe,
    between: Option<Probe>,
    second: Probe,
    after: Option<Probe>,
)
    requires
        served(before, first, between),
        served(between, second, after),
    ensures
        second@.ipv4 == first@.ipv4,
        second@.ipv6 == first@.ipv6,
        second@.ipv4_mapped_ipv6 == first@.ipv4_mapped_ipv6,
{
}

} // verus!
