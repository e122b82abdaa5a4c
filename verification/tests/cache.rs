use iprobe::{ipv4, ipv4_mapped_ipv6, ipv6, probe, Probe, ProbeCache, Session, Step};
use std::cell::Cell;

/// A record as a session finds it when the three checks end as given.
fn record(inet: bool, plain: bool, mapped: bool) -> Probe {
    let mut session = Session::new();
    let mut trial: u32 = 0;
    loop {
        match session.pending() {
            Step::Done(caps) => return caps,
            Step::Perform(action) => {
                let ok = match action {
                    iprobe::Action::Open(iprobe::Family::Inet) => inet,
                    iprobe::Action::Open(iprobe::Family::Inet6) => {
                        trial += 1;
                        true
                    }
                    iprobe::Action::Bind(_) => {
                        if trial == 1 {
                            plain
                        } else {
                            mapped
                        }
                    }
                    _ => true,
                };
                session.advance(ok);
            }
        }
    }
}

#[test]
fn new_cache_is_empty() {
    let cache = ProbeCache::new();
    assert_eq!(cache.get(), None);
}

#[test]
fn first_query_probes_and_fills_the_cache() {
    let mut cache = ProbeCache::new();
    let runs = Cell::new(0u32);
    let caps = probe(&mut cache, || {
        runs.set(runs.get() + 1);
        record(true, false, true)
    });
    assert_eq!(runs.get(), 1);
    assert_eq!(caps, record(true, false, true));
    assert_eq!(cache.get(), Some(caps));
}

#[test]
fn later_queries_do_not_probe_again() {
    let mut cache = ProbeCache::new();
    let runs = Cell::new(0u32);
    let first = probe(&mut cache, || {
        runs.set(runs.get() + 1);
        record(true, true, false)
    });
    for _ in 0..5 {
        let again = probe(&mut cache, || {
            runs.set(runs.get() + 1);
            record(false, false, true)
        });
        assert_eq!(again, first);
        assert_eq!(cache.get(), Some(first));
    }
    assert_eq!(runs.get(), 1);
    assert_eq!(
        (first.ipv4(), first.ipv6(), first.ipv4_mapped_ipv6()),
        (true, true, false)
    );
}

#[test]
fn flag_queries_agree_with_the_record() {
    for bits in 0u32..8 {
        let found = record(bits & 1 != 0, bits & 2 != 0, bits & 4 != 0);
        let mut cache = ProbeCache::new();
        let caps = probe(&mut cache, || found);
        let other = record(bits & 1 == 0, bits & 2 == 0, bits & 4 == 0);
        assert_eq!(ipv4(&mut cache, || other), caps.ipv4());
        assert_eq!(ipv6(&mut cache, || other), caps.ipv6());
        assert_eq!(ipv4_mapped_ipv6(&mut cache, || other), caps.ipv4_mapped_ipv6());
        assert_eq!(caps.ipv4(), bits & 1 != 0);
        assert_eq!(caps.ipv6(), bits & 2 != 0);
        assert_eq!(caps.ipv4_mapped_ipv6(), bits & 4 != 0);
        assert_eq!(probe(&mut cache, || other), caps);
    }
}

#[test]
fn flag_query_on_an_empty_cache_probes_once() {
    let mut cache = ProbeCache::new();
    let runs = Cell::new(0u32);
    let flag = ipv6(&mut cache, || {
        runs.set(runs.get() + 1);
        record(false, true, false)
    });
    assert!(flag);
    assert!(!ipv4(&mut cache, || {
        runs.set(runs.get() + 1);
        record(true, true, true)
    }));
    assert!(!ipv4_mapped_ipv6(&mut cache, || {
        runs.set(runs.get() + 1);
        record(true, true, true)
    }));
    assert_eq!(runs.get(), 1);
    assert_eq!(cache.get(), Some(record(false, true, false)));
}

#[test]
fn empty_cache_takes_what_is_published() {
    let mut cache = ProbeCache::new();
    let found = record(true, true, false);
    assert_eq!(cache.publish(found), found);
    assert_eq!(cache.get(), Some(found));
}

#[test]
fn first_published_record_is_kept() {
    let mut cache = ProbeCache::new();
    let first = record(true, false, false);
    let late = record(true, true, true);
    assert_eq!(cache.publish(first), first);
    assert_eq!(cache.publish(late), first);
    assert_eq!(cache.get(), Some(first));
    assert_eq!(probe(&mut cache, || late), first);
}

#[test]
fn records_compare_by_their_flags() {
    assert_eq!(record(true, false, true), record(true, false, true));
    assert_ne!(record(true, false, true), record(true, true, true));
    let caps = record(false, true, false);
    let copy = caps;
    assert_eq!(caps, copy);
}
