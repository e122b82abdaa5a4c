use iprobe::{probe, Action, Family, Probe, ProbeCache, Session, Step};
use rustix::fd::OwnedFd;
use rustix::net::sockopt::set_ipv6_v6only;
use rustix::net::{bind, ipproto, socket, AddressFamily, Ipv6Addr, SocketAddr, SocketAddrV6, SocketType};

/// Performs one operation on this host's socket layer.
fn perform(action: Action, sock: &mut Option<OwnedFd>) -> bool {
    match action {
        Action::Startup | Action::Cleanup => true,
        Action::Open(family) => {
            let domain = match family {
                Family::Inet => AddressFamily::INET,
                Family::Inet6 => AddressFamily::INET6,
            };
            *sock = socket(domain, SocketType::STREAM, Some(ipproto::TCP)).ok();
            sock.is_some()
        }
        Action::SetV6Only(only) => match sock {
            Some(fd) => set_ipv6_v6only(fd, only).is_ok(),
            None => false,
        },
        Action::Bind(target) => match sock {
            Some(fd) => {
                let addr = SocketAddrV6::new(
                    Ipv6Addr::from(target.segments),
                    target.port,
                    target.flowinfo,
                    target.scope_id,
                );
                bind(fd, &SocketAddr::V6(addr)).is_ok()
            }
            None => false,
        },
        Action::Close => sock.take().is_some(),
    }
}

/// Runs one probe session against this host.
fn probe_host() -> Probe {
    let mut session = Session::new();
    let mut sock: Option<OwnedFd> = None;
    loop {
        match session.pending() {
            Step::Done(caps) => {
                assert!(sock.is_none());
                return caps;
            }
            Step::Perform(action) => {
                let ok = perform(action, &mut sock);
                session.advance(ok);
            }
        }
    }
}

#[test]
fn test() {
    let mut cache = ProbeCache::new();
    let caps = probe(&mut cache, probe_host);
    println!("IPv4 enabled: {}", caps.ipv4());
    println!("IPv6 enabled: {}", caps.ipv6());
    println!("IPv4-mapped IPv6 enabled: {}", caps.ipv4_mapped_ipv6());
}

#[test]
fn host_probe_is_served_from_the_cache() {
    let mut cache = ProbeCache::new();
    let first = probe(&mut cache, probe_host);
    let again = probe(&mut cache, || -> Probe { panic!("the cache holds a record") });
    assert_eq!(again, first);
    assert_eq!(cache.get(), Some(first));
}
