use linux_raw_sys::net as k;
use sockcore::flags::{AcceptFlags, AddressFamily, Protocol, Shutdown, SocketType};

#[test]
fn address_family_matches_libc_and_kernel_headers() {
    let cases = [
        (AddressFamily::Local, libc::AF_LOCAL, linux_raw_sys::net::AF_UNIX),
        (AddressFamily::Inet, libc::AF_INET, linux_raw_sys::net::AF_INET),
        (AddressFamily::Inet6, libc::AF_INET6, linux_raw_sys::net::AF_INET6),
        (AddressFamily::Netlink, libc::AF_NETLINK, linux_raw_sys::net::AF_NETLINK),
    ];
    for (f, c, k) in cases {
        assert_eq!(f.as_raw(), c as u32);
        assert_eq!(f.as_raw(), k);
        assert_eq!(AddressFamily::from_raw(f.as_raw()), Some(f));
    }
    assert_eq!(AddressFamily::from_raw(0), None);
    assert_eq!(AddressFamily::from_raw(3), None);
}

#[test]
fn socket_type_matches_libc_and_kernel_headers() {
    let cases = [
        (SocketType::Stream, libc::SOCK_STREAM, linux_raw_sys::net::SOCK_STREAM),
        (SocketType::Datagram, libc::SOCK_DGRAM, linux_raw_sys::net::SOCK_DGRAM),
        (SocketType::SeqPacket, libc::SOCK_SEQPACKET, linux_raw_sys::net::SOCK_SEQPACKET),
        (SocketType::Raw, libc::SOCK_RAW, linux_raw_sys::net::SOCK_RAW),
        (SocketType::Rdm, libc::SOCK_RDM, linux_raw_sys::net::SOCK_RDM),
    ];
    for (t, c, k) in cases {
        assert_eq!(t.as_raw(), c as u32);
        assert_eq!(t.as_raw(), k);
        assert_eq!(SocketType::from_raw(t.as_raw()), Some(t));
    }
    assert_eq!(SocketType::from_raw(0), None);
    assert_eq!(SocketType::from_raw(6), None);
}

#[test]
fn protocol_matches_libc_and_kernel_headers() {
    let cases = [
        (Protocol::Ip, libc::IPPROTO_IP, k::IPPROTO_IP as u32),
        (Protocol::Icmp, libc::IPPROTO_ICMP, k::IPPROTO_ICMP as u32),
        (Protocol::Igmp, libc::IPPROTO_IGMP, k::IPPROTO_IGMP as u32),
        (Protocol::Ipip, libc::IPPROTO_IPIP, k::IPPROTO_IPIP as u32),
        (Protocol::Tcp, libc::IPPROTO_TCP, k::IPPROTO_TCP as u32),
        (Protocol::Egp, libc::IPPROTO_EGP, k::IPPROTO_EGP as u32),
        (Protocol::Pup, libc::IPPROTO_PUP, k::IPPROTO_PUP as u32),
        (Protocol::Udp, libc::IPPROTO_UDP, k::IPPROTO_UDP as u32),
        (Protocol::Idp, libc::IPPROTO_IDP, k::IPPROTO_IDP as u32),
        (Protocol::Tp, libc::IPPROTO_TP, k::IPPROTO_TP as u32),
        (Protocol::Dccp, libc::IPPROTO_DCCP, k::IPPROTO_DCCP as u32),
        (Protocol::Ipv6, libc::IPPROTO_IPV6, k::IPPROTO_IPV6 as u32),
        (Protocol::Rsvp, libc::IPPROTO_RSVP, k::IPPROTO_RSVP as u32),
        (Protocol::Gre, libc::IPPROTO_GRE, k::IPPROTO_GRE as u32),
        (Protocol::Esp, libc::IPPROTO_ESP, k::IPPROTO_ESP as u32),
        (Protocol::Ah, libc::IPPROTO_AH, k::IPPROTO_AH as u32),
        (Protocol::Mtp, libc::IPPROTO_MTP, k::IPPROTO_MTP as u32),
        (Protocol::Beetph, libc::IPPROTO_BEETPH, k::IPPROTO_BEETPH as u32),
        (Protocol::Encap, libc::IPPROTO_ENCAP, k::IPPROTO_ENCAP as u32),
        (Protocol::Pim, libc::IPPROTO_PIM, k::IPPROTO_PIM as u32),
        (Protocol::Comp, libc::IPPROTO_COMP, k::IPPROTO_COMP as u32),
        (Protocol::Sctp, libc::IPPROTO_SCTP, k::IPPROTO_SCTP as u32),
        (Protocol::Udplite, libc::IPPROTO_UDPLITE, k::IPPROTO_UDPLITE as u32),
        (Protocol::Mpls, libc::IPPROTO_MPLS, k::IPPROTO_MPLS as u32),
        (Protocol::Ethernet, libc::IPPROTO_ETHERNET, k::IPPROTO_ETHERNET as u32),
        (Protocol::Raw, libc::IPPROTO_RAW, k::IPPROTO_RAW as u32),
        (Protocol::Mptcp, libc::IPPROTO_MPTCP, k::IPPROTO_MPTCP as u32),
    ];
    let mut seen: Vec<u32> = Vec::new();
    for (p, c, kv) in cases {
        assert_eq!(p.as_raw(), c as u32);
        assert_eq!(p.as_raw(), kv);
        assert!(!seen.contains(&p.as_raw()));
        seen.push(p.as_raw());
    }
}

#[test]
fn shutdown_matches_libc_and_kernel_headers() {
    let cases = [
        (Shutdown::Read, libc::SHUT_RD, linux_raw_sys::net::SHUT_RD),
        (Shutdown::Write, libc::SHUT_WR, linux_raw_sys::net::SHUT_WR),
        (Shutdown::ReadWrite, libc::SHUT_RDWR, linux_raw_sys::net::SHUT_RDWR),
    ];
    for (s, c, k) in cases {
        assert_eq!(s.as_raw(), c as u32);
        assert_eq!(s.as_raw(), k);
    }
}

#[test]
fn accept_flags_bits() {
    let nb = AcceptFlags { nonblock: true, cloexec: false };
    let ce = AcceptFlags { nonblock: false, cloexec: true };
    assert_eq!(AcceptFlags::empty().bits(), 0);
    assert_eq!(nb.bits(), libc::SOCK_NONBLOCK as u32);
    assert_eq!(nb.bits(), linux_raw_sys::general::O_NONBLOCK);
    assert_eq!(ce.bits(), libc::SOCK_CLOEXEC as u32);
    assert_eq!(ce.bits(), linux_raw_sys::general::O_CLOEXEC);
    let both = nb.union(ce);
    assert_eq!(both.bits(), (libc::SOCK_NONBLOCK | libc::SOCK_CLOEXEC) as u32);
    assert!(both.contains(nb));
    assert!(both.contains(ce));
    assert!(!nb.contains(ce));
    assert!(nb.contains(AcceptFlags::empty()));
}
