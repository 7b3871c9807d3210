//! Closed sets of socket flags and their kernel numbers.
//!
//! Every value of each enum maps to exactly one numeric constant of the Linux
//! ABI. The values are the same through the C library and through raw system
//! calls on Linux.
use vstd::prelude::*;

verus! {

/// `AF_*` constants.
#[derive(Debug, Clone, Copy, PartialEq, Eq, Hash)]
pub enum AddressFamily {
    /// `AF_LOCAL`, aka `AF_UNIX`.
    Local,
    /// `AF_INET`.
    Inet,
    /// `AF_INET6`.
    Inet6,
    /// `AF_NETLINK`.
    Netlink,
}

impl AddressFamily {
    /// The kernel's number for this family.
    pub open spec fn code(self) -> u32 {
        match self {
            AddressFamily::Local => 1,
            AddressFamily::Inet => 2,
            AddressFamily::Inet6 => 10,
            AddressFamily::Netlink => 16,
        }
    }

    /// The family that the kernel number `v` stands for, if any.
    pub open spec fn from_code(v: u32) -> Option<AddressFamily> {
        if v == 1 {
            Some(AddressFamily::Local)
        } else if v == 2 {
            Some(AddressFamily::Inet)
        } else if v == 10 {
            Some(AddressFamily::Inet6)
        } else if v == 16 {
            Some(AddressFamily::Netlink)
        } else {
            None
        }
    }

    /// The kernel's number for this family.
    pub fn as_raw(self) -> (r: u32)
        ensures
            r == self.code(),
    {
        match self {
            AddressFamily::Local => 1,
            AddressFamily::Inet => 2,
            AddressFamily::Inet6 => 10,
            AddressFamily::Netlink => 16,
        }
    }

    /// Decodes a kernel family number; `None` where no family has it.
    pub fn from_raw(v: u32) -> (r: Option<AddressFamily>)
        ensures
            r == AddressFamily::from_code(v),
    {
        if v == 1 {
            Some(AddressFamily::Local)
        } else if v == 2 {
            Some(AddressFamily::Inet)
        } else if v == 10 {
            Some(AddressFamily::Inet6)
        } else if v == 16 {
            Some(AddressFamily::Netlink)
        } else {
            None
        }
    }
}

/// `SOCK_*` constants for `socket`.
#[derive(Debug, Clone, Copy, PartialEq, Eq, Hash)]
pub enum SocketType {
    /// `SOCK_STREAM`.
    Stream,
    /// `SOCK_DGRAM`.
    Datagram,
    /// `SOCK_SEQPACKET`.
    SeqPacket,
    /// `SOCK_RAW`.
    Raw,
    /// `SOCK_RDM`.
    Rdm,
}

impl SocketType {
    /// The kernel's number for this socket type.
    pub open spec fn code(self) -> u32 {
        match self {
            SocketType::Stream => 1,
            SocketType::Datagram => 2,
            SocketType::SeqPacket => 5,
            SocketType::Raw => 3,
            SocketType::Rdm => 4,
        }
    }

    /// The socket type that the kernel number `v` stands for, if any.
    pub open spec fn from_code(v: u32) -> Option<SocketType> {
        if v == 1 {
            Some(SocketType::Stream)
        } else if v == 2 {
            Some(SocketType::Datagram)
        } else if v == 3 {
            Some(SocketType::Raw)
        } else if v == 4 {
            Some(SocketType::Rdm)
        } else if v == 5 {
            Some(SocketType::SeqPacket)
        } else {
            None
        }
    }

    /// The kernel's number for this socket type.
    pub fn as_raw(self) -> (r: u32)
        ensures
            r == self.code(),
    {
        match self {
            SocketType::Stream => 1,
            SocketType::Datagram => 2,
            SocketType::SeqPacket => 5,
            SocketType::Raw => 3,
            SocketType::Rdm => 4,
        }
    }

    /// Decodes a kernel socket type number; `None` where no type has it.
    pub fn from_raw(v: u32) -> (r: Option<SocketType>)
        ensures
            r == SocketType::from_code(v),
    {
        if v == 1 {
            Some(SocketType::Stream)
        } else if v == 2 {
            Some(SocketType::Datagram)
        } else if v == 3 {
            Some(SocketType::Raw)
        } else if v == 4 {
            Some(SocketType::Rdm)
        } else if v == 5 {
            Some(SocketType::SeqPacket)
        } else {
            None
        }
    }
}

/// `IPPROTO_*` constants.
#[derive(Debug, Clone, Copy, PartialEq, Eq, Hash)]
pub enum Protocol {
    /// `IPPROTO_IP`.
    Ip,
    /// `IPPROTO_ICMP`.
    Icmp,
    /// `IPPROTO_IGMP`.
    Igmp,
    /// `IPPROTO_IPIP`.
    Ipip,
    /// `IPPROTO_TCP`.
    Tcp,
    /// `IPPROTO_EGP`.
    Egp,
    /// `IPPROTO_PUP`.
    Pup,
    /// `IPPROTO_UDP`.
    Udp,
    /// `IPPROTO_IDP`.
    Idp,
    /// `IPPROTO_TP`.
    Tp,
    /// `IPPROTO_DCCP`.
    Dccp,
    /// `IPPROTO_IPV6`.
    Ipv6,
    /// `IPPROTO_RSVP`.
    Rsvp,
    /// `IPPROTO_GRE`.
    Gre,
    /// `IPPROTO_ESP`.
    Esp,
    /// `IPPROTO_AH`.
    Ah,
    /// `IPPROTO_MTP`.
    Mtp,
    /// `IPPROTO_BEETPH`.
    Beetph,
    /// `IPPROTO_ENCAP`.
    Encap,
    /// `IPPROTO_PIM`.
    Pim,
    /// `IPPROTO_COMP`.
    Comp,
    /// `IPPROTO_SCTP`.
    Sctp,
    /// `IPPROTO_UDPLITE`.
    Udplite,
    /// `IPPROTO_MPLS`.
    Mpls,
    /// `IPPROTO_ETHERNET`.
    Ethernet,
    /// `IPPROTO_RAW`.
    Raw,
    /// `IPPROTO_MPTCP`.
    Mptcp,
}

impl Protocol {
    /// The kernel's number for this protocol.
    pub open spec fn code(self) -> u32 {
        match self {
            Protocol::Ip => 0,
            Protocol::Icmp => 1,
            Protocol::Igmp => 2,
            Protocol::Ipip => 4,
            Protocol::Tcp => 6,
            Protocol::Egp => 8,
            Protocol::Pup => 12,
            Protocol::Udp => 17,
            Protocol::Idp => 22,
            Protocol::Tp => 29,
            Protocol::Dccp => 33,
            Protocol::Ipv6 => 41,
            Protocol::Rsvp => 46,
            Protocol::Gre => 47,
            Protocol::Esp => 50,
            Protocol::Ah => 51,
            Protocol::Mtp => 92,
            Protocol::Beetph => 94,
            Protocol::Encap => 98,
            Protocol::Pim => 103,
            Protocol::Comp => 108,
            Protocol::Sctp => 132,
            Protocol::Udplite => 136,
            Protocol::Mpls => 137,
            Protocol::Ethernet => 143,
            Protocol::Raw => 255,
            Protocol::Mptcp => 262,
        }
    }

    /// The protocol that the kernel number `v` stands for, if any.
    pub open spec fn from_code(v: u32) -> Option<Protocol> {
        if v == 0 {
            Some(Protocol::Ip)
        } else if v == 1 {
            Some(Protocol::Icmp)
        } else if v == 2 {
            Some(Protocol::Igmp)
        } else if v == 4 {
            Some(Protocol::Ipip)
        } else if v == 6 {
            Some(Protocol::Tcp)
        } else if v == 8 {
            Some(Protocol::Egp)
        } else if v == 12 {
            Some(Protocol::Pup)
        } else if v == 17 {
            Some(Protocol::Udp)
        } else if v == 22 {
            Some(Protocol::Idp)
        } else if v == 29 {
            Some(Protocol::Tp)
        } else if v == 33 {
            Some(Protocol::Dccp)
        } else if v == 41 {
            Some(Protocol::Ipv6)
        } else if v == 46 {
            Some(Protocol::Rsvp)
        } else if v == 47 {
            Some(Protocol::Gre)
        } else if v == 50 {
            Some(Protocol::Esp)
        } else if v == 51 {
            Some(Protocol::Ah)
        } else if v == 92 {
            Some(Protocol::Mtp)
        } else if v == 94 {
            Some(Protocol::Beetph)
        } else if v == 98 {
            Some(Protocol::Encap)
        } else if v == 103 {
            Some(Protocol::Pim)
        } else if v == 108 {
            Some(Protocol::Comp)
        } else if v == 132 {
            Some(Protocol::Sctp)
        } else if v == 136 {
            Some(Protocol::Udplite)
        } else if v == 137 {
            Some(Protocol::Mpls)
        } else if v == 143 {
            Some(Protocol::Ethernet)
        } else if v == 255 {
            Some(Protocol::Raw)
        } else if v == 262 {
            Some(Protocol::Mptcp)
        } else {
            None
        }
    }

    /// The kernel's number for this protocol.
    pub fn as_raw(self) -> (r: u32)
        ensures
            r == self.code(),
    {
        match self {
            Protocol::Ip => 0,
            Protocol::Icmp => 1,
            Protocol::Igmp => 2,
            Protocol::Ipip => 4,
            Protocol::Tcp => 6,
            Protocol::Egp => 8,
            Protocol::Pup => 12,
            Protocol::Udp => 17,
            Protocol::Idp => 22,
            Protocol::Tp => 29,
            Protocol::Dccp => 33,
            Protocol::Ipv6 => 41,
            Protocol::Rsvp => 46,
            Protocol::Gre => 47,
            Protocol::Esp => 50,
            Protocol::Ah => 51,
            Protocol::Mtp => 92,
            Protocol::Beetph => 94,
            Protocol::Encap => 98,
            Protocol::Pim => 103,
            Protocol::Comp => 108,
            Protocol::Sctp => 132,
            Protocol::Udplite => 136,
            Protocol::Mpls => 137,
            Protocol::Ethernet => 143,
            Protocol::Raw => 255,
            Protocol::Mptcp => 262,
        }
    }
}

/// `SHUT_*` constants.
#[derive(Debug, Clone, Copy, PartialEq, Eq, Hash)]
pub enum Shutdown {
    /// `SHUT_RD`.
    Read,
    /// `SHUT_WR`.
    Write,
    /// `SHUT_RDWR`.
    ReadWrite,
}

impl Shutdown {
    /// The kernel's number for this shutdown mode.
    pub open spec fn code(self) -> u32 {
        match self {
            Shutdown::Read => 0,
            Shutdown::Write => 1,
            Shutdown::ReadWrite => 2,
        }
    }

    /// The shutdown mode that the kernel number `v` stands for, if any.
    pub open spec fn from_code(v: u32) -> Option<Shutdown> {
        if v == 0 {
            Some(Shutdown::Read)
        } else if v == 1 {
            Some(Shutdown::Write)
        } else if v == 2 {
            Some(Shutdown::ReadWrite)
        } else {
            None
        }
    }

    /// The kernel's number for this shutdown mode.
    pub fn as_raw(self) -> (r: u32)
        ensures
            r == self.code(),
    {
        match self {
            Shutdown::Read => 0,
            Shutdown::Write => 1,
            Shutdown::ReadWrite => 2,
        }
    }
}

/// `SOCK_NONBLOCK` (the kernel's `O_NONBLOCK`).
pub const SOCK_NONBLOCK: u32 = 2048;

/// `SOCK_CLOEXEC` (the kernel's `O_CLOEXEC`).
pub const SOCK_CLOEXEC: u32 = 524288;

/// `SOCK_*` flags for `accept4`: a subset of {`SOCK_NONBLOCK`, `SOCK_CLOEXEC`}.
///
/// The type holds one switch per flag, so no other bit can ever be set.
#[derive(Debug, Clone, Copy, PartialEq, Eq, Hash)]
pub struct AcceptFlags {
    /// Sets `O_NONBLOCK` on the accepted descriptor.
    pub nonblock: bool,
    /// Sets close-on-exec on the accepted descriptor.
    pub cloexec: bool,
}

impl AcceptFlags {
    /// No flag.
    pub fn empty() -> (r: AcceptFlags)
        ensures
            !r.nonblock && !r.cloexec,
    {
        AcceptFlags { nonblock: false, cloexec: false }
    }

    /// The bit pattern the kernel expects for this set.
    pub open spec fn code(self) -> u32 {
        ((if self.nonblock {
            SOCK_NONBLOCK
        } else {
            0
        }) + (if self.cloexec {
            SOCK_CLOEXEC
        } else {
            0
        })) as u32
    }

    /// The flags set in either `self` or `other`.
    pub fn union(self, other: AcceptFlags) -> (r: AcceptFlags)
        ensures
            r.nonblock == (self.nonblock || other.nonblock),
            r.cloexec == (self.cloexec || other.cloexec),
    {
        AcceptFlags { nonblock: self.nonblock || other.nonblock, cloexec: self.cloexec || other.cloexec }
    }

    /// Whether every flag of `other` is set in `self`.
    pub fn contains(self, other: AcceptFlags) -> (r: bool)
        ensures
            r == ((other.nonblock ==> self.nonblock) && (other.cloexec ==> self.cloexec)),
    {
        (!other.nonblock || self.nonblock) && (!other.cloexec || self.cloexec)
    }

    /// The bit pattern the kernel expects for this set.
    pub fn bits(self) -> (r: u32)
        ensures
            r == self.code(),
    {
        let nb: u32 = if self.nonblock {
            SOCK_NONBLOCK
        } else {
            0
        };
        let ce: u32 = if self.cloexec {
            SOCK_CLOEXEC
        } else {
            0
        };
        nb + ce
    }
}

/// Each closed set maps its values to pairwise distinct kernel numbers, and
/// each number decodes back to the value it came from.
pub proof fn lemma_flag_codes_round_trip()
    ensures
        forall|f: AddressFamily| #[trigger] AddressFamily::from_code(f.code()) == Some(f),
        forall|t: SocketType| #[trigger] SocketType::from_code(t.code()) == Some(t),
        forall|p: Protocol| #[trigger] Protocol::from_code(p.code()) == Some(p),
        forall|s: Shutdown| #[trigger] Shutdown::from_code(s.code()) == Some(s),
        forall|a: AddressFamily, b: AddressFamily| a.code() == b.code() ==> a == b,
        forall|a: SocketType, b: SocketType| a.code() == b.code() ==> a == b,
        forall|a: Protocol, b: Protocol| a.code() == b.code() ==> a == b,
        forall|a: Shutdown, b: Shutdown| a.code() == b.code() ==> a == b,
        forall|a: AcceptFlags, b: AcceptFlags| a.code() == b.code() ==> a == b,
{
    assert forall|a: AddressFamily, b: AddressFamily| a.code() == b.code() implies a == b by {
        assert(AddressFamily::from_code(a.code()) == Some(a));
        assert(AddressFamily::from_code(b.code()) == Some(b));
    }
    assert forall|a: SocketType, b: SocketType| a.code() == b.code() implies a == b by {
        assert(SocketType::from_code(a.code()) == Some(a));
        assert(SocketType::from_code(b.code()) == Some(b));
    }
    assert forall|a: Protocol, b: Protocol| a.code() == b.code() implies a == b by {
        assert(Protocol::from_code(a.code()) == Some(a));
        assert(Protocol::from_code(b.code()) == Some(b));
    }
    assert forall|a: Shutdown, b: Shutdown| a.code() == b.code() implies a == b by {
        assert(Shutdown::from_code(a.code()) == Some(a));
        assert(Shutdown::from_code(b.code()) == Some(b));
    }
}

} // verus!
