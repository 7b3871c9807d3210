//! Socket addresses and their kernel byte layouts.
//!
//! Each typed address encodes to the fixed layout of `struct sockaddr_in`,
//! `struct sockaddr_in6` or `struct sockaddr_un` on little-endian Linux:
//! the family tag and the IPv6 scope id in host order, port and flow info in
//! network order. Decoding reads the family tag first, checks the reported
//! length against that family's layout, and only then reads the rest.
use crate::flags::AddressFamily;
use vstd::prelude::*;

verus! {

/// Size of `struct sockaddr_in`.
pub const SOCKADDR_IN_LEN: usize = 16;

/// Size of `struct sockaddr_in6`.
pub const SOCKADDR_IN6_LEN: usize = 28;

/// Size of `struct sockaddr_un`.
pub const SOCKADDR_UN_LEN: usize = 110;

/// Size of the `sun_path` field of `struct sockaddr_un`.
pub const SUN_PATH_LEN: usize = 108;

/// Size of `struct sockaddr_storage`, the largest address the kernel returns.
pub const SOCKADDR_STORAGE_LEN: usize = 128;

/// An IPv4 endpoint.
#[derive(Debug, Clone, Copy, PartialEq, Eq, Hash)]
pub struct SocketAddrV4 {
    /// The address, most significant octet first.
    pub ip: [u8; 4],
    pub port: u16,
}

/// An IPv6 endpoint.
#[derive(Debug, Clone, Copy, PartialEq, Eq, Hash)]
pub struct SocketAddrV6 {
    /// The address, most significant octet first.
    pub ip: [u8; 16],
    pub port: u16,
    pub flowinfo: u32,
    pub scope_id: u32,
}

/// A Unix-domain address: the whole `sun_path` field.
///
/// A path shorter than the field is followed by zero bytes; a leading zero
/// byte marks an abstract address.
#[derive(Debug, Clone, Copy, PartialEq, Eq, Hash)]
pub struct SocketAddrUnix {
    pub sun_path: [u8; 108],
}

/// A typed socket address of one of the supported families.
#[derive(Debug, Clone, Copy, PartialEq, Eq, Hash)]
pub enum SocketAddr {
    V4(SocketAddrV4),
    V6(SocketAddrV6),
    Unix(SocketAddrUnix),
}

/// Why a kernel-filled address buffer could not be decoded.
#[derive(Debug, Clone, Copy, PartialEq, Eq, Hash)]
pub enum DecodeError {
    /// Fewer than two bytes are available: the family tag itself is missing.
    MissingFamily { len: usize },
    /// The family tag names none of IPv4, IPv6 and Unix.
    UnsupportedFamily { tag: u16 },
    /// The reported length is shorter than the layout of the tagged family.
    Truncated { family: AddressFamily, len: usize },
}

/// Two bytes of `v`, least significant first.
pub open spec fn le16_bytes(v: u16) -> Seq<u8> {
    seq![(v % 256) as u8, (v / 256) as u8]
}

/// Two bytes of `v`, most significant first.
pub open spec fn be16_bytes(v: u16) -> Seq<u8> {
    seq![(v / 256) as u8, (v % 256) as u8]
}

/// Four bytes of `v`, least significant first.
pub open spec fn le32_bytes(v: u32) -> Seq<u8> {
    seq![(v % 256) as u8, (v / 256 % 256) as u8, (v / 0x1_0000 % 256) as u8, (v / 0x100_0000) as u8]
}

/// Four bytes of `v`, most significant first.
pub open spec fn be32_bytes(v: u32) -> Seq<u8> {
    seq![(v / 0x100_0000) as u8, (v / 0x1_0000 % 256) as u8, (v / 256 % 256) as u8, (v % 256) as u8]
}

/// The little-endian `u16` at `b[i..i + 2]`.
pub open spec fn le16_at(b: Seq<u8>, i: int) -> u16 {
    (b[i] + 256 * b[i + 1]) as u16
}

/// The big-endian `u16` at `b[i..i + 2]`.
pub open spec fn be16_at(b: Seq<u8>, i: int) -> u16 {
    (256 * b[i] + b[i + 1]) as u16
}

/// The little-endian `u32` at `b[i..i + 4]`.
pub open spec fn le32_at(b: Seq<u8>, i: int) -> u32 {
    (b[i] + 256 * b[i + 1] + 0x1_0000 * b[i + 2] + 0x100_0000 * b[i + 3]) as u32
}

/// The big-endian `u32` at `b[i..i + 4]`.
pub open spec fn be32_at(b: Seq<u8>, i: int) -> u32 {
    (0x100_0000 * b[i] + 0x1_0000 * b[i + 1] + 256 * b[i + 2] + b[i + 3]) as u32
}

/// `n` zero bytes.
pub open spec fn zeros(n: nat) -> Seq<u8> {
    Seq::new(n, |i: int| 0u8)
}

/// The array of length `N` whose bytes are `s`.
pub open spec fn array_from<const N: usize>(s: Seq<u8>) -> [u8; N] {
    choose|a: [u8; N]| a@ == s
}

/// The family tag of a layout, as the kernel stores it.
pub open spec fn family_tag(f: AddressFamily) -> u16 {
    f.code() as u16
}

/// The `struct sockaddr_in` bytes for `a`.
pub open spec fn encode_v4_spec(a: SocketAddrV4) -> Seq<u8> {
    le16_bytes(family_tag(AddressFamily::Inet)) + be16_bytes(a.port) + a.ip@ + zeros(8)
}

/// The `struct sockaddr_in6` bytes for `a`.
pub open spec fn encode_v6_spec(a: SocketAddrV6) -> Seq<u8> {
    le16_bytes(family_tag(AddressFamily::Inet6)) + be16_bytes(a.port) + be32_bytes(a.flowinfo)
        + a.ip@ + le32_bytes(a.scope_id)
}

/// The `struct sockaddr_un` bytes for `a`.
pub open spec fn encode_unix_spec(a: SocketAddrUnix) -> Seq<u8> {
    le16_bytes(family_tag(AddressFamily::Local)) + a.sun_path@
}

/// The kernel layout of any supported address.
pub open spec fn encode_spec(a: SocketAddr) -> Seq<u8> {
    match a {
        SocketAddr::V4(v4) => encode_v4_spec(v4),
        SocketAddr::V6(v6) => encode_v6_spec(v6),
        SocketAddr::Unix(un) => encode_unix_spec(un),
    }
}

/// The family of an address.
pub open spec fn family_of(a: SocketAddr) -> AddressFamily {
    match a {
        SocketAddr::V4(_) => AddressFamily::Inet,
        SocketAddr::V6(_) => AddressFamily::Inet6,
        SocketAddr::Unix(_) => AddressFamily::Local,
    }
}

/// The size of the kernel layout of family `f`, for the families with one.
pub open spec fn layout_len(f: AddressFamily) -> nat {
    match f {
        AddressFamily::Inet => SOCKADDR_IN_LEN as nat,
        AddressFamily::Inet6 => SOCKADDR_IN6_LEN as nat,
        AddressFamily::Local => SOCKADDR_UN_LEN as nat,
        AddressFamily::Netlink => 0,
    }
}

/// The IPv4 address in a `struct sockaddr_in` at the start of `b`.
pub open spec fn v4_from(b: Seq<u8>) -> SocketAddrV4 {
    SocketAddrV4 { ip: array_from::<4>(b.subrange(4, 8)), port: be16_at(b, 2) }
}

/// The IPv6 address in a `struct sockaddr_in6` at the start of `b`.
pub open spec fn v6_from(b: Seq<u8>) -> SocketAddrV6 {
    SocketAddrV6 {
        ip: array_from::<16>(b.subrange(8, 24)),
        port: be16_at(b, 2),
        flowinfo: be32_at(b, 4),
        scope_id: le32_at(b, 24),
    }
}

/// The Unix address in a `struct sockaddr_un` at the start of `b`.
pub open spec fn unix_from(b: Seq<u8>) -> SocketAddrUnix {
    SocketAddrUnix { sun_path: array_from::<108>(b.subrange(2, 110)) }
}

/// How many bytes of `b` may be read when the kernel reported `len`.
pub open spec fn readable(b: Seq<u8>, len: usize) -> int {
    if len < b.len() {
        len as int
    } else {
        b.len() as int
    }
}

/// What decoding `b` with reported length `len` gives.
pub open spec fn decode_spec(b: Seq<u8>, len: usize) -> Result<SocketAddr, DecodeError> {
    let n = readable(b, len);
    if n < 2 {
        Err(DecodeError::MissingFamily { len })
    } else {
        let tag = le16_at(b, 0);
        match AddressFamily::from_code(tag as u32) {
            Some(AddressFamily::Inet) => if n < SOCKADDR_IN_LEN {
                Err(DecodeError::Truncated { family: AddressFamily::Inet, len })
            } else {
                Ok(SocketAddr::V4(v4_from(b)))
            },
            Some(AddressFamily::Inet6) => if n < SOCKADDR_IN6_LEN {
                Err(DecodeError::Truncated { family: AddressFamily::Inet6, len })
            } else {
                Ok(SocketAddr::V6(v6_from(b)))
            },
            Some(AddressFamily::Local) => if n < SOCKADDR_UN_LEN {
                Err(DecodeError::Truncated { family: AddressFamily::Local, len })
            } else {
                Ok(SocketAddr::Unix(unix_from(b)))
            },
            _ => Err(DecodeError::UnsupportedFamily { tag }),
        }
    }
}

proof fn lemma_array_from<const N: usize>(a: [u8; N])
    ensures
        array_from::<N>(a@) == a,
{
    let c = array_from::<N>(a@);
    assert(exists|x: [u8; N]| x@ == a@);
    assert(c@ == a@);
    assert(c =~= a);
}

fn read_le16(b: &[u8], at: usize) -> (r: u16)
    requires
        at + 2 <= b@.len(),
    ensures
        r == le16_at(b@, at as int),
{
    b[at] as u16 + 256 * (b[at + 1] as u16)
}

fn read_be16(b: &[u8], at: usize) -> (r: u16)
    requires
        at + 2 <= b@.len(),
    ensures
        r == be16_at(b@, at as int),
{
    256 * (b[at] as u16) + b[at + 1] as u16
}

fn read_le32(b: &[u8], at: usize) -> (r: u32)
    requires
        at + 4 <= b@.len(),
    ensures
        r == le32_at(b@, at as int),
{
    b[at] as u32 + 256 * (b[at + 1] as u32) + 0x1_0000 * (b[at + 2] as u32) + 0x100_0000 * (
    b[at + 3] as u32)
}

fn read_be32(b: &[u8], at: usize) -> (r: u32)
    requires
        at + 4 <= b@.len(),
    ensures
        r == be32_at(b@, at as int),
{
    0x100_0000 * (b[at] as u32) + 0x1_0000 * (b[at + 1] as u32) + 256 * (b[at + 2] as u32)
        + b[at + 3] as u32
}

fn decode_v4(b: &[u8]) -> (a: SocketAddrV4)
    requires
        b@.len() >= SOCKADDR_IN_LEN,
    ensures
        a == v4_from(b@),
{
    let ip: [u8; 4] = [b[4], b[5], b[6], b[7]];
    proof {
        assert(ip@ =~= b@.subrange(4, 8));
        lemma_array_from(ip);
    }
    SocketAddrV4 { ip, port: read_be16(b, 2) }
}

fn decode_v6(b: &[u8]) -> (a: SocketAddrV6)
    requires
        b@.len() >= SOCKADDR_IN6_LEN,
    ensures
        a == v6_from(b@),
{
    let mut ip: [u8; 16] = [0u8; 16];
    let mut i: usize = 0;
    while i < 16
        invariant
            b@.len() >= SOCKADDR_IN6_LEN,
            0 <= i <= 16,
            forall|j: int| 0 <= j < i ==> ip[j] == b@[8 + j],
        decreases 16 - i,
    {
        ip[i] = b[8 + i];
        i = i + 1;
    }
    proof {
        assert(ip@ =~= b@.subrange(8, 24));
        lemma_array_from(ip);
    }
    SocketAddrV6 {
        ip,
        port: read_be16(b, 2),
        flowinfo: read_be32(b, 4),
        scope_id: read_le32(b, 24),
    }
}

fn decode_unix(b: &[u8]) -> (a: SocketAddrUnix)
    requires
        b@.len() >= SOCKADDR_UN_LEN,
    ensures
        a == unix_from(b@),
{
    let mut sun_path: [u8; 108] = [0u8; 108];
    let mut i: usize = 0;
    while i < SUN_PATH_LEN
        invariant
            b@.len() >= SOCKADDR_UN_LEN,
            0 <= i <= SUN_PATH_LEN,
            forall|j: int| 0 <= j < i ==> sun_path[j] == b@[2 + j],
        decreases SUN_PATH_LEN - i,
    {
        sun_path[i] = b[2 + i];
        i = i + 1;
    }
    proof {
        assert(sun_path@ =~= b@.subrange(2, 110));
        lemma_array_from(sun_path);
    }
    SocketAddrUnix { sun_path }
}

/// Decodes the address the kernel wrote into `buf`, of which it reported
/// `len` bytes as filled.
///
/// Only the first `min(len, buf.len())` bytes are read: first the family
/// tag, then, once the length is known to cover that family's layout, the
/// rest of it.
pub fn decode(buf: &[u8], len: usize) -> (r: Result<SocketAddr, DecodeError>)
    ensures
        r == decode_spec(buf@, len),
{
    let n: usize = if len < buf.len() {
        len
    } else {
        buf.len()
    };
    if n < 2 {
        return Err(DecodeError::MissingFamily { len });
    }
    let tag = read_le16(buf, 0);
    match AddressFamily::from_raw(tag as u32) {
        Some(AddressFamily::Inet) => {
            if n < SOCKADDR_IN_LEN {
                Err(DecodeError::Truncated { family: AddressFamily::Inet, len })
            } else {
                Ok(SocketAddr::V4(decode_v4(buf)))
            }
        },
        Some(AddressFamily::Inet6) => {
            if n < SOCKADDR_IN6_LEN {
                Err(DecodeError::Truncated { family: AddressFamily::Inet6, len })
            } else {
                Ok(SocketAddr::V6(decode_v6(buf)))
            }
        },
        Some(AddressFamily::Local) => {
            if n < SOCKADDR_UN_LEN {
                Err(DecodeError::Truncated { family: AddressFamily::Local, len })
            } else {
                Ok(SocketAddr::Unix(decode_unix(buf)))
            }
        },
        _ => Err(DecodeError::UnsupportedFamily { tag }),
    }
}

impl SocketAddrV4 {
    /// The `struct sockaddr_in` layout of this address.
    pub fn encode(&self) -> (r: [u8; 16])
        ensures
            r@ == encode_v4_spec(*self),
    {
        let fam = AddressFamily::Inet.as_raw() as u16;
        let mut b: [u8; 16] = [0u8; 16];
        b[0] = (fam % 256) as u8;
        b[1] = (fam / 256) as u8;
        b[2] = (self.port / 256) as u8;
        b[3] = (self.port % 256) as u8;
        b[4] = self.ip[0];
        b[5] = self.ip[1];
        b[6] = self.ip[2];
        b[7] = self.ip[3];
        proof {
            assert(b@ =~= encode_v4_spec(*self));
        }
        b
    }
}

impl SocketAddrV6 {
    /// The `struct sockaddr_in6` layout of this address.
    pub fn encode(&self) -> (r: [u8; 28])
        ensures
            r@ == encode_v6_spec(*self),
    {
        let fam = AddressFamily::Inet6.as_raw() as u16;
        let mut b: [u8; 28] = [0u8; 28];
        b[0] = (fam % 256) as u8;
        b[1] = (fam / 256) as u8;
        b[2] = (self.port / 256) as u8;
        b[3] = (self.port % 256) as u8;
        b[4] = (self.flowinfo / 0x100_0000) as u8;
        b[5] = (self.flowinfo / 0x1_0000 % 256) as u8;
        b[6] = (self.flowinfo / 256 % 256) as u8;
        b[7] = (self.flowinfo % 256) as u8;
        let mut i: usize = 0;
        while i < 16
            invariant
                0 <= i <= 16,
                forall|j: int| 0 <= j < i ==> b[8 + j] == self.ip[j],
                b@.subrange(0, 8) == encode_v6_spec(*self).subrange(0, 8),
            decreases 16 - i,
        {
            b[8 + i] = self.ip[i];
            i = i + 1;
        }
        b[24] = (self.scope_id % 256) as u8;
        b[25] = (self.scope_id / 256 % 256) as u8;
        b[26] = (self.scope_id / 0x1_0000 % 256) as u8;
        b[27] = (self.scope_id / 0x100_0000) as u8;
        proof {
            let e = encode_v6_spec(*self);
            assert forall|j: int| 0 <= j < 8 implies b@[j] == e[j] by {
                assert(b@.subrange(0, 8)[j] == e.subrange(0, 8)[j]);
            }
            assert(b@ =~= e);
        }
        b
    }
}

impl SocketAddrUnix {
    /// The address whose `sun_path` holds `path` followed by zero bytes;
    /// `None` where `path` is longer than the field.
    pub fn new(path: &[u8]) -> (r: Option<SocketAddrUnix>)
        ensures
            r is Some <==> path@.len() <= SUN_PATH_LEN,
            r matches Some(a) ==> a.sun_path@ == path@ + zeros((SUN_PATH_LEN - path@.len()) as nat),
    {
        if path.len() > SUN_PATH_LEN {
            return None;
        }
        let mut sun_path: [u8; 108] = [0u8; 108];
        let mut i: usize = 0;
        while i < path.len()
            invariant
                path@.len() <= SUN_PATH_LEN,
                0 <= i <= path@.len(),
                forall|j: int| 0 <= j < i ==> sun_path[j] == path@[j],
                forall|j: int| i <= j < SUN_PATH_LEN ==> sun_path[j] == 0,
            decreases path@.len() - i,
        {
            sun_path[i] = path[i];
            i = i + 1;
        }
        proof {
            assert(sun_path@ =~= path@ + zeros((SUN_PATH_LEN - path@.len()) as nat));
        }
        Some(SocketAddrUnix { sun_path })
    }

    /// The `struct sockaddr_un` layout of this address.
    pub fn encode(&self) -> (r: [u8; 110])
        ensures
            r@ == encode_unix_spec(*self),
    {
        let fam = AddressFamily::Local.as_raw() as u16;
        let mut b: [u8; 110] = [0u8; 110];
        b[0] = (fam % 256) as u8;
        b[1] = (fam / 256) as u8;
        let mut i: usize = 0;
        while i < SUN_PATH_LEN
            invariant
                0 <= i <= SUN_PATH_LEN,
                b[0] == (fam % 256) as u8,
                b[1] == (fam / 256) as u8,
                fam == family_tag(AddressFamily::Local),
                forall|j: int| 0 <= j < i ==> b[2 + j] == self.sun_path[j],
            decreases SUN_PATH_LEN - i,
        {
            b[2 + i] = self.sun_path[i];
            i = i + 1;
        }
        proof {
            assert(b@ =~= encode_unix_spec(*self));
        }
        b
    }
}

impl SocketAddr {
    /// The family of this address.
    pub fn family(&self) -> (r: AddressFamily)
        ensures
            r == family_of(*self),
    {
        match self {
            SocketAddr::V4(_) => AddressFamily::Inet,
            SocketAddr::V6(_) => AddressFamily::Inet6,
            SocketAddr::Unix(_) => AddressFamily::Local,
        }
    }

    /// The kernel layout of this address; its length is the one to hand
    /// the kernel with it.
    pub fn encode(&self) -> (r: Vec<u8>)
        ensures
            r@ == encode_spec(*self),
            r@.len() == layout_len(family_of(*self)),
    {
        match self {
            SocketAddr::V4(a) => copy_bytes(&a.encode()),
            SocketAddr::V6(a) => copy_bytes(&a.encode()),
            SocketAddr::Unix(a) => copy_bytes(&a.encode()),
        }
    }
}

fn copy_bytes(b: &[u8]) -> (r: Vec<u8>)
    ensures
        r@ == b@,
{
    let mut r: Vec<u8> = Vec::new();
    let mut i: usize = 0;
    while i < b.len()
        invariant
            0 <= i <= b@.len(),
            r@ == b@.subrange(0, i as int),
        decreases b@.len() - i,
    {
        r.push(b[i]);
        i = i + 1;
    }
    proof {
        assert(b@.subrange(0, b@.len() as int) =~= b@);
    }
    r
}

proof fn lemma_le16_bytes(v: u16)
    ensures
        le16_at(le16_bytes(v), 0) == v,
{
}

proof fn lemma_be16_bytes(v: u16)
    ensures
        be16_at(be16_bytes(v), 0) == v,
{
}

proof fn lemma_le32_bytes(v: u32)
    ensures
        le32_at(le32_bytes(v), 0) == v,
{
}

proof fn lemma_be32_bytes(v: u32)
    ensures
        be32_at(be32_bytes(v), 0) == v,
{
}

/// Decoding the layout of any address, with the layout's full length
/// reported, gives back that same address.
pub proof fn lemma_decode_encode(a: SocketAddr)
    ensures
        encode_spec(a).len() == layout_len(family_of(a)),
        decode_spec(encode_spec(a), encode_spec(a).len() as usize) == Ok::<SocketAddr, DecodeError>(a),
{
    let b = encode_spec(a);
    match a {
        SocketAddr::V4(v) => {
            let t = family_tag(AddressFamily::Inet);
            lemma_le16_bytes(t);
            lemma_be16_bytes(v.port);
            assert(le16_at(b, 0) == le16_at(le16_bytes(t), 0));
            assert(be16_at(b, 2) == be16_at(be16_bytes(v.port), 0));
            assert(b.subrange(4, 8) =~= v.ip@);
            lemma_array_from(v.ip);
            assert(v4_from(b) == v);
        },
        SocketAddr::V6(v) => {
            let t = family_tag(AddressFamily::Inet6);
            lemma_le16_bytes(t);
            lemma_be16_bytes(v.port);
            lemma_be32_bytes(v.flowinfo);
            lemma_le32_bytes(v.scope_id);
            assert(le16_at(b, 0) == le16_at(le16_bytes(t), 0));
            assert(be16_at(b, 2) == be16_at(be16_bytes(v.port), 0));
            assert(be32_at(b, 4) == be32_at(be32_bytes(v.flowinfo), 0));
            assert(le32_at(b, 24) == le32_at(le32_bytes(v.scope_id), 0));
            assert(b.subrange(8, 24) =~= v.ip@);
            lemma_array_from(v.ip);
            assert(v6_from(b) == v);
        },
        SocketAddr::Unix(u) => {
            let t = family_tag(AddressFamily::Local);
            lemma_le16_bytes(t);
            assert(le16_at(b, 0) == le16_at(le16_bytes(t), 0));
            assert(b.subrange(2, 110) =~= u.sun_path@);
            lemma_array_from(u.sun_path);
            assert(unix_from(b) == u);
        },
    }
}

/// For every address, a reported length short of its family's layout is
/// rejected, also at one byte short: as a missing tag below two bytes, as a
/// truncated address from there on.
pub proof fn lemma_short_length_rejected(a: SocketAddr, len: usize)
    requires
        len < layout_len(family_of(a)),
    ensures
        decode_spec(encode_spec(a), len) == (if len < 2 {
            Err::<SocketAddr, DecodeError>(DecodeError::MissingFamily { len })
        } else {
            Err::<SocketAddr, DecodeError>(DecodeError::Truncated { family: family_of(a), len })
        }),
{
    lemma_decode_encode(a);
    let b = encode_spec(a);
    let t = family_tag(family_of(a));
    lemma_le16_bytes(t);
    assert(le16_at(b, 0) == le16_at(le16_bytes(t), 0));
}

/// Is `t` the tag of a family with a layout here (IPv4, IPv6 or Unix)?
pub open spec fn is_supported_tag(t: u16) -> bool {
    ||| t == family_tag(AddressFamily::Inet)
    ||| t == family_tag(AddressFamily::Inet6)
    ||| t == family_tag(AddressFamily::Local)
}

/// Replacing the family tag of any address's layout with an unsupported
/// tag makes decoding fail with that tag, whatever length is reported from
/// two bytes on: no variant is ever chosen by default.
pub proof fn lemma_unknown_tag_rejected(a: SocketAddr, t: u16, len: usize)
    requires
        !is_supported_tag(t),
        2 <= len <= layout_len(family_of(a)),
    ensures
        decode_spec(le16_bytes(t) + encode_spec(a).subrange(2, encode_spec(a).len() as int), len)
            == Err::<SocketAddr, DecodeError>(DecodeError::UnsupportedFamily { tag: t }),
{
    lemma_decode_encode(a);
    let b = le16_bytes(t) + encode_spec(a).subrange(2, encode_spec(a).len() as int);
    lemma_le16_bytes(t);
    assert(le16_at(b, 0) == le16_at(le16_bytes(t), 0));
}

/// Decoding reads nothing past the reported length: two buffers that agree
/// on their first `len` bytes decode alike.
pub proof fn lemma_decode_reads_within_len(b1: Seq<u8>, b2: Seq<u8>, len: usize)
    requires
        len <= b1.len(),
        len <= b2.len(),
        b1.subrange(0, len as int) == b2.subrange(0, len as int),
    ensures
        decode_spec(b1, len) == decode_spec(b2, len),
{
    assert forall|i: int| 0 <= i < len implies b1[i] == b2[i] by {
        assert(b1.subrange(0, len as int)[i] == b1[i]);
        assert(b2.subrange(0, len as int)[i] == b2[i]);
    }
    if len >= SOCKADDR_IN_LEN {
        assert(b1.subrange(4, 8) =~= b2.subrange(4, 8));
    }
    if len >= SOCKADDR_IN6_LEN {
        assert(b1.subrange(8, 24) =~= b2.subrange(8, 24));
    }
    if len >= SOCKADDR_UN_LEN {
        assert(b1.subrange(2, 110) =~= b2.subrange(2, 110));
    }
}

} // verus!
