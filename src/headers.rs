//! Layout of the Ethernet, IPv4, TCP and UDP headers that the balancer reads,
//! and the bounds-checked parse of a frame.

use vstd::prelude::*;

use crate::frame::{be16, be32, window, OutOfBounds, Window};

verus! {

/// Length of an Ethernet header.
pub const ETH_HDR_LEN: usize = 14;

/// Length of an IPv4 header without options.
pub const IPV4_HDR_LEN: usize = 20;

/// Length of a TCP header without options.
pub const TCP_HDR_LEN: usize = 20;

/// Length of a UDP header.
pub const UDP_HDR_LEN: usize = 8;

/// Ethertype of IPv4.
pub const ETHERTYPE_IPV4: u16 = 0x0800;

/// IP protocol number of TCP.
pub const IPPROTO_TCP: u8 = 6;

/// IP protocol number of UDP.
pub const IPPROTO_UDP: u8 = 17;

/// Offset of the ethertype in the Ethernet header.
pub const ETH_TYPE_AT: usize = 12;

/// Offset of the last octet of the destination hardware address.
pub const ETH_DST_LAST_AT: usize = 5;

/// Offset of the last octet of the source hardware address.
pub const ETH_SRC_LAST_AT: usize = 11;

/// Offset of the protocol field in the IPv4 header.
pub const IP_PROTO_AT: usize = 9;

/// Offset of the checksum field in the IPv4 header.
pub const IP_CHECK_AT: usize = 10;

/// Offset of the source address in the IPv4 header.
pub const IP_SRC_AT: usize = 12;

/// Offset of the destination address in the IPv4 header.
pub const IP_DST_AT: usize = 16;

/// Ethertype of a frame.
pub open spec fn ether_type(s: Seq<u8>) -> nat {
    be16(s, ETH_TYPE_AT as int)
}

/// Start of the IPv4 header.
pub open spec fn ip_at() -> int {
    ETH_HDR_LEN as int
}

/// Start of the transport header.
pub open spec fn transport_at() -> int {
    ETH_HDR_LEN + IPV4_HDR_LEN
}

/// Protocol field of the IPv4 header.
pub open spec fn ip_proto(s: Seq<u8>) -> u8 {
    s[ip_at() + IP_PROTO_AT]
}

/// Source address of the IPv4 header.
pub open spec fn ip_src(s: Seq<u8>) -> nat {
    be32(s, ip_at() + IP_SRC_AT)
}

/// Destination address of the IPv4 header.
pub open spec fn ip_dst(s: Seq<u8>) -> nat {
    be32(s, ip_at() + IP_DST_AT)
}

/// Checksum field of the IPv4 header.
pub open spec fn ip_check(s: Seq<u8>) -> nat {
    be16(s, ip_at() + IP_CHECK_AT)
}

/// Length of the transport header that protocol `proto` puts after the IPv4
/// header; `None` for a protocol that the balancer does not handle.
pub open spec fn transport_len(proto: u8) -> Option<nat> {
    if proto == IPPROTO_TCP {
        Some(TCP_HDR_LEN as nat)
    } else if proto == IPPROTO_UDP {
        Some(UDP_HDR_LEN as nat)
    } else {
        None
    }
}

/// The transport protocols that the balancer handles.
#[derive(Clone, Copy, Debug, PartialEq, Eq, Structural)]
pub enum Transport {
    Tcp,
    Udp,
}

/// Why a frame cannot be handled.
#[derive(Clone, Copy, Debug, PartialEq, Eq, Structural)]
pub enum FrameError {
    /// A header that had to be read lies past the end of the frame.
    OutOfBounds,
    /// An IPv4 frame carries a transport protocol other than TCP or UDP.
    UnsupportedProtocol(u8),
}

/// The fields of an IPv4 frame with a TCP or UDP header that the balancer
/// acts on, with the checked windows over its Ethernet and IPv4 headers.
#[derive(Clone, Copy, Debug, PartialEq, Eq, Structural)]
pub struct Ipv4Frame {
    pub eth: Window,
    pub ip: Window,
    pub transport: Transport,
    pub src_addr: u32,
    pub dst_addr: u32,
    pub src_port: u16,
}

/// What the headers of a frame say.
#[derive(Clone, Copy, Debug, PartialEq, Eq, Structural)]
pub enum Parsed {
    /// Not an IPv4 frame: left to the host.
    NotIpv4,
    Ipv4(Ipv4Frame),
}

/// Outcome of parsing a frame: `Ok(None)` for a frame that is not IPv4,
/// `Ok(Some(a))` for an IPv4 frame with a complete TCP or UDP header and
/// source address `a`, and the error otherwise.
pub open spec fn parse_result(s: Seq<u8>) -> Result<Option<nat>, FrameError> {
    if s.len() < ETH_HDR_LEN {
        Err(FrameError::OutOfBounds)
    } else if ether_type(s) != ETHERTYPE_IPV4 {
        Ok(None)
    } else if s.len() < transport_at() {
        Err(FrameError::OutOfBounds)
    } else if transport_len(ip_proto(s)) is None {
        Err(FrameError::UnsupportedProtocol(ip_proto(s)))
    } else if s.len() < transport_at() + transport_len(ip_proto(s))->Some_0 {
        Err(FrameError::OutOfBounds)
    } else {
        Ok(Some(ip_src(s)))
    }
}

/// The windows over the Ethernet and IPv4 headers of a frame.
pub open spec fn header_windows(p: Ipv4Frame) -> bool {
    p.eth == (Window { offset: 0, len: ETH_HDR_LEN }) && p.ip == (Window {
        offset: ETH_HDR_LEN,
        len: IPV4_HDR_LEN,
    })
}

/// Fails with `OutOfBounds` where the checked window does not fit.
fn checked(frame: &[u8], offset: usize, size: usize) -> (r: Result<Window, FrameError>)
    ensures
        r is Ok <==> offset + size <= frame@.len(),
        r matches Err(e) ==> e == FrameError::OutOfBounds,
        r matches Ok(w) ==> w.offset == offset && w.len == size && w.fits(frame@.len()),
{
    match window(frame, offset, size) {
        Ok(w) => Ok(w),
        Err(OutOfBounds) => Err(FrameError::OutOfBounds),
    }
}

/// Walks the Ethernet, IPv4 and transport headers of a frame, checking each
/// against the frame's length before reading it.
pub fn parse(frame: &[u8]) -> (r: Result<Parsed, FrameError>)
    ensures
        match r {
            Err(e) => parse_result(frame@) == Err::<Option<nat>, FrameError>(e),
            Ok(Parsed::NotIpv4) => parse_result(frame@) == Ok::<Option<nat>, FrameError>(None),
            Ok(Parsed::Ipv4(p)) => {
                &&& parse_result(frame@) == Ok::<Option<nat>, FrameError>(Some(p.src_addr as nat))
                &&& header_windows(p)
                &&& p.dst_addr == ip_dst(frame@)
                &&& p.src_port == be16(frame@, transport_at())
                &&& p.transport == (if ip_proto(frame@) == IPPROTO_TCP {
                    Transport::Tcp
                } else {
                    Transport::Udp
                })
            },
        },
{
    let eth = checked(frame, 0, ETH_HDR_LEN)?;
    if eth.read_be16(frame, ETH_TYPE_AT) != ETHERTYPE_IPV4 {
        return Ok(Parsed::NotIpv4);
    }
    let ip = checked(frame, ETH_HDR_LEN, IPV4_HDR_LEN)?;
    let src_addr = ip.read_be32(frame, IP_SRC_AT);
    let dst_addr = ip.read_be32(frame, IP_DST_AT);
    let proto = ip.read_u8(frame, IP_PROTO_AT);
    let (transport, len) = if proto == IPPROTO_TCP {
        (Transport::Tcp, TCP_HDR_LEN)
    } else if proto == IPPROTO_UDP {
        (Transport::Udp, UDP_HDR_LEN)
    } else {
        return Err(FrameError::UnsupportedProtocol(proto));
    };
    let th = checked(frame, ETH_HDR_LEN + IPV4_HDR_LEN, len)?;
    let src_port = th.read_be16(frame, 0);
    Ok(Parsed::Ipv4(Ipv4Frame { eth, ip, transport, src_addr, dst_addr, src_port }))
}

} // verus!
