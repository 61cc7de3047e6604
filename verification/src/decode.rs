use vstd::prelude::*;

verus! {

/// EtherType value announcing an IPv4 payload.
pub const ETHER_TYPE_IPV4: u16 = 0x0800;

/// EtherType value announcing an IPv6 payload.
pub const ETHER_TYPE_IPV6: u16 = 0x86DD;

/// IP protocol number of TCP.
pub const IP_PROTO_TCP: u8 = 6;

/// IP protocol number of UDP.
pub const IP_PROTO_UDP: u8 = 17;

/// Length of an Ethernet II header in bytes.
pub const ETHERNET_HEADER_LEN: usize = 14;

/// The structural failure of the frame decoder: the bytes are too short to
/// hold a link-layer header. Deeper layers that fail to parse are not errors.
#[derive(Clone, Copy, Debug, PartialEq, Eq, Structural)]
pub struct DecodeError;

/// The recognized network layer of a frame: absent, or the source and
/// destination addresses of an IPv4 or IPv6 header.
#[allow(inconsistent_fields)]
#[derive(Clone, Copy, Debug, PartialEq, Eq, Structural)]
pub enum NetworkInfo {
    Absent,
    V4 { source: u32, dest: u32 },
    V6 { source: u128, dest: u128 },
}

/// The recognized transport layer of a frame: absent, or the source and
/// destination ports of a UDP or TCP header.
#[derive(Clone, Copy, Debug, PartialEq, Eq, Structural)]
pub enum TransportInfo {
    Absent,
    Udp { source_port: u16, dest_port: u16 },
    Tcp { source_port: u16, dest_port: u16 },
}

/// The layered view of one decoded frame: an optional network layer and an
/// optional transport layer.
#[derive(Clone, Copy, Debug, PartialEq, Eq, Structural)]
pub struct DecodedFrame {
    pub network: NetworkInfo,
    pub transport: TransportInfo,
}

/// The big-endian value of the two bytes at `i`.
pub open spec fn be16(b: Seq<u8>, i: int) -> int
    recommends
        0 <= i,
        i + 2 <= b.len(),
{
    0x100 * (b[i] as int) + (b[i + 1] as int)
}

/// The big-endian value of the four bytes at `i`.
pub open spec fn be32(b: Seq<u8>, i: int) -> int
    recommends
        0 <= i,
        i + 4 <= b.len(),
{
    0x10000 * be16(b, i) + be16(b, i + 2)
}

/// The big-endian value of the eight bytes at `i`.
pub open spec fn be64(b: Seq<u8>, i: int) -> int
    recommends
        0 <= i,
        i + 8 <= b.len(),
{
    0x100000000 * be32(b, i) + be32(b, i + 4)
}

/// The big-endian value of the sixteen bytes at `i`.
pub open spec fn be128(b: Seq<u8>, i: int) -> int
    recommends
        0 <= i,
        i + 16 <= b.len(),
{
    0x10000000000000000 * be64(b, i) + be64(b, i + 8)
}

/// A frame is structurally valid at the link layer when it holds at least a
/// full Ethernet II header.
pub open spec fn spec_link_valid(frame: Seq<u8>) -> bool {
    frame.len() >= ETHERNET_HEADER_LEN
}

/// The EtherType field of the Ethernet header.
pub open spec fn spec_ether_type(frame: Seq<u8>) -> int
    recommends
        spec_link_valid(frame),
{
    be16(frame, 12)
}

/// The Ethernet payload holds a structurally valid IPv4 header: at least 20
/// bytes, version nibble 4, a header length of at least five words that the
/// captured bytes cover in full.
pub open spec fn spec_ipv4_valid(frame: Seq<u8>) -> bool
    recommends
        spec_link_valid(frame),
{
    &&& frame.len() >= ETHERNET_HEADER_LEN + 20
    &&& (frame[14] as int) / 16 == 4
    &&& (frame[14] as int) % 16 >= 5
    &&& frame.len() >= ETHERNET_HEADER_LEN + 4 * ((frame[14] as int) % 16)
}

/// The Ethernet payload holds a structurally valid IPv6 header: at least the
/// fixed 40 bytes, version nibble 6.
pub open spec fn spec_ipv6_valid(frame: Seq<u8>) -> bool
    recommends
        spec_link_valid(frame),
{
    &&& frame.len() >= ETHERNET_HEADER_LEN + 40
    &&& (frame[14] as int) / 16 == 6
}

/// The network layer recognized in a link-valid frame: IPv4 or IPv6
/// addresses when the EtherType announces that family and the header is
/// structurally valid, absent otherwise.
pub open spec fn spec_network(frame: Seq<u8>) -> NetworkInfo
    recommends
        spec_link_valid(frame),
{
    if spec_ether_type(frame) == ETHER_TYPE_IPV4 && spec_ipv4_valid(frame) {
        NetworkInfo::V4 { source: be32(frame, 26) as u32, dest: be32(frame, 30) as u32 }
    } else if spec_ether_type(frame) == ETHER_TYPE_IPV6 && spec_ipv6_valid(frame) {
        NetworkInfo::V6 { source: be128(frame, 22) as u128, dest: be128(frame, 38) as u128 }
    } else {
        NetworkInfo::Absent
    }
}

/// The protocol carried by the recognized IP layer: the IPv4 protocol field
/// or the IPv6 next-header field.
pub open spec fn spec_ip_protocol(frame: Seq<u8>) -> int
    recommends
        spec_link_valid(frame),
        spec_network(frame) !is Absent,
{
    if spec_ether_type(frame) == ETHER_TYPE_IPV4 && spec_ipv4_valid(frame) {
        frame[23] as int
    } else {
        frame[20] as int
    }
}

/// The offset of the IP payload within the frame: past the IPv4 header of
/// its announced length, or past the fixed IPv6 header.
pub open spec fn spec_ip_payload_offset(frame: Seq<u8>) -> int
    recommends
        spec_link_valid(frame),
        spec_network(frame) !is Absent,
{
    if spec_ether_type(frame) == ETHER_TYPE_IPV4 && spec_ipv4_valid(frame) {
        ETHERNET_HEADER_LEN + 4 * ((frame[14] as int) % 16)
    } else {
        ETHERNET_HEADER_LEN + 40
    }
}

/// The bytes at `off` hold a structurally valid TCP header: at least 20
/// bytes, a data offset of at least five words that the captured bytes
/// cover in full.
pub open spec fn spec_tcp_valid(frame: Seq<u8>, off: int) -> bool
    recommends
        0 <= off <= frame.len(),
{
    &&& frame.len() >= off + 20
    &&& (frame[off + 12] as int) / 16 >= 5
    &&& frame.len() >= off + 4 * ((frame[off + 12] as int) / 16)
}

/// The transport layer recognized in the IP payload at `off` under IP
/// protocol number `protocol`: UDP or TCP ports when the protocol announces
/// that transport and its header is structurally valid, absent otherwise.
pub open spec fn spec_segment(frame: Seq<u8>, protocol: int, off: int) -> TransportInfo
    recommends
        0 <= off <= frame.len(),
{
    if protocol == IP_PROTO_UDP && frame.len() >= off + 8 {
        TransportInfo::Udp {
            source_port: be16(frame, off) as u16,
            dest_port: be16(frame, off + 2) as u16,
        }
    } else if protocol == IP_PROTO_TCP && spec_tcp_valid(frame, off) {
        TransportInfo::Tcp {
            source_port: be16(frame, off) as u16,
            dest_port: be16(frame, off + 2) as u16,
        }
    } else {
        TransportInfo::Absent
    }
}

/// The transport layer of a link-valid frame: absent whenever no network
/// layer was recognized, else whatever the IP payload holds.
pub open spec fn spec_transport(frame: Seq<u8>) -> TransportInfo
    recommends
        spec_link_valid(frame),
{
    if spec_network(frame) is Absent {
        TransportInfo::Absent
    } else {
        spec_segment(frame, spec_ip_protocol(frame), spec_ip_payload_offset(frame))
    }
}

/// What decoding a frame yields: its layered view, or the structural error
/// on a frame too short for a link-layer header.
pub open spec fn spec_decode(frame: Seq<u8>) -> Result<DecodedFrame, DecodeError> {
    if spec_link_valid(frame) {
        Ok(DecodedFrame { network: spec_network(frame), transport: spec_transport(frame) })
    } else {
        Err(DecodeError)
    }
}

fn read_be_u16(frame: &[u8], i: usize) -> (r: u16)
    requires
        i + 2 <= frame@.len(),
    ensures
        r as int == be16(frame@, i as int),
{
    0x100 * (frame[i] as u16) + (frame[i + 1] as u16)
}

fn read_be_u32(frame: &[u8], i: usize) -> (r: u32)
    requires
        i + 4 <= frame@.len(),
    ensures
        r as int == be32(frame@, i as int),
{
    assert(i + 4 <= frame.len());
    0x10000 * (read_be_u16(frame, i) as u32) + (read_be_u16(frame, i + 2) as u32)
}

fn read_be_u64(frame: &[u8], i: usize) -> (r: u64)
    requires
        i + 8 <= frame@.len(),
    ensures
        r as int == be64(frame@, i as int),
{
    assert(i + 8 <= frame.len());
    0x100000000 * (read_be_u32(frame, i) as u64) + (read_be_u32(frame, i + 4) as u64)
}

fn read_be_u128(frame: &[u8], i: usize) -> (r: u128)
    requires
        i + 16 <= frame@.len(),
    ensures
        r as int == be128(frame@, i as int),
{
    assert(i + 16 <= frame.len());
    0x10000000000000000 * (read_be_u64(frame, i) as u128) + (read_be_u64(frame, i + 8) as u128)
}

fn ipv4_header_ok(frame: &[u8]) -> (r: bool)
    requires
        frame@.len() >= ETHERNET_HEADER_LEN,
    ensures
        r == spec_ipv4_valid(frame@),
{
    if frame.len() < ETHERNET_HEADER_LEN + 20 {
        return false;
    }
    let vihl = frame[14];
    let ihl: usize = (vihl % 16) as usize;
    vihl / 16 == 4 && ihl >= 5 && frame.len() - ETHERNET_HEADER_LEN >= 4 * ihl
}

fn ipv6_header_ok(frame: &[u8]) -> (r: bool)
    requires
        frame@.len() >= ETHERNET_HEADER_LEN,
    ensures
        r == spec_ipv6_valid(frame@),
{
    frame.len() >= ETHERNET_HEADER_LEN + 40 && frame[14] / 16 == 6
}

fn parse_segment(frame: &[u8], protocol: u8, off: usize) -> (r: TransportInfo)
    requires
        off <= frame@.len(),
    ensures
        r == spec_segment(frame@, protocol as int, off as int),
{
    if protocol == IP_PROTO_UDP && frame.len() - off >= 8 {
        TransportInfo::Udp {
            source_port: read_be_u16(frame, off),
            dest_port: read_be_u16(frame, off + 2),
        }
    } else if protocol == IP_PROTO_TCP && frame.len() - off >= 20 {
        let doff: usize = (frame[off + 12] / 16) as usize;
        if doff >= 5 && frame.len() - off >= 4 * doff {
            TransportInfo::Tcp {
                source_port: read_be_u16(frame, off),
                dest_port: read_be_u16(frame, off + 2),
            }
        } else {
            TransportInfo::Absent
        }
    } else {
        TransportInfo::Absent
    }
}

/// The frame decoder: parse one captured link-layer frame into its layered
/// view. Fails exactly on frames too short for an Ethernet header; a payload
/// that is not recognizable IP, or an IP payload that is not recognizable
/// TCP or UDP, is an absent layer, not an error.
pub fn decode_frame(frame: &[u8]) -> (r: Result<DecodedFrame, DecodeError>)
    ensures
        r == spec_decode(frame@),
        r is Ok <==> spec_link_valid(frame@),
{
    if frame.len() < ETHERNET_HEADER_LEN {
        return Err(DecodeError);
    }
    let ether_type = read_be_u16(frame, 12);
    let network: NetworkInfo = if ether_type == ETHER_TYPE_IPV4 && ipv4_header_ok(frame) {
        NetworkInfo::V4 { source: read_be_u32(frame, 26), dest: read_be_u32(frame, 30) }
    } else if ether_type == ETHER_TYPE_IPV6 && ipv6_header_ok(frame) {
        NetworkInfo::V6 { source: read_be_u128(frame, 22), dest: read_be_u128(frame, 38) }
    } else {
        NetworkInfo::Absent
    };
    let transport: TransportInfo = match network {
        NetworkInfo::Absent => TransportInfo::Absent,
        NetworkInfo::V4 { .. } => {
            let ihl: usize = (frame[14] % 16) as usize;
            parse_segment(frame, frame[23], ETHERNET_HEADER_LEN + 4 * ihl)
        },
        NetworkInfo::V6 { .. } => {
            parse_segment(frame, frame[20], ETHERNET_HEADER_LEN + 40)
        },
    };
    Ok(DecodedFrame { network, transport })
}

} // verus!
