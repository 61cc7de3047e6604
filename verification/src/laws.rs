use vstd::prelude::*;

use crate::decode::be128;
use crate::decode::be16;
use crate::decode::be32;
use crate::decode::spec_ether_type;
use crate::decode::spec_ip_payload_offset;
use crate::decode::spec_ipv4_valid;
use crate::decode::spec_ipv6_valid;
use crate::decode::spec_link_valid;
use crate::decode::spec_network;
use crate::decode::spec_tcp_valid;
use crate::decode::spec_transport;
use crate::decode::DecodeError;
use crate::decode::NetworkInfo;
use crate::decode::ETHERNET_HEADER_LEN;
use crate::decode::ETHER_TYPE_IPV4;
use crate::decode::ETHER_TYPE_IPV6;
use crate::decode::IP_PROTO_TCP;
use crate::decode::IP_PROTO_UDP;
use crate::normalize::spec_try_from_frame;
use crate::record::IpAddrKind;
use crate::record::IpAddress;
use crate::record::IpProtocolKind;
use crate::record::PacketEventData;

verus! {

/// A frame with a valid link-layer header but no recognized network layer
/// yields the default record with only the frame length set: family and
/// protocol unknown, addresses unspecified, ports zero.
pub proof fn lemma_link_only_record(frame: Seq<u8>, frame_length: u64)
    requires
        spec_link_valid(frame),
        spec_network(frame) is Absent,
    ensures
        spec_try_from_frame(frame_length, frame) == Ok::<PacketEventData, DecodeError>(
            (PacketEventData {
                source_ip: IpAddress::V4(0),
                dest_ip: IpAddress::V4(0),
                version: IpAddrKind::UNKNOWN,
                length: frame_length,
                source_port: 0,
                dest_port: 0,
                protocol: IpProtocolKind::UNKNOWN,
            }),
        ),
{
}

/// An IPv4-over-Ethernet frame carrying a UDP segment yields a record with
/// family `V4`, protocol `UDP`, and the addresses and ports read big-endian
/// from the IPv4 and UDP header fields.
pub proof fn lemma_ipv4_udp_record(frame: Seq<u8>, frame_length: u64)
    requires
        spec_link_valid(frame),
        spec_ether_type(frame) == ETHER_TYPE_IPV4,
        spec_ipv4_valid(frame),
        frame[23] == IP_PROTO_UDP,
        frame.len() >= spec_ip_payload_offset(frame) + 8,
    ensures
        spec_try_from_frame(frame_length, frame) == Ok::<PacketEventData, DecodeError>(
            (PacketEventData {
                source_ip: IpAddress::V4(be32(frame, 26) as u32),
                dest_ip: IpAddress::V4(be32(frame, 30) as u32),
                version: IpAddrKind::V4,
                length: frame_length,
                source_port: be16(frame, spec_ip_payload_offset(frame)) as u16,
                dest_port: be16(frame, spec_ip_payload_offset(frame) + 2) as u16,
                protocol: IpProtocolKind::UDP,
            }),
        ),
{
}

/// An IPv6-over-Ethernet frame carrying a TCP segment yields a record with
/// family `V6`, protocol `TCP`, and the addresses and ports read big-endian
/// from the IPv6 and TCP header fields.
pub proof fn lemma_ipv6_tcp_record(frame: Seq<u8>, frame_length: u64)
    requires
        spec_link_valid(frame),
        spec_ether_type(frame) == ETHER_TYPE_IPV6,
        spec_ipv6_valid(frame),
        frame[20] == IP_PROTO_TCP,
        spec_tcp_valid(frame, ETHERNET_HEADER_LEN + 40),
    ensures
        spec_try_from_frame(frame_length, frame) == Ok::<PacketEventData, DecodeError>(
            (PacketEventData {
                source_ip: IpAddress::V6(be128(frame, 22) as u128),
                dest_ip: IpAddress::V6(be128(frame, 38) as u128),
                version: IpAddrKind::V6,
                length: frame_length,
                source_port: be16(frame, ETHERNET_HEADER_LEN + 40) as u16,
                dest_port: be16(frame, ETHERNET_HEADER_LEN + 42) as u16,
                protocol: IpProtocolKind::TCP,
            }),
        ),
{
}

/// A frame with a recognized IP layer but an unrecognized transport keeps
/// its addresses and family in the record while the protocol stays unknown
/// and both ports stay zero.
pub proof fn lemma_ip_only_record(frame: Seq<u8>, frame_length: u64)
    requires
        spec_link_valid(frame),
        spec_network(frame) !is Absent,
        spec_transport(frame) is Absent,
    ensures
        spec_try_from_frame(frame_length, frame) matches Ok(rec) && {
            &&& rec.protocol is UNKNOWN
            &&& rec.source_port == 0
            &&& rec.dest_port == 0
            &&& rec.length == frame_length
            &&& rec.version !is UNKNOWN
            &&& spec_network(frame) matches NetworkInfo::V4 { source, dest } ==> rec.version
                is V4 && rec.source_ip == IpAddress::V4(source) && rec.dest_ip == IpAddress::V4(
                dest,
            )
            &&& spec_network(frame) matches NetworkInfo::V6 { source, dest } ==> rec.version
                is V6 && rec.source_ip == IpAddress::V6(source) && rec.dest_ip == IpAddress::V6(
                dest,
            )
        },
{
}

/// Decoding is deterministic: any two record results obtained from the same
/// frame bytes and the same capture length are identical.
pub proof fn lemma_decode_idempotent(
    frame: Seq<u8>,
    frame_length: u64,
    r1: Result<PacketEventData, DecodeError>,
    r2: Result<PacketEventData, DecodeError>,
)
    requires
        r1 == spec_try_from_frame(frame_length, frame),
        r2 == spec_try_from_frame(frame_length, frame),
    ensures
        r1 == r2,
{
}

} // verus!
