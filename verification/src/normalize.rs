use vstd::prelude::*;

use crate::decode::decode_frame;
use crate::decode::spec_decode;
use crate::decode::spec_link_valid;
use crate::decode::DecodeError;
use crate::decode::DecodedFrame;
use crate::decode::NetworkInfo;
use crate::decode::TransportInfo;
use crate::record::IpAddrKind;
use crate::record::IpAddress;
use crate::record::IpProtocolKind;
use crate::record::PacketEventData;

verus! {

/// The record that normalizing a decoded frame yields: the default record
/// with the frame length always set, addresses and family filled from a
/// recognized network layer, ports and protocol from a recognized transport
/// layer.
pub open spec fn spec_normalize(frame_length: u64, d: DecodedFrame) -> PacketEventData {
    PacketEventData {
        source_ip: match d.network {
            NetworkInfo::Absent => IpAddress::V4(0),
            NetworkInfo::V4 { source, .. } => IpAddress::V4(source),
            NetworkInfo::V6 { source, .. } => IpAddress::V6(source),
        },
        dest_ip: match d.network {
            NetworkInfo::Absent => IpAddress::V4(0),
            NetworkInfo::V4 { dest, .. } => IpAddress::V4(dest),
            NetworkInfo::V6 { dest, .. } => IpAddress::V6(dest),
        },
        version: match d.network {
            NetworkInfo::Absent => IpAddrKind::UNKNOWN,
            NetworkInfo::V4 { .. } => IpAddrKind::V4,
            NetworkInfo::V6 { .. } => IpAddrKind::V6,
        },
        length: frame_length,
        source_port: match d.transport {
            TransportInfo::Absent => 0,
            TransportInfo::Udp { source_port, .. } => source_port,
            TransportInfo::Tcp { source_port, .. } => source_port,
        },
        dest_port: match d.transport {
            TransportInfo::Absent => 0,
            TransportInfo::Udp { dest_port, .. } => dest_port,
            TransportInfo::Tcp { dest_port, .. } => dest_port,
        },
        protocol: match d.transport {
            TransportInfo::Absent => IpProtocolKind::UNKNOWN,
            TransportInfo::Udp { .. } => IpProtocolKind::UDP,
            TransportInfo::Tcp { .. } => IpProtocolKind::TCP,
        },
    }
}

/// The record normalizer: pure data assembly from the capture length and
/// the layered view. It cannot fail, and its result is always well formed.
pub fn normalize_record(frame_length: u64, decoded: &DecodedFrame) -> (r: PacketEventData)
    ensures
        r == spec_normalize(frame_length, *decoded),
        r.length == frame_length,
        r.wf(),
{
    let (source_ip, dest_ip, version) = match decoded.network {
        NetworkInfo::Absent => (IpAddress::V4(0), IpAddress::V4(0), IpAddrKind::UNKNOWN),
        NetworkInfo::V4 { source, dest } => {
            (IpAddress::V4(source), IpAddress::V4(dest), IpAddrKind::V4)
        },
        NetworkInfo::V6 { source, dest } => {
            (IpAddress::V6(source), IpAddress::V6(dest), IpAddrKind::V6)
        },
    };
    let (source_port, dest_port, protocol) = match decoded.transport {
        TransportInfo::Absent => (0u16, 0u16, IpProtocolKind::UNKNOWN),
        TransportInfo::Udp { source_port, dest_port } => {
            (source_port, dest_port, IpProtocolKind::UDP)
        },
        TransportInfo::Tcp { source_port, dest_port } => {
            (source_port, dest_port, IpProtocolKind::TCP)
        },
    };
    PacketEventData {
        source_ip,
        dest_ip,
        version,
        length: frame_length,
        source_port,
        dest_port,
        protocol,
    }
}

/// What turning one captured frame into a record yields: the normalized
/// decode result, or the structural error on a link-invalid frame.
pub open spec fn spec_try_from_frame(frame_length: u64, frame: Seq<u8>) -> Result<
    PacketEventData,
    DecodeError,
> {
    match spec_decode(frame) {
        Ok(d) => Ok(spec_normalize(frame_length, d)),
        Err(e) => Err(e),
    }
}

impl PacketEventData {
    /// Decode one captured frame and normalize it into a record, with
    /// `frame_length` taken from the capture header. Fails exactly when the
    /// frame is too short for a link-layer header; every deeper absence
    /// leaves the corresponding fields at their defaults.
    pub fn try_from_frame(frame_length: u64, frame: &[u8]) -> (r: Result<
        PacketEventData,
        DecodeError,
    >)
        ensures
            r == spec_try_from_frame(frame_length, frame@),
            r is Ok <==> spec_link_valid(frame@),
            r matches Ok(rec) ==> rec.length == frame_length && rec.wf(),
    {
        match decode_frame(frame) {
            Ok(decoded) => Ok(normalize_record(frame_length, &decoded)),
            Err(e) => Err(e),
        }
    }
}

} // verus!
