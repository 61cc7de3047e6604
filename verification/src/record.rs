use vstd::prelude::*;

verus! {

/// Transport-protocol tag of a normalized packet record.
#[allow(non_camel_case_types)]
#[derive(Clone, Copy, Debug, PartialEq, Eq, Structural)]
pub enum IpProtocolKind {
    UNKNOWN,
    UDP,
    TCP,
}

/// Address-family tag of a normalized packet record.
#[allow(non_camel_case_types)]
#[derive(Clone, Copy, Debug, PartialEq, Eq, Structural)]
pub enum IpAddrKind {
    UNKNOWN,
    V4,
    V6,
}

/// A network-layer address held as a plain value: an IPv4 address as its
/// 32-bit big-endian integer, or an IPv6 address as its 128-bit big-endian
/// integer. The unspecified address is `V4(0)`.
#[derive(Clone, Copy, Debug, PartialEq, Eq, Structural)]
pub enum IpAddress {
    V4(u32),
    V6(u128),
}

/// The normalized record describing one captured frame: network-layer
/// addresses with their family tag, the captured frame length, and
/// transport-layer ports with their protocol tag.
#[derive(Clone, Copy, Debug, PartialEq, Eq, Structural)]
pub struct PacketEventData {
    pub source_ip: IpAddress,
    pub dest_ip: IpAddress,
    pub version: IpAddrKind,
    pub length: u64,
    pub source_port: u16,
    pub dest_port: u16,
    pub protocol: IpProtocolKind,
}

impl PacketEventData {
    /// The all-default record: unspecified addresses, unknown tags, zero
    /// length and zero ports.
    pub open spec fn spec_default() -> PacketEventData {
        PacketEventData {
            source_ip: IpAddress::V4(0),
            dest_ip: IpAddress::V4(0),
            version: IpAddrKind::UNKNOWN,
            length: 0,
            source_port: 0,
            dest_port: 0,
            protocol: IpProtocolKind::UNKNOWN,
        }
    }

    /// Well-formedness: an unknown address family comes with both addresses
    /// unspecified, and an unknown transport protocol with both ports zero.
    pub open spec fn wf(self) -> bool {
        &&& self.version is UNKNOWN ==> self.source_ip == IpAddress::V4(0u32)
            && self.dest_ip == IpAddress::V4(0u32)
        &&& self.protocol is UNKNOWN ==> self.source_port == 0 && self.dest_port == 0
    }
}

impl Default for PacketEventData {
    /// The record every frame starts from, before decoded layers fill it in.
    fn default() -> (r: PacketEventData)
        ensures
            r == PacketEventData::spec_default(),
            r.wf(),
    {
        PacketEventData {
            source_ip: IpAddress::V4(0),
            dest_ip: IpAddress::V4(0),
            version: IpAddrKind::UNKNOWN,
            length: 0,
            source_port: 0,
            dest_port: 0,
            protocol: IpProtocolKind::UNKNOWN,
        }
    }
}

} // verus!
