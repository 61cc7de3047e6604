use etherparse::NetSlice;
use etherparse::SlicedPacket;
use etherparse::TransportSlice;
use net_events::record::IpAddrKind;
use net_events::record::IpAddress;
use net_events::record::IpProtocolKind;
use net_events::record::PacketEventData;

#[test]
fn ipv4_udp_agrees_with_reference_parser() {
    let frame: Vec<u8> = vec![
        // Ethernet
        0xaa, 0xbb, 0xcc, 0x00, 0x01, 0x02, // destination MAC
        0xde, 0xad, 0xbe, 0xef, 0x00, 0x03, // source MAC
        0x08, 0x00, // EtherType IPv4
        // IPv4, total length 28
        0x45, 0x00, 0x00, 0x1c, 0x00, 0x01, 0x00, 0x00, 0x40, 0x11, 0x00, 0x00,
        10, 0, 0, 1, // source address
        10, 0, 0, 2, // destination address
        // UDP, length 8
        0x1f, 0x90, 0x00, 0x35, 0x00, 0x08, 0x00, 0x00,
    ];
    let rec = PacketEventData::try_from_frame(frame.len() as u64, &frame).unwrap();
    let sliced = SlicedPacket::from_ethernet(&frame).unwrap();
    match sliced.net {
        Some(NetSlice::Ipv4(ip)) => {
            assert_eq!(rec.version, IpAddrKind::V4);
            assert_eq!(
                rec.source_ip,
                IpAddress::V4(u32::from(ip.header().source_addr()))
            );
            assert_eq!(
                rec.dest_ip,
                IpAddress::V4(u32::from(ip.header().destination_addr()))
            );
        }
        _ => panic!("reference parser saw no IPv4 layer"),
    }
    match sliced.transport {
        Some(TransportSlice::Udp(udp)) => {
            assert_eq!(rec.protocol, IpProtocolKind::UDP);
            assert_eq!(rec.source_port, udp.source_port());
            assert_eq!(rec.dest_port, udp.destination_port());
        }
        _ => panic!("reference parser saw no UDP layer"),
    }
}

#[test]
fn ipv6_tcp_agrees_with_reference_parser() {
    let mut frame: Vec<u8> = vec![
        // Ethernet
        0xaa, 0xbb, 0xcc, 0x00, 0x01, 0x02, // destination MAC
        0xde, 0xad, 0xbe, 0xef, 0x00, 0x03, // source MAC
        0x86, 0xdd, // EtherType IPv6
        // IPv6, payload length 20, next header TCP
        0x60, 0x00, 0x00, 0x00, 0x00, 0x14, 0x06, 0x40,
    ];
    frame.extend_from_slice(&[
        0x20, 0x01, 0x0d, 0xb8, 0, 0, 0, 0, 0, 0, 0, 0, 0, 0, 0, 0x01,
    ]);
    frame.extend_from_slice(&[
        0x20, 0x01, 0x0d, 0xb8, 0, 0, 0, 0, 0, 0, 0, 0, 0, 0, 0, 0x02,
    ]);
    frame.extend_from_slice(&[
        0x01, 0xbb, 0xc7, 0x38, // ports 443 and 51000
        0x00, 0x00, 0x00, 0x01, // sequence number
        0x00, 0x00, 0x00, 0x00, // acknowledgment number
        0x50, 0x02, 0x20, 0x00, // data offset 5, flags, window
        0x00, 0x00, 0x00, 0x00, // checksum, urgent pointer
    ]);
    let rec = PacketEventData::try_from_frame(frame.len() as u64, &frame).unwrap();
    let sliced = SlicedPacket::from_ethernet(&frame).unwrap();
    match sliced.net {
        Some(NetSlice::Ipv6(ip)) => {
            assert_eq!(rec.version, IpAddrKind::V6);
            assert_eq!(
                rec.source_ip,
                IpAddress::V6(u128::from(ip.header().source_addr()))
            );
            assert_eq!(
                rec.dest_ip,
                IpAddress::V6(u128::from(ip.header().destination_addr()))
            );
        }
        _ => panic!("reference parser saw no IPv6 layer"),
    }
    match sliced.transport {
        Some(TransportSlice::Tcp(tcp)) => {
            assert_eq!(rec.protocol, IpProtocolKind::TCP);
            assert_eq!(rec.source_port, tcp.source_port());
            assert_eq!(rec.dest_port, tcp.destination_port());
        }
        _ => panic!("reference parser saw no TCP layer"),
    }
}
