use bytes::{Bytes, BytesMut};
use socket_ext::{
    AppPacket, IpAddr, IpEndpoint, IpPacket, LoadError, PluginInfo, ProtocolPacket,
};

fn v4() -> IpEndpoint {
    IpEndpoint::IpAddr(IpAddr::V4([10, 0, 0, 1]))
}

fn v6() -> IpEndpoint {
    IpEndpoint::IpAddr(IpAddr::V6([0x20, 0x01, 0x0d, 0xb8, 0, 0, 0, 0, 0, 0, 0, 0, 0, 0, 0, 1]))
}

fn info(name: &str, version: &str) -> PluginInfo {
    PluginInfo { name: name.to_string(), version: version.to_string() }
}

#[test]
fn plugin_info_dump_writes_lengths_texts_and_closing_zero() {
    let mut buf = BytesMut::new();
    info("ab", "1.0").dump(&mut buf);
    assert_eq!(&buf[..], &[2, 97, 98, 4, 49, 46, 48, 0][..]);
}

#[test]
fn dump_appends_to_what_the_buffer_holds() {
    let mut buf = BytesMut::from(&[0xAA, 0xBB][..]);
    info("", "").dump(&mut buf);
    assert_eq!(&buf[..], &[0xAA, 0xBB, 0, 1, 0][..]);
    v4().dump(&mut buf);
    assert_eq!(&buf[..], &[0xAA, 0xBB, 0, 1, 0, 0, 10, 0, 0, 1][..]);
}

#[test]
fn plugin_info_lengths_count_bytes_not_characters() {
    let mut buf = BytesMut::new();
    info("\u{e9}", "\u{20ac}").dump(&mut buf);
    assert_eq!(&buf[..], &[2, 0xC3, 0xA9, 4, 0xE2, 0x82, 0xAC, 0][..]);
}

#[test]
fn plugin_info_name_length_counts_modulo_256() {
    let name = "n".repeat(300);
    let mut buf = BytesMut::new();
    info(&name, "v").dump(&mut buf);
    assert_eq!(buf.len(), 1 + 300 + 1 + 1 + 1);
    assert_eq!(buf[0], 44);
    assert_eq!(&buf[1..301], name.as_bytes());
    assert_eq!(&buf[301..], &[2, b'v', 0][..]);
}

#[test]
fn plugin_info_is_dumpable_unless_the_version_length_byte_overflows() {
    assert!(info("a", "").dumpable());
    assert!(info("a", &"v".repeat(254)).dumpable());
    assert!(!info("a", &"v".repeat(255)).dumpable());
    assert!(info("a", &"v".repeat(256)).dumpable());
    assert!(!info("a", &"v".repeat(511)).dumpable());
    let mut buf = BytesMut::new();
    info("a", &"v".repeat(254)).dump(&mut buf);
    assert_eq!(buf[2], 255);
    assert_eq!(buf.len(), 1 + 1 + 1 + 254 + 1);
}

#[test]
fn plugin_info_load_reads_two_counted_texts() {
    let mut buf = Bytes::from_static(&[2, 97, 98, 3, 49, 46, 48, 7, 7]);
    assert_eq!(PluginInfo::load(&mut buf), Ok(info("ab", "1.0")));
    assert_eq!(&buf[..], &[7, 7][..]);
}

#[test]
fn plugin_info_reads_back_with_the_closing_zero_in_the_version() {
    let mut out = BytesMut::new();
    info("sniffer", "0.3.1").dump(&mut out);
    let mut buf = out.freeze();
    assert_eq!(PluginInfo::load(&mut buf), Ok(info("sniffer", "0.3.1\0")));
    assert_eq!(buf.len(), 0);
}

#[test]
fn plugin_info_load_reports_the_end_of_the_buffer() {
    let mut empty = Bytes::new();
    assert_eq!(PluginInfo::load(&mut empty), Err(LoadError::Truncated));
    let mut short_name = Bytes::from_static(&[2, 97]);
    assert_eq!(PluginInfo::load(&mut short_name), Err(LoadError::Truncated));
    assert_eq!(&short_name[..], &[97][..]);
    let mut no_version = Bytes::from_static(&[2, 97, 98]);
    assert_eq!(PluginInfo::load(&mut no_version), Err(LoadError::Truncated));
    assert_eq!(no_version.len(), 0);
    let mut short_version = Bytes::from_static(&[0, 3, 49]);
    assert_eq!(PluginInfo::load(&mut short_version), Err(LoadError::Truncated));
    assert_eq!(&short_version[..], &[49][..]);
}

#[test]
fn plugin_info_load_takes_every_field_before_it_decodes() {
    let mut bad_name_no_version = Bytes::from_static(&[1, 0xFF]);
    assert_eq!(PluginInfo::load(&mut bad_name_no_version), Err(LoadError::Truncated));
    let mut bad_name = Bytes::from_static(&[1, 0xFF, 1, 65, 9]);
    assert_eq!(PluginInfo::load(&mut bad_name), Err(LoadError::InvalidUtf8));
    assert_eq!(&bad_name[..], &[9][..]);
    let mut bad_version = Bytes::from_static(&[1, 65, 2, 0xC3, 0x28]);
    assert_eq!(PluginInfo::load(&mut bad_version), Err(LoadError::InvalidUtf8));
    assert_eq!(bad_version.len(), 0);
}

#[test]
fn endpoint_dump_writes_tag_and_address() {
    let mut buf = BytesMut::new();
    v4().dump(&mut buf);
    assert_eq!(&buf[..], &[0, 10, 0, 0, 1][..]);
    let mut buf = BytesMut::new();
    v6().dump(&mut buf);
    assert_eq!(
        &buf[..],
        &[4, 0x20, 0x01, 0x0d, 0xb8, 0, 0, 0, 0, 0, 0, 0, 0, 0, 0, 0, 1][..]
    );
    let mut buf = BytesMut::new();
    IpEndpoint::Domain("a.io".to_string()).dump(&mut buf);
    assert_eq!(&buf[..], &[3, b'a', b'.', b'i', b'o'][..]);
}

#[test]
fn endpoint_load_reads_each_kind() {
    let mut buf = Bytes::from_static(&[0, 192, 168, 1, 20, 99]);
    assert_eq!(IpEndpoint::load(&mut buf), Ok(IpEndpoint::IpAddr(IpAddr::V4([192, 168, 1, 20]))));
    assert_eq!(&buf[..], &[99][..]);
    let mut buf = Bytes::from_static(&[1, 4, b'a', b'.', b'i', b'o', 99]);
    assert_eq!(IpEndpoint::load(&mut buf), Ok(IpEndpoint::Domain("a.io".to_string())));
    assert_eq!(&buf[..], &[99][..]);
    let mut buf =
        Bytes::from_static(&[2, 0x20, 0x01, 0x0d, 0xb8, 0, 0, 0, 0, 0, 0, 0, 0, 0, 0, 0, 1, 99]);
    assert_eq!(IpEndpoint::load(&mut buf), Ok(v6()));
    assert_eq!(&buf[..], &[99][..]);
    let mut buf = Bytes::from_static(&[1, 0]);
    assert_eq!(IpEndpoint::load(&mut buf), Ok(IpEndpoint::Domain(String::new())));
}

#[test]
fn endpoint_load_rejects_unknown_tags() {
    let mut buf = Bytes::from_static(&[3, b'a', b'b']);
    assert_eq!(IpEndpoint::load(&mut buf), Err(LoadError::InvalidEndpointType(3)));
    assert_eq!(&buf[..], &[b'a', b'b'][..]);
    let mut buf = Bytes::from_static(&[4, 1, 2]);
    assert_eq!(IpEndpoint::load(&mut buf), Err(LoadError::InvalidEndpointType(4)));
    let mut buf = Bytes::from_static(&[255]);
    assert_eq!(IpEndpoint::load(&mut buf), Err(LoadError::InvalidEndpointType(255)));
}

#[test]
fn endpoint_load_reports_the_end_of_the_buffer_and_bad_text() {
    let mut buf = Bytes::new();
    assert_eq!(IpEndpoint::load(&mut buf), Err(LoadError::Truncated));
    let mut buf = Bytes::from_static(&[0, 1, 2, 3]);
    assert_eq!(IpEndpoint::load(&mut buf), Err(LoadError::Truncated));
    assert_eq!(&buf[..], &[1, 2, 3][..]);
    let mut buf = Bytes::from_static(&[2, 1, 2, 3, 4, 5, 6, 7, 8, 9, 10, 11, 12, 13, 14, 15]);
    assert_eq!(IpEndpoint::load(&mut buf), Err(LoadError::Truncated));
    let mut buf = Bytes::from_static(&[1]);
    assert_eq!(IpEndpoint::load(&mut buf), Err(LoadError::Truncated));
    let mut buf = Bytes::from_static(&[1, 3, b'a']);
    assert_eq!(IpEndpoint::load(&mut buf), Err(LoadError::Truncated));
    let mut buf = Bytes::from_static(&[1, 2, 0xE2, 0x82, 5]);
    assert_eq!(IpEndpoint::load(&mut buf), Err(LoadError::InvalidUtf8));
    assert_eq!(&buf[..], &[5][..]);
}

#[test]
fn only_the_v4_endpoint_reads_back() {
    let mut out = BytesMut::new();
    v4().dump(&mut out);
    assert_eq!(IpEndpoint::load(&mut out.freeze()), Ok(v4()));
    let mut out = BytesMut::new();
    v6().dump(&mut out);
    assert_eq!(IpEndpoint::load(&mut out.freeze()), Err(LoadError::InvalidEndpointType(4)));
    let mut out = BytesMut::new();
    IpEndpoint::Domain("host".to_string()).dump(&mut out);
    assert_eq!(IpEndpoint::load(&mut out.freeze()), Err(LoadError::InvalidEndpointType(3)));
}

#[test]
fn ip_packet_dump_writes_endpoint_length_data() {
    let packet = IpPacket { endpoint: v4(), data: vec![0xde, 0xad] };
    let mut buf = BytesMut::new();
    packet.dump(&mut buf);
    assert_eq!(&buf[..], &[0, 10, 0, 0, 1, 0, 2, 0xde, 0xad][..]);
}

#[test]
fn lengths_are_written_high_byte_first() {
    let packet = IpPacket { endpoint: v4(), data: vec![7; 258] };
    let mut buf = BytesMut::new();
    packet.dump(&mut buf);
    assert_eq!(&buf[5..7], &[1, 2][..]);
    assert_eq!(buf.len(), 5 + 2 + 258);
    let mut read = buf.freeze();
    assert_eq!(IpPacket::load(&mut read), Ok(packet));
    assert_eq!(read.len(), 0);
}

#[test]
fn data_length_counts_modulo_65536() {
    let packet = IpPacket { endpoint: v4(), data: vec![1; 65539] };
    let mut buf = BytesMut::new();
    packet.dump(&mut buf);
    assert_eq!(buf.len(), 5 + 2 + 65539);
    assert_eq!(&buf[5..7], &[0, 3][..]);
    let mut read = buf.freeze();
    assert_eq!(IpPacket::load(&mut read), Ok(IpPacket { endpoint: v4(), data: vec![1; 3] }));
    assert_eq!(read.len(), 65536);
}

#[test]
fn ip_packet_load_reads_and_reports() {
    let mut buf = Bytes::from_static(&[0, 10, 0, 0, 1, 0, 3, 1, 2, 3, 4]);
    assert_eq!(IpPacket::load(&mut buf), Ok(IpPacket { endpoint: v4(), data: vec![1, 2, 3] }));
    assert_eq!(&buf[..], &[4][..]);
    let mut buf = Bytes::from_static(&[0, 10, 0, 0, 1, 0, 0]);
    assert_eq!(IpPacket::load(&mut buf), Ok(IpPacket { endpoint: v4(), data: vec![] }));
    let mut buf = Bytes::from_static(&[0, 10, 0, 0, 1, 0]);
    assert_eq!(IpPacket::load(&mut buf), Err(LoadError::Truncated));
    assert_eq!(&buf[..], &[0][..]);
    let mut buf = Bytes::from_static(&[0, 10, 0, 0, 1, 0, 3, 1, 2]);
    assert_eq!(IpPacket::load(&mut buf), Err(LoadError::Truncated));
    assert_eq!(&buf[..], &[1, 2][..]);
    let mut buf = Bytes::from_static(&[7, 10, 0, 0, 1, 0, 0]);
    assert_eq!(IpPacket::load(&mut buf), Err(LoadError::InvalidEndpointType(7)));
}

#[test]
fn app_packet_dump_writes_endpoint_port_length_data() {
    let packet = AppPacket { endpoint: v4(), port: 8080, data: vec![1, 2, 3] };
    let mut buf = BytesMut::new();
    packet.dump(&mut buf);
    assert_eq!(&buf[..], &[0, 10, 0, 0, 1, 0x1F, 0x90, 0, 3, 1, 2, 3][..]);
    let mut read = buf.freeze();
    assert_eq!(AppPacket::load(&mut read), Ok(packet));
    assert_eq!(read.len(), 0);
}

#[test]
fn app_packet_load_reads_and_reports() {
    let mut buf = Bytes::from_static(&[1, 2, b'h', b'i', 0, 53, 0, 1, 0xFF, 0xEE]);
    assert_eq!(
        AppPacket::load(&mut buf),
        Ok(AppPacket { endpoint: IpEndpoint::Domain("hi".to_string()), port: 53, data: vec![0xFF] })
    );
    assert_eq!(&buf[..], &[0xEE][..]);
    let mut buf = Bytes::from_static(&[0, 10, 0, 0, 1, 0x1F]);
    assert_eq!(AppPacket::load(&mut buf), Err(LoadError::Truncated));
    let mut buf = Bytes::from_static(&[0, 10, 0, 0, 1, 0x1F, 0x90, 0]);
    assert_eq!(AppPacket::load(&mut buf), Err(LoadError::Truncated));
    let mut buf = Bytes::from_static(&[0, 10, 0, 0, 1, 0xFF, 0xFF, 0, 2, 1]);
    assert_eq!(AppPacket::load(&mut buf), Err(LoadError::Truncated));
    let mut buf = Bytes::from_static(&[0, 10, 0, 0, 1, 0xFF, 0xFF, 0, 0]);
    assert_eq!(
        AppPacket::load(&mut buf),
        Ok(AppPacket { endpoint: v4(), port: 65535, data: vec![] })
    );
}

#[test]
fn protocol_packet_dump_writes_version_code_type_body() {
    let ip = IpPacket { endpoint: v4(), data: vec![9] };
    let app = AppPacket { endpoint: v4(), port: 443, data: vec![8] };
    let ip_body: &[u8] = &[0, 10, 0, 0, 1, 0, 1, 9];
    let app_body: &[u8] = &[0, 10, 0, 0, 1, 1, 0xBB, 0, 1, 8];
    let cases: Vec<(ProtocolPacket, [u8; 3], &[u8])> = vec![
        (ProtocolPacket::PluginInfo(info("p", "1")), [1, 1, 1], &[1, b'p', 2, b'1', 0]),
        (ProtocolPacket::Config("k=v".to_string()), [1, 1, 2], &[b'k', b'=', b'v']),
        (ProtocolPacket::SendIP(ip.clone()), [1, 2, 1], ip_body),
        (ProtocolPacket::RecvIP(ip), [1, 2, 2], ip_body),
        (ProtocolPacket::SendUDP(app.clone()), [1, 2, 3], app_body),
        (ProtocolPacket::RecvUDP(app.clone()), [1, 2, 4], app_body),
        (ProtocolPacket::SendTCP(app.clone()), [1, 2, 5], app_body),
        (ProtocolPacket::RecvTCP(app), [1, 2, 6], app_body),
    ];
    for (packet, head, body) in cases {
        assert!(packet.dumpable());
        let mut buf = BytesMut::new();
        packet.dump(&mut buf);
        assert_eq!(&buf[..3], &head[..]);
        assert_eq!(&buf[3..], body);
    }
}

#[test]
fn protocol_packet_load_reads_each_record() {
    let ip = IpPacket { endpoint: v4(), data: vec![9] };
    let app = AppPacket { endpoint: v4(), port: 443, data: vec![8] };
    let ip_body: &[u8] = &[0, 10, 0, 0, 1, 0, 1, 9];
    let app_body: &[u8] = &[0, 10, 0, 0, 1, 1, 0xBB, 0, 1, 8];
    let cases: Vec<([u8; 3], &[u8], ProtocolPacket)> = vec![
        ([1, 1, 1], &[1, b'p', 1, b'1'], ProtocolPacket::PluginInfo(info("p", "1"))),
        ([1, 1, 2], &[0, 3, b'k', b'=', b'v'], ProtocolPacket::Config("k=v".to_string())),
        ([1, 2, 1], ip_body, ProtocolPacket::SendIP(ip.clone())),
        ([1, 2, 2], ip_body, ProtocolPacket::RecvIP(ip)),
        ([1, 2, 3], app_body, ProtocolPacket::SendUDP(app.clone())),
        ([1, 2, 4], app_body, ProtocolPacket::RecvUDP(app.clone())),
        ([1, 2, 5], app_body, ProtocolPacket::SendTCP(app.clone())),
        ([1, 2, 6], app_body, ProtocolPacket::RecvTCP(app)),
    ];
    for (head, body, packet) in cases {
        let mut bytes = head.to_vec();
        bytes.extend_from_slice(body);
        bytes.push(0x55);
        let mut buf = Bytes::from(bytes);
        assert_eq!(ProtocolPacket::load(&mut buf), Ok(packet));
        assert_eq!(&buf[..], &[0x55][..]);
    }
}

#[test]
fn protocol_packet_load_checks_the_version_first() {
    let mut buf = Bytes::from_static(&[2, 2, 1, 0, 10, 0, 0, 1, 0, 0]);
    assert_eq!(ProtocolPacket::load(&mut buf), Err(LoadError::InvalidVersion(2)));
    assert_eq!(buf.len(), 9);
    let mut buf = Bytes::from_static(&[0]);
    assert_eq!(ProtocolPacket::load(&mut buf), Err(LoadError::InvalidVersion(0)));
    let mut buf = Bytes::new();
    assert_eq!(ProtocolPacket::load(&mut buf), Err(LoadError::Truncated));
}

#[test]
fn protocol_packet_load_rejects_unknown_records_by_their_type() {
    let mut buf = Bytes::from_static(&[1, 1, 3, 0, 0]);
    assert_eq!(ProtocolPacket::load(&mut buf), Err(LoadError::InvalidPacketType(3)));
    assert_eq!(buf.len(), 2);
    let mut buf = Bytes::from_static(&[1, 2, 7]);
    assert_eq!(ProtocolPacket::load(&mut buf), Err(LoadError::InvalidPacketType(7)));
    let mut buf = Bytes::from_static(&[1, 2, 0]);
    assert_eq!(ProtocolPacket::load(&mut buf), Err(LoadError::InvalidPacketType(0)));
    let mut buf = Bytes::from_static(&[1, 3, 1]);
    assert_eq!(ProtocolPacket::load(&mut buf), Err(LoadError::InvalidPacketType(1)));
    let mut buf = Bytes::from_static(&[1, 0, 2]);
    assert_eq!(ProtocolPacket::load(&mut buf), Err(LoadError::InvalidPacketType(2)));
}

#[test]
fn protocol_packet_load_reports_the_end_of_the_buffer_and_bad_text() {
    let mut buf = Bytes::from_static(&[1]);
    assert_eq!(ProtocolPacket::load(&mut buf), Err(LoadError::Truncated));
    let mut buf = Bytes::from_static(&[1, 2]);
    assert_eq!(ProtocolPacket::load(&mut buf), Err(LoadError::Truncated));
    let mut buf = Bytes::from_static(&[1, 1, 2, 0]);
    assert_eq!(ProtocolPacket::load(&mut buf), Err(LoadError::Truncated));
    let mut buf = Bytes::from_static(&[1, 1, 2, 0, 2, b'k']);
    assert_eq!(ProtocolPacket::load(&mut buf), Err(LoadError::Truncated));
    let mut buf = Bytes::from_static(&[1, 1, 2, 0, 1, 0x80]);
    assert_eq!(ProtocolPacket::load(&mut buf), Err(LoadError::InvalidUtf8));
    let mut buf = Bytes::from_static(&[1, 2, 1, 0, 10, 0, 0, 1, 0, 5, 1]);
    assert_eq!(ProtocolPacket::load(&mut buf), Err(LoadError::Truncated));
    let mut buf = Bytes::from_static(&[1, 2, 5, 9]);
    assert_eq!(ProtocolPacket::load(&mut buf), Err(LoadError::InvalidEndpointType(9)));
    let mut buf = Bytes::from_static(&[1, 1, 1, 1, 0xFF, 0]);
    assert_eq!(ProtocolPacket::load(&mut buf), Err(LoadError::InvalidUtf8));
}

#[test]
fn traffic_of_a_v4_endpoint_reads_back() {
    let ip = IpPacket { endpoint: v4(), data: vec![0x45, 0, 0, 20] };
    let app = AppPacket { endpoint: v4(), port: 53, data: vec![1, 2, 3, 4, 5] };
    let packets = vec![
        ProtocolPacket::SendIP(ip.clone()),
        ProtocolPacket::RecvIP(ip),
        ProtocolPacket::SendUDP(app.clone()),
        ProtocolPacket::RecvUDP(app.clone()),
        ProtocolPacket::SendTCP(app.clone()),
        ProtocolPacket::RecvTCP(app),
    ];
    let mut out = BytesMut::new();
    for packet in &packets {
        packet.dump(&mut out);
    }
    let mut buf = out.freeze();
    for packet in packets {
        assert_eq!(ProtocolPacket::load(&mut buf), Ok(packet));
    }
    assert_eq!(buf.len(), 0);
}

#[test]
fn a_configuration_is_written_without_the_length_that_reading_expects() {
    let mut out = BytesMut::new();
    ProtocolPacket::Config("\0\u{2}ok".to_string()).dump(&mut out);
    assert_eq!(&out[..], &[1, 1, 2, 0, 2, b'o', b'k'][..]);
    assert_eq!(
        ProtocolPacket::load(&mut out.freeze()),
        Ok(ProtocolPacket::Config("ok".to_string()))
    );
}

#[test]
fn a_plugin_info_record_may_not_be_dumpable() {
    assert!(!ProtocolPacket::PluginInfo(info("a", &"v".repeat(255))).dumpable());
    assert!(ProtocolPacket::PluginInfo(info("a", &"v".repeat(3))).dumpable());
}
