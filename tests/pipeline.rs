use lb_ebpf::balancer::{
    emit, try_xdp_lb, xdp_lb, Action, Endpoints, Verdict, BACKEND_A, BACKEND_A_E, CLIENT,
    CLIENT_E, LB, LB_E,
};
use lb_ebpf::checksum::{csum_fold_helper, header_sum};
use lb_ebpf::frame::{window, Window};
use lb_ebpf::headers::{
    parse, FrameError, Parsed, Transport, ETH_HDR_LEN, IPPROTO_TCP, IPPROTO_UDP, IPV4_HDR_LEN,
    TCP_HDR_LEN, UDP_HDR_LEN,
};

const ETHERTYPE_ARP: u16 = 0x0806;
const ETHERTYPE_IPV6: u16 = 0x86dd;
const ETHERTYPE_IP: u16 = 0x0800;
const ICMP: u8 = 1;
const OTHER_HOST: u32 = 0xAC13_0009;
const SOME_DEST: u32 = 0xC0A8_0101;

/// An Ethernet frame with an IPv4 header and a transport header of `proto`,
/// padded with payload up to `len` bytes.
fn frame(ether_type: u16, proto: u8, src: u32, dst: u32, port: u16, len: usize) -> Vec<u8> {
    let mut f = vec![0u8; len.max(64)];
    f[0..6].copy_from_slice(&[0x02, 0x42, 0xac, 0x13, 0x00, 0x05]);
    f[6..12].copy_from_slice(&[0x02, 0x42, 0xac, 0x13, 0x00, 0x03]);
    f[12..14].copy_from_slice(&ether_type.to_be_bytes());
    f[14] = 0x45;
    f[16..18].copy_from_slice(&50u16.to_be_bytes());
    f[18..20].copy_from_slice(&0x1c46u16.to_be_bytes());
    f[20..22].copy_from_slice(&0x4000u16.to_be_bytes());
    f[22] = 64;
    f[23] = proto;
    f[24..26].copy_from_slice(&0xbeefu16.to_be_bytes());
    f[26..30].copy_from_slice(&src.to_be_bytes());
    f[30..34].copy_from_slice(&dst.to_be_bytes());
    f[34..36].copy_from_slice(&port.to_be_bytes());
    f[36..38].copy_from_slice(&8080u16.to_be_bytes());
    for (i, b) in f.iter_mut().enumerate().skip(54) {
        *b = i as u8;
    }
    f.truncate(len);
    f
}

fn tcp_frame(src: u32, dst: u32, port: u16) -> Vec<u8> {
    frame(ETHERTYPE_IP, IPPROTO_TCP, src, dst, port, 74)
}

/// The end-around sum of the IPv4 header's words, checksum included.
fn header_word_sum(f: &[u8]) -> u32 {
    let mut sum: u32 = 0;
    for i in 0..10 {
        sum += u16::from_be_bytes([f[14 + 2 * i], f[15 + 2 * i]]) as u32;
    }
    while sum > 0xffff {
        sum = (sum & 0xffff) + (sum >> 16);
    }
    sum
}

fn be32_at(f: &[u8], i: usize) -> u32 {
    u32::from_be_bytes([f[i], f[i + 1], f[i + 2], f[i + 3]])
}

#[test]
fn client_tcp_frame_goes_to_backend() {
    let cfg = Endpoints::demo();
    let mut f = tcp_frame(CLIENT, SOME_DEST, 443);
    let before = f.clone();
    assert_eq!(xdp_lb(&mut f, &cfg), Action::Transmit);
    assert_eq!(be32_at(&f, 30), BACKEND_A);
    assert_eq!(f[5], BACKEND_A_E);
    assert_eq!(be32_at(&f, 26), LB);
    assert_eq!(f[11], LB_E);
    assert_eq!(header_word_sum(&f), 0xffff);
    for i in 0..f.len() {
        if i != 5 && i != 11 && !(24..34).contains(&i) {
            assert_eq!(f[i], before[i], "byte {}", i);
        }
    }
}

#[test]
fn backend_udp_frame_goes_to_client() {
    let cfg = Endpoints::demo();
    let mut f = frame(ETHERTYPE_IP, IPPROTO_UDP, BACKEND_A, LB, 53, 60);
    assert_eq!(try_xdp_lb(&mut f, &cfg), Ok(Verdict::TranslateToClient));
    assert_eq!(be32_at(&f, 30), CLIENT);
    assert_eq!(f[5], CLIENT_E);
    assert_eq!(be32_at(&f, 26), LB);
    assert_eq!(f[11], LB_E);
    assert_eq!(header_word_sum(&f), 0xffff);
}

#[test]
fn client_request_verdict() {
    let cfg = Endpoints::demo();
    let mut f = tcp_frame(CLIENT, SOME_DEST, 443);
    assert_eq!(try_xdp_lb(&mut f, &cfg), Ok(Verdict::TranslateToBackend));
}

#[test]
fn non_ipv4_frames_pass_untouched() {
    let cfg = Endpoints::demo();
    for et in [ETHERTYPE_ARP, ETHERTYPE_IPV6] {
        let mut f = frame(et, IPPROTO_TCP, CLIENT, SOME_DEST, 443, 74);
        let before = f.clone();
        assert_eq!(xdp_lb(&mut f, &cfg), Action::Pass);
        assert_eq!(f, before);
    }
    let mut bare = frame(ETHERTYPE_ARP, 0, 0, 0, 0, 14);
    let before = bare.clone();
    assert_eq!(xdp_lb(&mut bare, &cfg), Action::Pass);
    assert_eq!(bare, before);
}

#[test]
fn unsupported_protocol_aborts() {
    let cfg = Endpoints::demo();
    let mut f = frame(ETHERTYPE_IP, ICMP, CLIENT, SOME_DEST, 0, 74);
    let before = f.clone();
    assert_eq!(try_xdp_lb(&mut f, &cfg), Err(FrameError::UnsupportedProtocol(ICMP)));
    assert_eq!(f, before);
    assert_eq!(xdp_lb(&mut f, &cfg), Action::Abort);
    assert_eq!(f, before);
}

#[test]
fn unrelated_source_passes_untouched() {
    let cfg = Endpoints::demo();
    let mut f = tcp_frame(OTHER_HOST, SOME_DEST, 443);
    let before = f.clone();
    assert_eq!(xdp_lb(&mut f, &cfg), Action::Pass);
    assert_eq!(f, before);
}

#[test]
fn short_frames_abort_without_writes() {
    let cfg = Endpoints::demo();
    let cases = [
        frame(ETHERTYPE_IP, IPPROTO_TCP, CLIENT, SOME_DEST, 443, 0),
        frame(ETHERTYPE_IP, IPPROTO_TCP, CLIENT, SOME_DEST, 443, 13),
        frame(ETHERTYPE_IP, IPPROTO_TCP, CLIENT, SOME_DEST, 443, 33),
        frame(ETHERTYPE_IP, IPPROTO_TCP, CLIENT, SOME_DEST, 443, 53),
        frame(ETHERTYPE_IP, IPPROTO_UDP, BACKEND_A, SOME_DEST, 53, 41),
    ];
    for mut f in cases {
        let before = f.clone();
        assert_eq!(try_xdp_lb(&mut f, &cfg), Err(FrameError::OutOfBounds));
        assert_eq!(xdp_lb(&mut f, &cfg), Action::Abort);
        assert_eq!(f, before);
    }
}

#[test]
fn shortest_complete_frames_are_rewritten() {
    let cfg = Endpoints::demo();
    let mut tcp = frame(ETHERTYPE_IP, IPPROTO_TCP, CLIENT, SOME_DEST, 443, 54);
    assert_eq!(xdp_lb(&mut tcp, &cfg), Action::Transmit);
    let mut udp = frame(ETHERTYPE_IP, IPPROTO_UDP, CLIENT, SOME_DEST, 53, 42);
    assert_eq!(xdp_lb(&mut udp, &cfg), Action::Transmit);
    assert_eq!(header_word_sum(&udp), 0xffff);
}

#[test]
fn second_run_passes_translated_frame() {
    let cfg = Endpoints::demo();
    let mut f = tcp_frame(CLIENT, SOME_DEST, 443);
    assert_eq!(xdp_lb(&mut f, &cfg), Action::Transmit);
    let once = f.clone();
    assert_eq!(xdp_lb(&mut f, &cfg), Action::Pass);
    assert_eq!(f, once);
}

#[test]
fn verdicts_map_to_actions() {
    assert_eq!(emit(Verdict::Forward), Action::Pass);
    assert_eq!(emit(Verdict::TranslateToBackend), Action::Transmit);
    assert_eq!(emit(Verdict::TranslateToClient), Action::Transmit);
    assert_eq!(emit(Verdict::Drop), Action::Drop);
    assert_eq!(emit(Verdict::Abort), Action::Abort);
}

#[test]
fn parse_reads_source_fields() {
    let f = tcp_frame(CLIENT, SOME_DEST, 443);
    match parse(&f) {
        Ok(Parsed::Ipv4(p)) => {
            assert_eq!(p.src_addr, CLIENT);
            assert_eq!(p.dst_addr, SOME_DEST);
            assert_eq!(p.src_port, 443);
            assert_eq!(p.transport, Transport::Tcp);
        }
        other => panic!("unexpected {:?}", other),
    }
    let u = frame(ETHERTYPE_IP, IPPROTO_UDP, OTHER_HOST, SOME_DEST, 5353, 42);
    match parse(&u) {
        Ok(Parsed::Ipv4(p)) => {
            assert_eq!(p.src_port, 5353);
            assert_eq!(p.transport, Transport::Udp);
        }
        other => panic!("unexpected {:?}", other),
    }
    let a = frame(ETHERTYPE_ARP, 0, 0, 0, 0, 42);
    assert_eq!(parse(&a), Ok(Parsed::NotIpv4));
}

#[test]
fn window_checks_bounds() {
    let f = vec![0u8; 20];
    assert_eq!(window(&f, 0, 20), Ok(Window { offset: 0, len: 20 }));
    assert_eq!(window(&f, 14, 6), Ok(Window { offset: 14, len: 6 }));
    assert!(window(&f, 14, 7).is_err());
    assert!(window(&f, 21, 0).is_err());
    assert!(window(&f, usize::MAX, 2).is_err());
}

#[test]
fn fold_values() {
    assert_eq!(csum_fold_helper(0), 0xffff);
    assert_eq!(csum_fold_helper(0xffff), 0);
    assert_eq!(csum_fold_helper(0x1_0000), 0xfffe);
    assert_eq!(csum_fold_helper(0x1_fffe), 0);
    assert_eq!(csum_fold_helper(0x2_b79e), 0x485f);
    assert_eq!(csum_fold_helper(u64::MAX), 0);
}

#[test]
fn known_header_checksum() {
    let mut f = vec![0u8; 34];
    let hdr = [
        0x45, 0x00, 0x00, 0x73, 0x00, 0x00, 0x40, 0x00, 0x40, 0x11, 0x00, 0x00, 0xc0, 0xa8, 0x00,
        0x01, 0xc0, 0xa8, 0x00, 0xc7,
    ];
    f[14..34].copy_from_slice(&hdr);
    let ip = Window { offset: 14, len: 20 };
    let sum = header_sum(&f, &ip);
    assert_eq!(sum, 0x2_479c);
    assert_eq!(csum_fold_helper(sum), 0xb861);
}

#[test]
fn demo_endpoints() {
    let cfg = Endpoints::demo();
    assert_eq!(cfg.client.addr, 0xAC13_0003);
    assert_eq!(cfg.client.mac_last, 3);
    assert_eq!(cfg.balancer.addr, 0xAC13_0005);
    assert_eq!(cfg.balancer.mac_last, 5);
    assert_eq!(cfg.backend.addr, 0xAC13_0002);
    assert_eq!(cfg.backend.mac_last, 2);
}

#[test]
fn header_lengths_match_network_types() {
    assert_eq!(ETH_HDR_LEN, network_types::eth::EthHdr::LEN);
    assert_eq!(IPV4_HDR_LEN, network_types::ip::Ipv4Hdr::LEN);
    assert_eq!(TCP_HDR_LEN, network_types::tcp::TcpHdr::LEN);
    assert_eq!(UDP_HDR_LEN, network_types::udp::UdpHdr::LEN);
    assert_eq!(IPPROTO_TCP, network_types::ip::IpProto::Tcp as u8);
    assert_eq!(IPPROTO_UDP, network_types::ip::IpProto::Udp as u8);
}
