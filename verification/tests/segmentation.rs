use rust_driver::segments::{generate_segments_from_request, Segment};
use rust_driver::types::{Pmtu, VirtualAddress};
use rust_driver::utils::{calculate_packet_cnt, get_first_packet_max_length};

#[test]
fn test_generate_segments_from_request() {
    let va = 0x00007F7E8EE00000;
    let path_mtu = 4096;
    let len = 6144;

    let expected = vec![
        Segment::new(va.into(), 4096),
        Segment::new((va + path_mtu as u64).into(), 2048),
    ];

    let segments = generate_segments_from_request(va, len, path_mtu);
    assert_eq!(expected, segments);
}

#[test]
fn test_calculate_packet_cnt() {
    let raddr = 0;
    let total_len = 4096;
    let packet_cnt = calculate_packet_cnt(Pmtu::Mtu1024, raddr, total_len);
    assert_eq!(packet_cnt, 4);

    for raddr in 1..1023 {
        let packet_cnt = calculate_packet_cnt(Pmtu::Mtu1024, raddr, total_len);
        assert_eq!(packet_cnt, 5);
    }
}

#[test]
fn first_packet_runs_to_next_mtu_boundary() {
    assert_eq!(get_first_packet_max_length(254, 256), 2);
    assert_eq!(get_first_packet_max_length(256, 256), 256);
    assert_eq!(get_first_packet_max_length(0, 4096), 4096);
    assert_eq!(get_first_packet_max_length(4097, 4096), 4095);
}

#[test]
fn segments_of_unaligned_transfer() {
    // 10 bytes before a 256-byte boundary, then whole packets, then a tail.
    let segments = generate_segments_from_request(246, 600, 256);
    assert_eq!(
        segments,
        vec![
            Segment::new(VirtualAddress(246), 10),
            Segment::new(VirtualAddress(256), 256),
            Segment::new(VirtualAddress(512), 256),
            Segment::new(VirtualAddress(768), 78),
        ]
    );
    let total: u32 = segments.iter().map(|s| s.len).sum();
    assert_eq!(total, 600);
}

#[test]
fn empty_transfer_has_one_empty_segment() {
    let segments = generate_segments_from_request(100, 0, 1024);
    assert_eq!(segments, vec![Segment::new(VirtualAddress(100), 0)]);
    assert_eq!(calculate_packet_cnt(Pmtu::Mtu1024, 100, 0), 1);
}

#[test]
fn transfer_inside_first_packet() {
    let segments = generate_segments_from_request(4096 + 10, 20, 4096);
    assert_eq!(segments, vec![Segment::new(VirtualAddress(4106), 20)]);
    assert_eq!(calculate_packet_cnt(Pmtu::Mtu4096, 4106, 20), 1);
}

#[test]
fn segment_count_matches_packet_count() {
    let mtus = [
        (Pmtu::Mtu256, 256u32),
        (Pmtu::Mtu512, 512),
        (Pmtu::Mtu1024, 1024),
        (Pmtu::Mtu2048, 2048),
        (Pmtu::Mtu4096, 4096),
    ];
    for (pmtu, bytes) in mtus {
        for va in [0u64, 1, 255, 256, 1000, 4095, 0x1_0000_0001] {
            for len in [0u32, 1, 255, 256, 257, 5000, 70000] {
                let segments = generate_segments_from_request(va, len, bytes);
                assert_eq!(segments.len() as u32, calculate_packet_cnt(pmtu, va, len));
            }
        }
    }
}

#[test]
fn mtu_sizes_and_codes() {
    assert_eq!(Pmtu::Mtu256.bytes(), 256);
    assert_eq!(Pmtu::Mtu4096.bytes(), 4096);
    assert_eq!(Pmtu::from_code(3), Some(Pmtu::Mtu1024));
    assert_eq!(Pmtu::from_code(0), None);
    assert_eq!(Pmtu::Mtu2048.code(), 4);
}
