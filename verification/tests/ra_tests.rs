use rafilter::prefix::NetworkPrefix;
use rafilter::ra::{extract_prefixes, icmpv6_payload, is_router_advertisement};

const DOC_NET: [u8; 16] = [
    0x20, 0x01, 0x0d, 0xb8, 0, 0, 0, 0, 0, 0, 0, 0, 0, 0, 0, 0,
];

fn ra_header() -> Vec<u8> {
    let mut msg = vec![0u8; 16];
    msg[0] = 134; // ICMPv6 Router Advertisement
    msg[1] = 0; // code
    msg[4] = 64; // current hop limit
    msg
}

fn prefix_option(prefix_len: u8, addr: [u8; 16]) -> Vec<u8> {
    let mut opt = vec![3u8, 4, prefix_len, 0xc0];
    opt.extend_from_slice(&[0, 0, 0x0e, 0x10]); // valid lifetime
    opt.extend_from_slice(&[0, 0, 0x07, 0x08]); // preferred lifetime
    opt.extend_from_slice(&[0, 0, 0, 0]); // reserved
    opt.extend_from_slice(&addr);
    opt
}

#[test]
fn recognizes_router_advertisement() {
    assert!(is_router_advertisement(&ra_header()));
}

#[test]
fn rejects_other_icmpv6_types() {
    let mut msg = ra_header();
    msg[0] = 135; // Neighbor Solicitation
    assert!(!is_router_advertisement(&msg));
    assert!(extract_prefixes(&msg).is_empty());
}

#[test]
fn rejects_short_message() {
    let msg = vec![134u8, 0, 0, 0];
    assert!(!is_router_advertisement(&msg));
    assert!(extract_prefixes(&msg).is_empty());
}

#[test]
fn extracts_one_advertised_prefix() {
    let mut msg = ra_header();
    msg.extend_from_slice(&prefix_option(32, DOC_NET));
    let got = extract_prefixes(&msg);
    let want = NetworkPrefix::new(0x2001_0db8_0000_0000_0000_0000_0000_0000, 32).unwrap();
    assert_eq!(got, vec![want]);
}

#[test]
fn extracted_prefixes_are_canonical() {
    // Host bits beyond the advertised /32 must be masked away.
    let mut addr = DOC_NET;
    addr[15] = 0x01;
    let mut msg = ra_header();
    msg.extend_from_slice(&prefix_option(32, addr));
    let got = extract_prefixes(&msg);
    assert_eq!(got.len(), 1);
    assert_eq!(got[0].addr, 0x2001_0db8_0000_0000_0000_0000_0000_0000);
    assert_eq!(got[0].len, 32);
}

#[test]
fn keeps_option_order() {
    let mut other = DOC_NET;
    other[3] = 0xb9;
    let mut msg = ra_header();
    msg.extend_from_slice(&prefix_option(32, DOC_NET));
    msg.extend_from_slice(&prefix_option(48, other));
    let got = extract_prefixes(&msg);
    assert_eq!(got.len(), 2);
    assert_eq!(got[0].addr, 0x2001_0db8_0000_0000_0000_0000_0000_0000);
    assert_eq!(got[1].addr, 0x2001_0db9_0000_0000_0000_0000_0000_0000);
}

#[test]
fn skips_foreign_options() {
    let mut msg = ra_header();
    msg.extend_from_slice(&[1, 1, 0xaa, 0xbb, 0xcc, 0xdd, 0xee, 0xff]); // source link-layer address
    msg.extend_from_slice(&prefix_option(64, DOC_NET));
    let got = extract_prefixes(&msg);
    assert_eq!(got.len(), 1);
    assert_eq!(got[0].len, 64);
}

#[test]
fn skips_overlong_prefix_length() {
    let mut msg = ra_header();
    msg.extend_from_slice(&prefix_option(200, DOC_NET));
    msg.extend_from_slice(&prefix_option(16, DOC_NET));
    let got = extract_prefixes(&msg);
    assert_eq!(got.len(), 1);
    assert_eq!(got[0].len, 16);
}

#[test]
fn stops_at_zero_length_option() {
    let mut msg = ra_header();
    msg.extend_from_slice(&prefix_option(32, DOC_NET));
    msg.extend_from_slice(&[3, 0]); // malformed: option length zero
    msg.extend_from_slice(&prefix_option(48, DOC_NET));
    let got = extract_prefixes(&msg);
    assert_eq!(got.len(), 1);
    assert_eq!(got[0].len, 32);
}

#[test]
fn stops_at_truncated_option() {
    let mut msg = ra_header();
    msg.extend_from_slice(&[3, 4, 32, 0, 0, 0]); // claims 32 bytes, has 6
    let got = extract_prefixes(&msg);
    assert!(got.is_empty());
}

#[test]
fn payload_of_icmpv6_packet_is_sliced_out() {
    let mut pkt = vec![0u8; 40];
    pkt[0] = 0x60; // IPv6 version nibble
    pkt[6] = 58; // next header: ICMPv6
    pkt.extend_from_slice(&ra_header());
    let msg = icmpv6_payload(&pkt).unwrap();
    assert_eq!(msg, ra_header());
}

#[test]
fn payload_of_non_icmpv6_packet_is_refused() {
    let mut pkt = vec![0u8; 48];
    pkt[6] = 6; // next header: TCP
    assert!(icmpv6_payload(&pkt).is_none());
}

#[test]
fn payload_of_short_packet_is_refused() {
    let pkt = vec![0u8; 39];
    assert!(icmpv6_payload(&pkt).is_none());
}

#[test]
fn garbage_never_panics() {
    for seed in 0..64u32 {
        let len = (seed * 7 % 97) as usize;
        let msg: Vec<u8> = (0..len).map(|i| (seed.wrapping_mul(31).wrapping_add(i as u32) % 256) as u8).collect();
        let _ = extract_prefixes(&msg);
    }
}
