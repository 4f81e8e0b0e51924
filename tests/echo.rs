use icmp_echo::checksum::checksum;
use icmp_echo::echo::{read_be16, Connection, EchoError};
use icmp_echo::header::InboundHeader;
use icmp_echo::ingress::answer_frame;

fn ipv4_header(protocol: u8, ttl: u8, source: [u8; 4], destination: [u8; 4], icmp_len: usize) -> Vec<u8> {
    let total = (20 + icmp_len) as u16;
    let mut h = vec![0x45, 0x00];
    h.extend_from_slice(&total.to_be_bytes());
    h.extend_from_slice(&[0x1c, 0x46, 0x40, 0x00, ttl, protocol, 0x00, 0x00]);
    h.extend_from_slice(&source);
    h.extend_from_slice(&destination);
    let c = checksum(&h);
    h[10..12].copy_from_slice(&c.to_be_bytes());
    h
}

fn echo_request(id: u16, seq: u16, payload: &[u8]) -> Vec<u8> {
    let mut m = vec![0x08, 0x00, 0x00, 0x00];
    m.extend_from_slice(&id.to_be_bytes());
    m.extend_from_slice(&seq.to_be_bytes());
    m.extend_from_slice(payload);
    let c = checksum(&m);
    m[2..4].copy_from_slice(&c.to_be_bytes());
    m
}

fn frame(protocol: u8, icmp: &[u8]) -> Vec<u8> {
    let mut f = ipv4_header(protocol, 64, [10, 0, 0, 2], [10, 0, 0, 1], icmp.len());
    f.extend_from_slice(icmp);
    f
}

#[test]
fn echo_request_scenario_gets_exact_reply() {
    let payload: Vec<u8> = (0x00..=0x37u8).collect();
    let request = echo_request(0x1234, 0x0001, &payload);
    let inbound = frame(1, &request);
    let reply = answer_frame(&inbound).unwrap().unwrap();
    assert_eq!(reply.len(), 84);
    assert_eq!(reply[0], 0x45);
    assert_eq!(u16::from_be_bytes([reply[2], reply[3]]), 84);
    assert_eq!(reply[6..8], [0x40, 0x00]);
    assert_eq!(reply[8], 64);
    assert_eq!(reply[9], 1);
    assert_eq!(reply[12..16], [10, 0, 0, 1]);
    assert_eq!(reply[16..20], [10, 0, 0, 2]);
    assert_eq!(checksum(&reply[0..20]), 0);
    assert_eq!(reply[20], 0);
    assert_eq!(reply[21], 0);
    assert_eq!(reply[24..26], [0x12, 0x34]);
    assert_eq!(reply[26..28], [0x00, 0x01]);
    assert_eq!(reply[28..84], payload[..]);
    assert_eq!(checksum(&reply[20..84]), 0);
}

#[test]
fn reply_keeps_identifier_and_sequence() {
    let request = echo_request(0xfedc, 0xba98, &[7u8; 56]);
    let reply = answer_frame(&frame(1, &request)).unwrap().unwrap();
    assert_eq!(reply[24..28], [0xfe, 0xdc, 0xba, 0x98]);
    assert_eq!((reply[20], reply[21]), (0, 0));
    assert_eq!(checksum(&reply[20..]), 0);
}

#[test]
fn reply_swaps_addresses() {
    let request = echo_request(1, 2, &[0u8; 56]);
    let mut inbound = ipv4_header(1, 9, [192, 168, 7, 1], [172, 16, 0, 9], request.len());
    inbound.extend_from_slice(&request);
    let reply = answer_frame(&inbound).unwrap().unwrap();
    assert_eq!(reply[12..16], [172, 16, 0, 9]);
    assert_eq!(reply[16..20], [192, 168, 7, 1]);
    assert_eq!(reply[8], 9);
}

#[test]
fn tcp_packet_gets_no_reply() {
    let request = echo_request(1, 1, &[0u8; 56]);
    assert_eq!(answer_frame(&frame(6, &request)), Ok(None));
}

#[test]
fn truncated_frame_gets_no_reply() {
    let inbound = frame(1, &echo_request(1, 1, &[0u8; 56]));
    assert_eq!(answer_frame(&inbound[..19]), Ok(None));
    assert_eq!(answer_frame(&[]), Ok(None));
}

#[test]
fn non_ipv4_frame_gets_no_reply() {
    let mut inbound = frame(1, &echo_request(1, 1, &[0u8; 56]));
    inbound[0] = 0x65;
    assert_eq!(answer_frame(&inbound), Ok(None));
}

#[test]
fn header_longer_than_frame_gets_no_reply() {
    let mut inbound = frame(1, &[]);
    inbound[0] = 0x46;
    assert_eq!(answer_frame(&inbound), Ok(None));
}

#[test]
fn short_icmp_header_is_an_error() {
    let inbound = frame(1, &[0x08, 0x00, 0x00, 0x00, 0x12, 0x34, 0x00]);
    assert_eq!(answer_frame(&inbound), Err(EchoError::TruncatedIcmp));
}

#[test]
fn other_icmp_types_get_no_reply() {
    let mut request = echo_request(1, 1, &[0u8; 56]);
    request[0] = 3;
    assert_eq!(answer_frame(&frame(1, &request)), Ok(None));
}

#[test]
fn header_options_are_skipped() {
    let request = echo_request(0x0a0b, 0x0c0d, &[0x5a; 56]);
    let mut inbound = frame(1, &[]);
    inbound[0] = 0x46;
    inbound.extend_from_slice(&[0x01, 0x01, 0x01, 0x00]);
    inbound.extend_from_slice(&request);
    let reply = answer_frame(&inbound).unwrap().unwrap();
    assert_eq!(reply[24..28], [0x0a, 0x0b, 0x0c, 0x0d]);
    assert_eq!(reply[28..84], [0x5a; 56]);
}

#[test]
fn short_payload_is_padded_with_zero() {
    let request = echo_request(5, 6, &[0xaa, 0xbb, 0xcc]);
    let reply = answer_frame(&frame(1, &request)).unwrap().unwrap();
    assert_eq!(reply.len(), 84);
    assert_eq!(reply[28..31], [0xaa, 0xbb, 0xcc]);
    assert!(reply[31..84].iter().all(|&b| b == 0));
    assert_eq!(checksum(&reply[20..84]), 0);
}

#[test]
fn long_payload_is_cut_to_fifty_six_bytes() {
    let payload: Vec<u8> = (0..100u8).collect();
    let request = echo_request(5, 6, &payload);
    let reply = answer_frame(&frame(1, &request)).unwrap().unwrap();
    assert_eq!(reply.len(), 84);
    assert_eq!(reply[28..84], payload[..56]);
    assert_eq!(u16::from_be_bytes([reply[2], reply[3]]), 84);
}

#[test]
fn read_be16_reads_or_fails() {
    let data = [0x08, 0x00, 0x12, 0x34, 0x56];
    assert_eq!(read_be16(&data, 2), Ok(0x1234));
    assert_eq!(read_be16(&data, 3), Ok(0x3456));
    assert_eq!(read_be16(&data, 4), Err(EchoError::TruncatedIcmp));
    assert_eq!(read_be16(&data, 9), Err(EchoError::TruncatedIcmp));
}

fn icmp_header_fields() -> InboundHeader {
    InboundHeader {
        source: [10, 0, 0, 2],
        destination: [10, 0, 0, 1],
        ttl: 33,
        protocol: 1,
        header_len: 20,
    }
}

#[test]
fn start_takes_fields_of_echo_request() {
    let request = echo_request(0x1234, 0x0001, &[1u8; 56]);
    let c = Connection::start(&icmp_header_fields(), &request).unwrap().unwrap();
    assert_eq!(c.ttl, 33);
    assert_eq!(c.source, [10, 0, 0, 1]);
    assert_eq!(c.destination, [10, 0, 0, 2]);
    assert_eq!(c.icmp_id, 0x1234);
    assert_eq!(c.seq_no, 0x0001);
    assert_eq!(c.data, &request[..]);
}

#[test]
fn start_ignores_other_protocols() {
    let mut h = icmp_header_fields();
    h.protocol = 17;
    let request = echo_request(1, 1, &[]);
    assert!(matches!(Connection::start(&h, &request), Ok(None)));
}

#[test]
fn start_rejects_short_icmp_message() {
    let data = [0x08u8, 0x00, 0x00, 0x00, 0x12];
    assert!(matches!(
        Connection::start(&icmp_header_fields(), &data),
        Err(EchoError::TruncatedIcmp)
    ));
}

#[test]
fn respond_builds_both_checksums() {
    let payload: Vec<u8> = (0..56u8).collect();
    let request = echo_request(0x4321, 0x0002, &payload);
    let c = Connection::start(&icmp_header_fields(), &request).unwrap().unwrap();
    let reply = c.respond();
    assert_eq!(reply.len(), 84);
    assert_eq!(reply[8], 33);
    assert_eq!(checksum(&reply[..20]), 0);
    assert_eq!(checksum(&reply[20..]), 0);
    assert_ne!((reply[10], reply[11]), (0, 0));
    assert_ne!((reply[22], reply[23]), (0, 0));
}
