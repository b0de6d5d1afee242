use nf_collector::handlers::Handler;
use nf_collector::handlers::Nfv5Handler;
use nf_collector::nfmsg::DecodeError;
use nf_collector::nfmsg::ExporterAddr;
use nf_collector::nfmsg::Nfv5Header;
use nf_collector::nfmsg::Nfv5Record;
use nf_collector::nfv5::decode_packet;
use nf_collector::nfv5::encode_packet;

fn addr() -> ExporterAddr {
    ExporterAddr { ip: u32::from_be_bytes([192, 0, 2, 1]), port: 2055 }
}

fn fixed_time() -> String {
    "2021-03-04 05:06:07 UTC".to_string()
}

/// Builds a 24-byte header image by hand, independently of the library's
/// encoder.
fn raw_header(version: u16, count: u16) -> Vec<u8> {
    let mut b = Vec::new();
    b.extend_from_slice(&version.to_be_bytes());
    b.extend_from_slice(&count.to_be_bytes());
    b.extend_from_slice(&0u32.to_be_bytes()); // sysup_time
    b.extend_from_slice(&0u32.to_be_bytes()); // unix_secs
    b.extend_from_slice(&0u32.to_be_bytes()); // unix_nsecs
    b.extend_from_slice(&1u32.to_be_bytes()); // flow_sequence
    b.push(0); // engine_type
    b.push(0); // engine_id
    b.extend_from_slice(&0u16.to_be_bytes()); // sampling
    b
}

#[test]
fn empty_datagram_is_truncated() {
    let buf: Vec<u8> = Vec::new();
    let r = decode_packet(&buf, 0, addr(), &fixed_time());
    assert_eq!(r.unwrap_err(), DecodeError::Truncated);
}

#[test]
fn short_header_is_truncated() {
    let buf = vec![0u8; 19];
    let r = decode_packet(&buf, 19, addr(), &fixed_time());
    assert_eq!(r.unwrap_err(), DecodeError::Truncated);
    let buf = vec![0u8; 23];
    let r = decode_packet(&buf, 23, addr(), &fixed_time());
    assert_eq!(r.unwrap_err(), DecodeError::Truncated);
}

#[test]
fn zero_count_is_invalid() {
    let buf = raw_header(5, 0);
    let r = decode_packet(&buf, 24, addr(), &fixed_time());
    assert_eq!(r.unwrap_err(), DecodeError::InvalidCount);
}

#[test]
fn oversized_count_is_invalid() {
    let mut buf = raw_header(5, 31);
    buf.extend_from_slice(&[0u8; 48 * 31]);
    let size = buf.len();
    let r = decode_packet(&buf, size, addr(), &fixed_time());
    assert_eq!(r.unwrap_err(), DecodeError::InvalidCount);
}

#[test]
fn missing_record_bytes_is_truncated() {
    // The header announces two records but only one record's bytes follow:
    // no partial record list comes back.
    let mut buf = raw_header(5, 2);
    buf.extend_from_slice(&[0u8; 48]);
    let size = buf.len();
    let r = decode_packet(&buf, size, addr(), &fixed_time());
    assert_eq!(r.unwrap_err(), DecodeError::Truncated);
}

#[test]
fn one_zero_record_decodes() {
    // Header bytes 00 05 00 01, zero uptime and export clock, flow sequence
    // one, zero engine and sampling fields, followed by one all-zero
    // 48-byte record.
    let mut buf = raw_header(5, 1);
    buf.extend_from_slice(&[0u8; 48]);
    assert_eq!(buf.len(), 24 + 48);
    let size = buf.len();
    let r = decode_packet(&buf, size, addr(), &fixed_time()).unwrap();
    assert_eq!(r.len(), 1);
    let m = &r[0];
    assert_eq!(m.nfv5_header.version, 5);
    assert_eq!(m.nfv5_header.count, 1);
    assert_eq!(m.nfv5_header.flow_sequence, 1);
    assert_eq!(m.nfv5_record.prot, 0);
    assert_eq!(m.nfv5_record.src_addr, 0); // 0.0.0.0
    assert_eq!(m.nfv5_record.dst_addr, 0);
    assert_eq!(m.nfv5_record.nexthop_addr, 0);
    assert_eq!(m.nfv5_record.d_pkts, 0);
    assert_eq!(m.nfv5_record.d_octets, 0);
    assert_eq!(m.exporter_addr, addr());
    assert_eq!(m.datetime, fixed_time());
}

fn sample_record(seed: u32) -> Vec<u8> {
    let mut b = Vec::new();
    b.extend_from_slice(&(0x0a000001u32 + seed).to_be_bytes()); // src_addr
    b.extend_from_slice(&(0x0a000002u32 + seed).to_be_bytes()); // dst_addr
    b.extend_from_slice(&(0x0a0000feu32).to_be_bytes()); // nexthop
    b.extend_from_slice(&(2u16).to_be_bytes()); // in_if
    b.extend_from_slice(&(3u16).to_be_bytes()); // out_if
    b.extend_from_slice(&(100u32 + seed).to_be_bytes()); // d_pkts
    b.extend_from_slice(&(9000u32 + seed).to_be_bytes()); // d_octets
    b.extend_from_slice(&(1000u32).to_be_bytes()); // first_time
    b.extend_from_slice(&(2000u32).to_be_bytes()); // last_time
    b.extend_from_slice(&(4000u16).to_be_bytes()); // src_port
    b.extend_from_slice(&(443u16).to_be_bytes()); // dst_port
    b.push(0); // pad
    b.push(0x1b); // tcp_flags
    b.push(6); // prot
    b.push(0); // tos
    b.extend_from_slice(&(64500u16).to_be_bytes()); // src_as
    b.extend_from_slice(&(64501u16).to_be_bytes()); // dst_as
    b.push(24); // src_mask
    b.push(16); // dst_mask
    b.extend_from_slice(&[0u8; 2]); // pad
    assert_eq!(b.len(), 48);
    b
}

#[test]
fn exact_size_datagram_yields_count_envelopes() {
    let c = 3u16;
    let mut buf = raw_header(5, c);
    for s in 0..c as u32 {
        buf.extend_from_slice(&sample_record(s));
    }
    assert_eq!(buf.len(), 24 + 48 * c as usize);
    let size = buf.len();
    let msgs = decode_packet(&buf, size, addr(), &fixed_time()).unwrap();
    assert_eq!(msgs.len(), c as usize);
    for m in &msgs {
        assert_eq!(m.nfv5_header, msgs[0].nfv5_header);
        assert_eq!(m.datetime, msgs[0].datetime);
        assert_eq!(m.exporter_addr, addr());
    }
    assert_eq!(msgs[0].nfv5_record.src_addr, 0x0a000001);
    assert_eq!(msgs[1].nfv5_record.src_addr, 0x0a000002);
    assert_eq!(msgs[2].nfv5_record.src_addr, 0x0a000003);
    assert_eq!(msgs[2].nfv5_record.d_pkts, 102);
}

#[test]
fn trailing_bytes_are_ignored() {
    let mut buf = raw_header(5, 1);
    buf.extend_from_slice(&sample_record(0));
    buf.extend_from_slice(&[0xffu8; 5]);
    let size = buf.len();
    let msgs = decode_packet(&buf, size, addr(), &fixed_time()).unwrap();
    assert_eq!(msgs.len(), 1);
    assert_eq!(msgs[0].nfv5_record.dst_port, 443);
}

#[test]
fn only_the_valid_prefix_is_read() {
    // Bytes past `size` never reach the decoder.
    let mut buf = raw_header(5, 1);
    buf.extend_from_slice(&sample_record(0));
    let size = buf.len();
    buf.extend_from_slice(&[0xffu8; 64]);
    let msgs = decode_packet(&buf, size, addr(), &fixed_time()).unwrap();
    assert_eq!(msgs.len(), 1);
    assert_eq!(msgs[0].nfv5_record.src_as, 64500);
}

#[test]
fn encode_decode_round_trip() {
    let h = Nfv5Header {
        version: 5,
        count: 2,
        sysup_time: 123456,
        unix_secs: 1614822367,
        unix_nsecs: 999999999,
        flow_sequence: 42,
        engine_type: 1,
        engine_id: 7,
        sampling: 0x4001,
    };
    let r0 = Nfv5Record {
        src_addr: 0xc0a80001,
        dst_addr: 0xc0a80002,
        nexthop_addr: 0xc0a800fe,
        in_if: 1,
        out_if: 2,
        d_pkts: 10,
        d_octets: 840,
        first_time: 100,
        last_time: 200,
        src_port: 12345,
        dst_port: 80,
        tcp_flags: 0x12,
        prot: 6,
        tos: 0xb8,
        src_as: 65000,
        dst_as: 65001,
        src_mask: 24,
        dst_mask: 25,
    };
    let r1 = Nfv5Record {
        src_addr: 0x08080808,
        dst_addr: 0x08080404,
        nexthop_addr: 0,
        in_if: 65535,
        out_if: 0,
        d_pkts: 0xffffffff,
        d_octets: 0xfffffffe,
        first_time: 0,
        last_time: 0xffffffff,
        src_port: 53,
        dst_port: 53,
        tcp_flags: 0,
        prot: 17,
        tos: 0,
        src_as: 0,
        dst_as: 65535,
        src_mask: 0,
        dst_mask: 32,
    };
    let wire = encode_packet(&h, &vec![r0, r1]);
    assert_eq!(wire.len(), 24 + 48 * 2);
    // Spot-check the big-endian layout of the header image.
    assert_eq!(&wire[0..4], &[0x00u8, 0x05, 0x00, 0x02][..]);
    assert_eq!(&wire[4..8], &123456u32.to_be_bytes()[..]);
    assert_eq!(wire[20], 1);
    assert_eq!(wire[21], 7);
    assert_eq!(&wire[22..24], &0x4001u16.to_be_bytes()[..]);
    // And of the first record's image.
    assert_eq!(&wire[24..28], &0xc0a80001u32.to_be_bytes()[..]);
    assert_eq!(&wire[56..58], &12345u16.to_be_bytes()[..]);
    assert_eq!(wire[61], 0x12);
    assert_eq!(wire[62], 6);
    assert_eq!(&wire[64..66], &65000u16.to_be_bytes()[..]);
    let size = wire.len();
    let msgs = decode_packet(&wire, size, addr(), &fixed_time()).unwrap();
    assert_eq!(msgs.len(), 2);
    assert_eq!(msgs[0].nfv5_header, h);
    assert_eq!(msgs[1].nfv5_header, h);
    assert_eq!(msgs[0].nfv5_record, r0);
    assert_eq!(msgs[1].nfv5_record, r1);
}

#[test]
fn decoding_twice_is_identical() {
    let mut buf = raw_header(5, 2);
    buf.extend_from_slice(&sample_record(3));
    buf.extend_from_slice(&sample_record(4));
    let size = buf.len();
    let t = fixed_time();
    let a = decode_packet(&buf, size, addr(), &t).unwrap();
    let b = decode_packet(&buf, size, addr(), &t).unwrap();
    assert_eq!(a.len(), b.len());
    for (x, y) in a.iter().zip(b.iter()) {
        assert_eq!(x.nfv5_header, y.nfv5_header);
        assert_eq!(x.nfv5_record, y.nfv5_record);
        assert_eq!(x.exporter_addr, y.exporter_addr);
        assert_eq!(x.datetime, y.datetime);
    }
}

#[test]
fn decoded_records_survive_buffer_reuse() {
    // Decode a copy of the receive buffer, then overwrite the buffer as the
    // next receive would: the decoded envelopes keep their contents.
    let mut receive_buf = raw_header(5, 1);
    receive_buf.extend_from_slice(&sample_record(9));
    let copy = receive_buf.clone();
    let size = copy.len();
    let msgs = decode_packet(&copy, size, addr(), &fixed_time()).unwrap();
    for b in receive_buf.iter_mut() {
        *b = 0xff;
    }
    assert_eq!(msgs[0].nfv5_record.src_addr, 0x0a000001 + 9);
    assert_eq!(msgs[0].nfv5_record.d_octets, 9009);
    assert_eq!(msgs[0].nfv5_header.version, 5);
}

#[test]
fn handler_name_is_stable() {
    let h = Nfv5Handler::new();
    assert_eq!(h.name(), "Nfv5Handler");
    let reg = Handler::V5(h);
    assert_eq!(reg.name(), "Nfv5Handler");
}

#[test]
fn handler_samples_one_timestamp_per_datagram() {
    // Runs the real clock: every envelope of one datagram carries the same
    // collection timestamp, and the timestamp is non-empty.
    let mut buf = raw_header(5, 2);
    buf.extend_from_slice(&sample_record(0));
    buf.extend_from_slice(&sample_record(1));
    let size = buf.len();
    let h = Nfv5Handler::new();
    let msgs = h.handle(&buf, size, addr()).unwrap();
    assert_eq!(msgs.len(), 2);
    assert!(!msgs[0].datetime.is_empty());
    assert_eq!(msgs[0].datetime, msgs[1].datetime);
    assert_eq!(msgs[0].nfv5_record.src_addr, 0x0a000001);
    assert_eq!(msgs[1].nfv5_record.src_addr, 0x0a000002);
}

#[test]
fn handler_enum_dispatches_to_v5() {
    let mut buf = raw_header(5, 1);
    buf.extend_from_slice(&sample_record(0));
    let size = buf.len();
    let reg = Handler::V5(Nfv5Handler::new());
    let msgs = reg.handle(&buf, size, addr()).unwrap();
    assert_eq!(msgs.len(), 1);
    assert_eq!(msgs[0].nfv5_record.prot, 6);
    let r = reg.handle(&vec![0u8; 10], 10, addr());
    assert_eq!(r.unwrap_err(), DecodeError::Truncated);
}
