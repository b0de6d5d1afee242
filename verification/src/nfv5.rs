//! The NetFlow v5 wire format: layout model, verified decoder, and verified
//! encoder.
//!
//! A datagram is a 24-byte header followed by `count` fixed-size 48-byte
//! records, all fields in network byte order. Record boundaries are implied
//! purely by the fixed stride, so the header's `count` is bounded to the
//! legal NetFlow v5 range of 1 to 30 before any record is read, and a count
//! announcing more records than the buffer holds fails as a truncated packet
//! rather than reading past the end.
//!
//! Header layout (24 bytes): version u16 at 0, count u16 at 2, sysUptime u32
//! at 4, unixSecs u32 at 8, unixNsecs u32 at 12, flowSequence u32 at 16,
//! engineType u8 at 20, engineId u8 at 21, samplingInterval u16 at 22.
//!
//! Record layout (48 bytes, offsets within the record): srcAddr u32 at 0,
//! dstAddr u32 at 4, nextHop u32 at 8, inputIf u16 at 12, outputIf u16 at 14,
//! dPkts u32 at 16, dOctets u32 at 20, first u32 at 24, last u32 at 28,
//! srcPort u16 at 32, dstPort u16 at 34, one pad byte at 36, tcpFlags u8 at
//! 37, protocol u8 at 38, tos u8 at 39, srcAS u16 at 40, dstAS u16 at 42,
//! srcMask u8 at 44, dstMask u8 at 45, two pad bytes at 46.

use vstd::prelude::*;
use vstd::arithmetic::div_mod::lemma_fundamental_div_mod;
use vstd::arithmetic::div_mod::lemma_fundamental_div_mod_converse;
use vstd::arithmetic::div_mod::lemma_mod_bound;
use crate::bytes::be16;
use crate::bytes::be32;
use crate::bytes::u16_hi;
use crate::bytes::u16_lo;
use crate::bytes::u32_b0;
use crate::bytes::u32_b1;
use crate::bytes::u32_b2;
use crate::bytes::u32_b3;
use crate::bytes::lemma_be16_round_trip;
use crate::bytes::lemma_be32_round_trip;
use crate::bytes::read_be_u16;
use crate::bytes::read_be_u32;
use crate::bytes::read_u8;
use crate::bytes::push_be_u16;
use crate::bytes::push_be_u32;
use crate::nfmsg::DecodeError;
use crate::nfmsg::ExporterAddr;
use crate::nfmsg::NfMessage;
use crate::nfmsg::Nfv5Header;
use crate::nfmsg::Nfv5Record;

verus! {

/// Length of the packet header on the wire.
pub const HEADER_LEN: usize = 24;

/// Length of each flow record on the wire.
pub const RECORD_LEN: usize = 48;

/// Largest record count a NetFlow v5 header may legally announce.
pub const MAX_COUNT: u16 = 30;

/// The datagram itself: the valid prefix of a receive buffer.
pub open spec fn datagram_of(buf: Seq<u8>, size: int) -> Seq<u8> {
    buf.subrange(0, size)
}

/// The record count the header announces.
pub open spec fn packet_count(d: Seq<u8>) -> u16 {
    be16(d[2], d[3])
}

/// The datagram is long enough to hold the header.
pub open spec fn header_ok(d: Seq<u8>) -> bool {
    d.len() >= HEADER_LEN
}

/// The announced record count lies in the legal NetFlow v5 range.
pub open spec fn count_ok(d: Seq<u8>) -> bool {
    1 <= packet_count(d) && packet_count(d) <= MAX_COUNT
}

/// The datagram is long enough to hold every announced record.
pub open spec fn length_ok(d: Seq<u8>) -> bool {
    d.len() >= HEADER_LEN as int + RECORD_LEN as int * (packet_count(d) as int)
}

/// The datagram decodes successfully.
pub open spec fn decode_ok(d: Seq<u8>) -> bool {
    header_ok(d) && count_ok(d) && length_ok(d)
}

/// The header a well-formed datagram carries.
pub open spec fn spec_header(d: Seq<u8>) -> Nfv5Header {
    Nfv5Header {
        version: be16(d[0], d[1]),
        count: be16(d[2], d[3]),
        sysup_time: be32(d[4], d[5], d[6], d[7]),
        unix_secs: be32(d[8], d[9], d[10], d[11]),
        unix_nsecs: be32(d[12], d[13], d[14], d[15]),
        flow_sequence: be32(d[16], d[17], d[18], d[19]),
        engine_type: d[20],
        engine_id: d[21],
        sampling: be16(d[22], d[23]),
    }
}

/// The `j`-th flow record a well-formed datagram carries.
pub open spec fn spec_record(d: Seq<u8>, j: int) -> Nfv5Record {
    let base = HEADER_LEN as int + RECORD_LEN as int * j;
    Nfv5Record {
        src_addr: be32(d[base], d[base + 1], d[base + 2], d[base + 3]),
        dst_addr: be32(d[base + 4], d[base + 5], d[base + 6], d[base + 7]),
        nexthop_addr: be32(d[base + 8], d[base + 9], d[base + 10], d[base + 11]),
        in_if: be16(d[base + 12], d[base + 13]),
        out_if: be16(d[base + 14], d[base + 15]),
        d_pkts: be32(d[base + 16], d[base + 17], d[base + 18], d[base + 19]),
        d_octets: be32(d[base + 20], d[base + 21], d[base + 22], d[base + 23]),
        first_time: be32(d[base + 24], d[base + 25], d[base + 26], d[base + 27]),
        last_time: be32(d[base + 28], d[base + 29], d[base + 30], d[base + 31]),
        src_port: be16(d[base + 32], d[base + 33]),
        dst_port: be16(d[base + 34], d[base + 35]),
        tcp_flags: d[base + 37],
        prot: d[base + 38],
        tos: d[base + 39],
        src_as: be16(d[base + 40], d[base + 41]),
        dst_as: be16(d[base + 42], d[base + 43]),
        src_mask: d[base + 44],
        dst_mask: d[base + 45],
    }
}

/// Byte `k` of the header's wire image.
pub open spec fn header_byte(h: Nfv5Header, k: int) -> u8 {
    if k == 0 {
        u16_hi(h.version)
    } else if k == 1 {
        u16_lo(h.version)
    } else if k == 2 {
        u16_hi(h.count)
    } else if k == 3 {
        u16_lo(h.count)
    } else if k == 4 {
        u32_b0(h.sysup_time)
    } else if k == 5 {
        u32_b1(h.sysup_time)
    } else if k == 6 {
        u32_b2(h.sysup_time)
    } else if k == 7 {
        u32_b3(h.sysup_time)
    } else if k == 8 {
        u32_b0(h.unix_secs)
    } else if k == 9 {
        u32_b1(h.unix_secs)
    } else if k == 10 {
        u32_b2(h.unix_secs)
    } else if k == 11 {
        u32_b3(h.unix_secs)
    } else if k == 12 {
        u32_b0(h.unix_nsecs)
    } else if k == 13 {
        u32_b1(h.unix_nsecs)
    } else if k == 14 {
        u32_b2(h.unix_nsecs)
    } else if k == 15 {
        u32_b3(h.unix_nsecs)
    } else if k == 16 {
        u32_b0(h.flow_sequence)
    } else if k == 17 {
        u32_b1(h.flow_sequence)
    } else if k == 18 {
        u32_b2(h.flow_sequence)
    } else if k == 19 {
        u32_b3(h.flow_sequence)
    } else if k == 20 {
        h.engine_type
    } else if k == 21 {
        h.engine_id
    } else if k == 22 {
        u16_hi(h.sampling)
    } else if k == 23 {
        u16_lo(h.sampling)
    } else {
        0
    }
}

/// Byte `k` of a flow record's wire image; the bytes at 36, 46 and 47 are
/// padding and are written as zero.
pub open spec fn record_byte(r: Nfv5Record, k: int) -> u8 {
    if k == 0 {
        u32_b0(r.src_addr)
    } else if k == 1 {
        u32_b1(r.src_addr)
    } else if k == 2 {
        u32_b2(r.src_addr)
    } else if k == 3 {
        u32_b3(r.src_addr)
    } else if k == 4 {
        u32_b0(r.dst_addr)
    } else if k == 5 {
        u32_b1(r.dst_addr)
    } else if k == 6 {
        u32_b2(r.dst_addr)
    } else if k == 7 {
        u32_b3(r.dst_addr)
    } else if k == 8 {
        u32_b0(r.nexthop_addr)
    } else if k == 9 {
        u32_b1(r.nexthop_addr)
    } else if k == 10 {
        u32_b2(r.nexthop_addr)
    } else if k == 11 {
        u32_b3(r.nexthop_addr)
    } else if k == 12 {
        u16_hi(r.in_if)
    } else if k == 13 {
        u16_lo(r.in_if)
    } else if k == 14 {
        u16_hi(r.out_if)
    } else if k == 15 {
        u16_lo(r.out_if)
    } else if k == 16 {
        u32_b0(r.d_pkts)
    } else if k == 17 {
        u32_b1(r.d_pkts)
    } else if k == 18 {
        u32_b2(r.d_pkts)
    } else if k == 19 {
        u32_b3(r.d_pkts)
    } else if k == 20 {
        u32_b0(r.d_octets)
    } else if k == 21 {
        u32_b1(r.d_octets)
    } else if k == 22 {
        u32_b2(r.d_octets)
    } else if k == 23 {
        u32_b3(r.d_octets)
    } else if k == 24 {
        u32_b0(r.first_time)
    } else if k == 25 {
        u32_b1(r.first_time)
    } else if k == 26 {
        u32_b2(r.first_time)
    } else if k == 27 {
        u32_b3(r.first_time)
    } else if k == 28 {
        u32_b0(r.last_time)
    } else if k == 29 {
        u32_b1(r.last_time)
    } else if k == 30 {
        u32_b2(r.last_time)
    } else if k == 31 {
        u32_b3(r.last_time)
    } else if k == 32 {
        u16_hi(r.src_port)
    } else if k == 33 {
        u16_lo(r.src_port)
    } else if k == 34 {
        u16_hi(r.dst_port)
    } else if k == 35 {
        u16_lo(r.dst_port)
    } else if k == 37 {
        r.tcp_flags
    } else if k == 38 {
        r.prot
    } else if k == 39 {
        r.tos
    } else if k == 40 {
        u16_hi(r.src_as)
    } else if k == 41 {
        u16_lo(r.src_as)
    } else if k == 42 {
        u16_hi(r.dst_as)
    } else if k == 43 {
        u16_lo(r.dst_as)
    } else if k == 44 {
        r.src_mask
    } else if k == 45 {
        r.dst_mask
    } else {
        0
    }
}

/// The wire image of a header followed by a sequence of flow records.
pub open spec fn packet_bytes(h: Nfv5Header, rs: Seq<Nfv5Record>) -> Seq<u8> {
    Seq::new(
        (HEADER_LEN as int + RECORD_LEN as int * rs.len() as int) as nat,
        |i: int|
            if i < HEADER_LEN as int {
                header_byte(h, i)
            } else {
                record_byte(
                    rs[(i - HEADER_LEN as int) / (RECORD_LEN as int)],
                    (i - HEADER_LEN as int) % (RECORD_LEN as int),
                )
            },
    )
}

/// A datagram whose first 24 bytes are the wire image of `h` carries `h` as
/// its header.
proof fn lemma_header_extract(d: Seq<u8>, h: Nfv5Header)
    requires
        d.len() >= HEADER_LEN,
        forall|i: int| 0 <= i < HEADER_LEN ==> #[trigger] d[i] == header_byte(h, i),
    ensures
        spec_header(d) == h,
{
    lemma_be16_round_trip(h.version);
    lemma_be16_round_trip(h.count);
    lemma_be32_round_trip(h.sysup_time);
    lemma_be32_round_trip(h.unix_secs);
    lemma_be32_round_trip(h.unix_nsecs);
    lemma_be32_round_trip(h.flow_sequence);
    lemma_be16_round_trip(h.sampling);
}

/// A datagram whose `j`-th record slot holds the wire image of `r` carries
/// `r` as its `j`-th record.
proof fn lemma_record_extract(d: Seq<u8>, j: int, r: Nfv5Record)
    requires
        0 <= j,
        HEADER_LEN as int + RECORD_LEN as int * (j + 1) <= d.len(),
        forall|i: int|
            HEADER_LEN as int + RECORD_LEN as int * j <= i < HEADER_LEN as int + RECORD_LEN as int
                * (j + 1) ==> #[trigger] d[i] == record_byte(
                r,
                i - (HEADER_LEN as int + RECORD_LEN as int * j),
            ),
    ensures
        spec_record(d, j) == r,
{
    lemma_be32_round_trip(r.src_addr);
    lemma_be32_round_trip(r.dst_addr);
    lemma_be32_round_trip(r.nexthop_addr);
    lemma_be16_round_trip(r.in_if);
    lemma_be16_round_trip(r.out_if);
    lemma_be32_round_trip(r.d_pkts);
    lemma_be32_round_trip(r.d_octets);
    lemma_be32_round_trip(r.first_time);
    lemma_be32_round_trip(r.last_time);
    lemma_be16_round_trip(r.src_port);
    lemma_be16_round_trip(r.dst_port);
    lemma_be16_round_trip(r.src_as);
    lemma_be16_round_trip(r.dst_as);
}

/// Byte `HEADER_LEN + RECORD_LEN * j + k` of a wire image is byte `k` of the
/// `j`-th record's image.
proof fn lemma_packet_bytes_record(h: Nfv5Header, rs: Seq<Nfv5Record>, j: int, k: int)
    requires
        0 <= j < rs.len(),
        0 <= k < RECORD_LEN,
    ensures
        packet_bytes(h, rs)[HEADER_LEN as int + RECORD_LEN as int * j + k] == record_byte(
            rs[j],
            k,
        ),
{
    lemma_fundamental_div_mod_converse(RECORD_LEN as int * j + k, RECORD_LEN as int, j, k);
}

/// Law: the wire image of a legal header and its records decodes back to
/// exactly that header and those records. Together with the decoder's own
/// contract this gives byte-for-byte round-trip fidelity of every field.
pub proof fn lemma_wire_round_trip(h: Nfv5Header, rs: Seq<Nfv5Record>)
    requires
        1 <= h.count <= MAX_COUNT,
        rs.len() == h.count as int,
    ensures
        packet_bytes(h, rs).len() == HEADER_LEN as int + RECORD_LEN as int * rs.len() as int,
        decode_ok(packet_bytes(h, rs)),
        packet_count(packet_bytes(h, rs)) == h.count,
        spec_header(packet_bytes(h, rs)) == h,
        forall|j: int| 0 <= j < rs.len() ==> spec_record(packet_bytes(h, rs), j) == rs[j],
{
    let d = packet_bytes(h, rs);
    assert(forall|i: int| 0 <= i < HEADER_LEN ==> #[trigger] d[i] == header_byte(h, i));
    lemma_header_extract(d, h);
    assert(packet_count(d) == h.count);
    assert forall|j: int| 0 <= j < rs.len() implies spec_record(d, j) == rs[j] by {
        let base = HEADER_LEN as int + RECORD_LEN as int * j;
        assert forall|i: int| base <= i < base + RECORD_LEN as int implies #[trigger] d[i]
            == record_byte(rs[j], i - base) by {
            lemma_packet_bytes_record(h, rs, j, i - base);
        }
        lemma_record_extract(d, j, rs[j]);
    }
}

/// Decodes one datagram: the first `size` bytes of `buf`, received from
/// `addr` at wall-clock time `datetime`. On success it returns one envelope
/// per announced record, all sharing the same header, exporter address and
/// collection timestamp, in wire order. A datagram too short for the header
/// or for its announced records fails as truncated; an announced count
/// outside the legal range of 1 to 30 is rejected before any record is read.
/// A failed decode returns no records at all.
pub fn decode_packet(buf: &Vec<u8>, size: usize, addr: ExporterAddr, datetime: &String) -> (r:
    Result<Vec<NfMessage>, DecodeError>)
    requires
        size <= buf@.len(),
    ensures
        decode_ok(datagram_of(buf@, size as int)) <==> r is Ok,
        r matches Ok(msgs) ==> msgs@.len() == packet_count(datagram_of(buf@, size as int)) as int,
        r matches Ok(msgs) ==> forall|j: int|
            0 <= j < msgs@.len() ==> (#[trigger] msgs@[j]).nfv5_header == spec_header(
                datagram_of(buf@, size as int),
            ) && msgs@[j].nfv5_record == spec_record(datagram_of(buf@, size as int), j)
                && msgs@[j].exporter_addr == addr && msgs@[j].datetime@ == datetime@,
        r matches Err(e) ==> (e is Truncated <==> (!header_ok(datagram_of(buf@, size as int)) || (
        count_ok(datagram_of(buf@, size as int)) && !length_ok(datagram_of(buf@, size as int))))),
        r matches Err(e) ==> (e is InvalidCount <==> (header_ok(datagram_of(buf@, size as int))
            && !count_ok(datagram_of(buf@, size as int)))),
{
    let ghost d = datagram_of(buf@, size as int);
    if size < HEADER_LEN {
        return Err(DecodeError::Truncated);
    }
    let count: u16 = read_be_u16(buf, 2);
    assert(count == packet_count(d));
    if count < 1 || count > MAX_COUNT {
        return Err(DecodeError::InvalidCount);
    }
    let need: usize = HEADER_LEN + RECORD_LEN * (count as usize);
    if size < need {
        return Err(DecodeError::Truncated);
    }
    let header = Nfv5Header {
        version: read_be_u16(buf, 0),
        count,
        sysup_time: read_be_u32(buf, 4),
        unix_secs: read_be_u32(buf, 8),
        unix_nsecs: read_be_u32(buf, 12),
        flow_sequence: read_be_u32(buf, 16),
        engine_type: read_u8(buf, 20),
        engine_id: read_u8(buf, 21),
        sampling: read_be_u16(buf, 22),
    };
    assert(header == spec_header(d));
    let mut msgs: Vec<NfMessage> = Vec::new();
    let mut j: usize = 0;
    while j < count as usize
        invariant
            size <= buf@.len(),
            d == datagram_of(buf@, size as int),
            1 <= count <= MAX_COUNT,
            count == packet_count(d),
            header == spec_header(d),
            HEADER_LEN + RECORD_LEN * (count as usize) <= size,
            j <= count as usize,
            msgs@.len() == j as int,
            forall|k: int|
                0 <= k < j as int ==> (#[trigger] msgs@[k]).nfv5_header == spec_header(d)
                    && msgs@[k].nfv5_record == spec_record(d, k) && msgs@[k].exporter_addr == addr
                    && msgs@[k].datetime@ == datetime@,
        decreases count as usize - j,
    {
        let base: usize = HEADER_LEN + RECORD_LEN * j;
        let record = Nfv5Record {
            src_addr: read_be_u32(buf, base),
            dst_addr: read_be_u32(buf, base + 4),
            nexthop_addr: read_be_u32(buf, base + 8),
            in_if: read_be_u16(buf, base + 12),
            out_if: read_be_u16(buf, base + 14),
            d_pkts: read_be_u32(buf, base + 16),
            d_octets: read_be_u32(buf, base + 20),
            first_time: read_be_u32(buf, base + 24),
            last_time: read_be_u32(buf, base + 28),
            src_port: read_be_u16(buf, base + 32),
            dst_port: read_be_u16(buf, base + 34),
            tcp_flags: read_u8(buf, base + 37),
            prot: read_u8(buf, base + 38),
            tos: read_u8(buf, base + 39),
            src_as: read_be_u16(buf, base + 40),
            dst_as: read_be_u16(buf, base + 42),
            src_mask: read_u8(buf, base + 44),
            dst_mask: read_u8(buf, base + 45),
        };
        assert(record == spec_record(d, j as int));
        let msg = NfMessage {
            datetime: datetime.clone(),
            exporter_addr: addr,
            nfv5_header: header,
            nfv5_record: record,
        };
        msgs.push(msg);
        j = j + 1;
    }
    Ok(msgs)
}

/// Writes the 48-byte wire image of one flow record onto `out`.
fn push_record(out: &mut Vec<u8>, r: &Nfv5Record)
    ensures
        final(out)@.len() == old(out)@.len() + RECORD_LEN as int,
        forall|i: int| 0 <= i < old(out)@.len() ==> #[trigger] final(out)@[i] == old(out)@[i],
        forall|k: int|
            0 <= k < RECORD_LEN ==> #[trigger] final(out)@[old(out)@.len() + k] == record_byte(
                *r,
                k,
            ),
{
    push_be_u32(out, r.src_addr);
    push_be_u32(out, r.dst_addr);
    push_be_u32(out, r.nexthop_addr);
    push_be_u16(out, r.in_if);
    push_be_u16(out, r.out_if);
    push_be_u32(out, r.d_pkts);
    push_be_u32(out, r.d_octets);
    push_be_u32(out, r.first_time);
    push_be_u32(out, r.last_time);
    push_be_u16(out, r.src_port);
    push_be_u16(out, r.dst_port);
    out.push(0u8);
    out.push(r.tcp_flags);
    out.push(r.prot);
    out.push(r.tos);
    push_be_u16(out, r.src_as);
    push_be_u16(out, r.dst_as);
    out.push(r.src_mask);
    out.push(r.dst_mask);
    out.push(0u8);
    out.push(0u8);
}

/// Encodes a header and a sequence of flow records into the NetFlow v5 wire
/// layout. The header is written as given; for a decodable image the
/// header's `count` must equal the number of records (see
/// `lemma_wire_round_trip`).
pub fn encode_packet(h: &Nfv5Header, rs: &Vec<Nfv5Record>) -> (r: Vec<u8>)
    ensures
        r@ == packet_bytes(*h, rs@),
{
    let mut out: Vec<u8> = Vec::new();
    push_be_u16(&mut out, h.version);
    push_be_u16(&mut out, h.count);
    push_be_u32(&mut out, h.sysup_time);
    push_be_u32(&mut out, h.unix_secs);
    push_be_u32(&mut out, h.unix_nsecs);
    push_be_u32(&mut out, h.flow_sequence);
    out.push(h.engine_type);
    out.push(h.engine_id);
    push_be_u16(&mut out, h.sampling);
    assert(out@.len() == HEADER_LEN as int);
    assert(forall|i: int| 0 <= i < HEADER_LEN ==> #[trigger] out@[i] == header_byte(*h, i));
    let n: usize = rs.len();
    let mut j: usize = 0;
    while j < n
        invariant
            n == rs@.len(),
            j <= n,
            out@.len() == HEADER_LEN as int + RECORD_LEN as int * j as int,
            forall|i: int| 0 <= i < HEADER_LEN ==> #[trigger] out@[i] == header_byte(*h, i),
            forall|jj: int, k: int|
                0 <= jj < j as int && 0 <= k < RECORD_LEN ==> #[trigger] out@[HEADER_LEN as int
                    + RECORD_LEN as int * jj + k] == record_byte(rs@[jj], k),
        decreases n - j,
    {
        let rec = rs[j];
        push_record(&mut out, &rec);
        j = j + 1;
    }
    proof {
        let target = packet_bytes(*h, rs@);
        assert(out@.len() == target.len());
        assert forall|i: int| 0 <= i < out@.len() implies out@[i] == target[i] by {
            if i >= HEADER_LEN as int {
                let x = i - HEADER_LEN as int;
                lemma_fundamental_div_mod(x, RECORD_LEN as int);
                lemma_mod_bound(x, RECORD_LEN as int);
                let jj = x / (RECORD_LEN as int);
                let k = x % (RECORD_LEN as int);
                assert(x == RECORD_LEN as int * jj + k);
                assert(0 <= k < RECORD_LEN as int);
                assert(0 <= jj < rs@.len());
                assert(out@[HEADER_LEN as int + RECORD_LEN as int * jj + k] == record_byte(
                    rs@[jj],
                    k,
                ));
            }
        }
        assert(out@ =~= target);
    }
    out
}

} // verus!
