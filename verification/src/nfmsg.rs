//! Data model: a decoded NetFlow v5 packet header, a decoded flow record,
//! and the envelope that carries one record together with its collection
//! metadata.

use vstd::prelude::*;

verus! {

/// The network address a datagram arrived from: an IPv4 address held as its
/// 32-bit big-endian integer value, and a UDP port.
#[derive(Clone, Copy, Debug, PartialEq, Eq, Structural)]
pub struct ExporterAddr {
    pub ip: u32,
    pub port: u16,
}

/// The NetFlow v5 packet header, shared by all records of one datagram.
#[derive(Clone, Copy, Debug, PartialEq, Eq, Structural)]
pub struct Nfv5Header {
    /// NetFlow export format version number.
    pub version: u16,
    /// Number of flows exported in this packet (legal range 1-30).
    pub count: u16,
    /// Milliseconds since the export device started.
    pub sysup_time: u32,
    /// Seconds since the Unix epoch at export time.
    pub unix_secs: u32,
    /// Residual nanoseconds since the Unix epoch at export time.
    pub unix_nsecs: u32,
    /// Sequence counter of total flows seen by the export device.
    pub flow_sequence: u32,
    /// Type of flow-switching engine.
    pub engine_type: u8,
    /// Slot number of the flow-switching engine.
    pub engine_id: u8,
    /// First two bits hold the sampling mode, the remaining fourteen the
    /// sampling interval.
    pub sampling: u16,
}

/// One decoded NetFlow v5 flow record. IPv4 addresses are held as their
/// 32-bit big-endian integer values.
#[derive(Clone, Copy, Debug, PartialEq, Eq, Structural)]
pub struct Nfv5Record {
    /// Source IP address.
    pub src_addr: u32,
    /// Destination IP address.
    pub dst_addr: u32,
    /// IP address of the next hop router.
    pub nexthop_addr: u32,
    /// SNMP index of the input interface.
    pub in_if: u16,
    /// SNMP index of the output interface.
    pub out_if: u16,
    /// Packets in the flow.
    pub d_pkts: u32,
    /// Total number of layer 3 bytes in the packets of the flow.
    pub d_octets: u32,
    /// Device uptime at the start of the flow.
    pub first_time: u32,
    /// Device uptime at the end of the flow.
    pub last_time: u32,
    /// TCP/UDP source port number or equivalent.
    pub src_port: u16,
    /// TCP/UDP destination port number or equivalent.
    pub dst_port: u16,
    /// Cumulative OR of TCP flags.
    pub tcp_flags: u8,
    /// IP protocol number (for example, TCP = 6, UDP = 17).
    pub prot: u8,
    /// IP type of service.
    pub tos: u8,
    /// Autonomous system number of the source, either origin or peer.
    pub src_as: u16,
    /// Autonomous system number of the destination, either origin or peer.
    pub dst_as: u16,
    /// Source address prefix mask bits.
    pub src_mask: u8,
    /// Destination address prefix mask bits.
    pub dst_mask: u8,
}

/// The envelope handed downstream: one flow record, the packet header it was
/// exported under, and the collection metadata of the datagram it arrived in.
/// A datagram of `n` records yields `n` envelopes that share the same header,
/// the same exporter address, and the same collection timestamp.
#[derive(Clone, Debug)]
pub struct NfMessage {
    /// Wall-clock time the datagram was received by the collector, sampled
    /// once per datagram.
    pub datetime: String,
    /// Address the datagram arrived from.
    pub exporter_addr: ExporterAddr,
    /// The packet header shared by every record of the datagram.
    pub nfv5_header: Nfv5Header,
    /// Exactly one decoded flow record.
    pub nfv5_record: Nfv5Record,
}

/// Why a datagram could not be decoded. A failed decode discards the whole
/// datagram; no partial record list is returned.
#[derive(Clone, Copy, Debug, PartialEq, Eq, Structural)]
pub enum DecodeError {
    /// The buffer ends before the header, or before the last record the
    /// header announces: insufficient data.
    Truncated,
    /// The header's record count lies outside the legal NetFlow v5 range
    /// of 1 to 30.
    InvalidCount,
}

} // verus!
