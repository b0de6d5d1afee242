//! Handlers: one per supported wire format, uniting "which format" with "how
//! to decode it". A handler is stateless and cheaply copyable, so the
//! collector loop can hand a copy to each concurrently scheduled decode task
//! without shared mutable state.

use vstd::prelude::*;
use crate::nfmsg::DecodeError;
use crate::nfmsg::ExporterAddr;
use crate::nfmsg::NfMessage;
use crate::nfv5::count_ok;
use crate::nfv5::datagram_of;
use crate::nfv5::decode_ok;
use crate::nfv5::decode_packet;
use crate::nfv5::header_ok;
use crate::nfv5::length_ok;
use crate::nfv5::packet_count;
use crate::nfv5::spec_header;
use crate::nfv5::spec_record;

verus! {

/// Relies on chrono::Utc::now for the wall-clock time the datagram was
/// received, rendered with chrono's own formatting. Nothing is assumed of
/// the value: it depends on the clock.
#[verifier::external_body]
fn now_utc_string() -> (r: String) {
    chrono::Utc::now().to_string()
}

/// The NetFlow v5 handler. It holds no state: every decode is a pure
/// function of the datagram, so concurrent invocations cannot interfere.
#[derive(Clone, Copy, Debug, PartialEq, Eq, Structural)]
pub struct Nfv5Handler {}

impl Nfv5Handler {
    /// Creates the NetFlow v5 handler.
    pub fn new() -> (r: Nfv5Handler) {
        Nfv5Handler {  }
    }

    /// The handler's display name.
    pub fn name(&self) -> (r: String)
        ensures
            r@ == "Nfv5Handler"@,
    {
        "Nfv5Handler".to_owned()
    }

    /// Decodes the datagram held in the first `size` bytes of `buf`,
    /// received from `addr`, sampling the collection timestamp once at the
    /// start so that every envelope of the datagram carries the same one.
    /// Success, failure and every decoded field are exactly those of
    /// `decode_packet`; only the timestamp depends on the clock.
    pub fn handle(&self, buf: &Vec<u8>, size: usize, addr: ExporterAddr) -> (r: Result<
        Vec<NfMessage>,
        DecodeError,
    >)
        requires
            size <= buf@.len(),
        ensures
            decode_ok(datagram_of(buf@, size as int)) <==> r is Ok,
            r matches Ok(msgs) ==> msgs@.len() == packet_count(datagram_of(buf@, size as int))
                as int,
            r matches Ok(msgs) ==> forall|j: int|
                0 <= j < msgs@.len() ==> (#[trigger] msgs@[j]).nfv5_header == spec_header(
                    datagram_of(buf@, size as int),
                ) && msgs@[j].nfv5_record == spec_record(datagram_of(buf@, size as int), j)
                    && msgs@[j].exporter_addr == addr,
            r matches Ok(msgs) ==> forall|i: int, j: int|
                0 <= i < msgs@.len() && 0 <= j < msgs@.len() ==> (#[trigger] msgs@[i]).datetime@
                    == (#[trigger] msgs@[j]).datetime@,
            r matches Err(e) ==> (e is Truncated <==> (!header_ok(datagram_of(buf@, size as int))
                || (count_ok(datagram_of(buf@, size as int)) && !length_ok(
                datagram_of(buf@, size as int),
            )))),
            r matches Err(e) ==> (e is InvalidCount <==> (header_ok(
                datagram_of(buf@, size as int),
            ) && !count_ok(datagram_of(buf@, size as int)))),
    {
        let datetime = now_utc_string();
        decode_packet(buf, size, addr, &datetime)
    }
}

/// The registered wire formats, one variant per format. Dispatch through
/// `handle` is uniform over the variants; the collector loop invokes every
/// registered handler on every datagram rather than selecting one by the
/// packet's declared version field, preserving the run-all-handlers
/// behaviour (a documented choice that matters only once more than one
/// handler is registered).
#[derive(Clone, Copy, Debug)]
pub enum Handler {
    V5(Nfv5Handler),
}

impl Handler {
    /// Decodes the datagram with the format this handler stands for. The
    /// NetFlow v5 variant promises exactly what `Nfv5Handler::handle` does.
    pub fn handle(&self, buf: &Vec<u8>, size: usize, addr: ExporterAddr) -> (r: Result<
        Vec<NfMessage>,
        DecodeError,
    >)
        requires
            size <= buf@.len(),
        ensures
            decode_ok(datagram_of(buf@, size as int)) <==> r is Ok,
            r matches Ok(msgs) ==> msgs@.len() == packet_count(datagram_of(buf@, size as int))
                as int,
            r matches Ok(msgs) ==> forall|j: int|
                0 <= j < msgs@.len() ==> (#[trigger] msgs@[j]).nfv5_header == spec_header(
                    datagram_of(buf@, size as int),
                ) && msgs@[j].nfv5_record == spec_record(datagram_of(buf@, size as int), j)
                    && msgs@[j].exporter_addr == addr,
            r matches Ok(msgs) ==> forall|i: int, j: int|
                0 <= i < msgs@.len() && 0 <= j < msgs@.len() ==> (#[trigger] msgs@[i]).datetime@
                    == (#[trigger] msgs@[j]).datetime@,
            r matches Err(e) ==> (e is Truncated <==> (!header_ok(datagram_of(buf@, size as int))
                || (count_ok(datagram_of(buf@, size as int)) && !length_ok(
                datagram_of(buf@, size as int),
            )))),
            r matches Err(e) ==> (e is InvalidCount <==> (header_ok(
                datagram_of(buf@, size as int),
            ) && !count_ok(datagram_of(buf@, size as int)))),
    {
        match self {
            Handler::V5(h) => h.handle(buf, size, addr),
        }
    }

    /// The display name of the handler's format.
    pub fn name(&self) -> (r: String)
        ensures
            r@ == "Nfv5Handler"@,
    {
        match self {
            Handler::V5(h) => h.name(),
        }
    }
}

} // verus!
