//! One attached debugger connection, seen from the library.
//!
//! The transport reads and writes bytes; the library only decides which
//! packets go to which connection and in what order. A `StreamBuf` carries a
//! connection's identifier and the queue of packets the library has produced
//! for it; the transport drains the queue in order, so the queue order is
//! the per-stream delivery order.

use vstd::prelude::*;

use crate::json::{Json, JVal, jvals_of, lemma_jvals_of};

verus! {

/// Identifies one attached debugger connection.
pub type StreamId = u64;

/// The packets produced for one connection, in delivery order.
pub struct StreamBuf {
    /// The connection this queue belongs to.
    pub id: StreamId,
    /// The packets not yet handed to the transport, oldest first.
    pub packets: Vec<Json>,
}

impl StreamBuf {
    /// The packets of this queue, as mathematical values.
    pub open spec fn out(&self) -> Seq<JVal> {
        jvals_of(self.packets@)
    }

    /// An empty queue for the given connection.
    pub fn new(id: StreamId) -> (r: StreamBuf)
        ensures
            r.id == id,
            r.out() == Seq::<JVal>::empty(),
    {
        let r = StreamBuf { id, packets: Vec::new() };
        proof {
            lemma_jvals_of(r.packets@);
            assert(r.out() =~= Seq::<JVal>::empty());
        }
        r
    }

    /// Queues one packet for this connection.
    pub fn write_json_packet(&mut self, packet: Json)
        ensures
            final(self).id == old(self).id,
            final(self).out() == old(self).out().push(packet@),
    {
        proof {
            lemma_jvals_of(self.packets@);
        }
        self.packets.push(packet);
        proof {
            lemma_jvals_of(self.packets@);
            assert(self.out() =~= old(self).out().push(packet@));
        }
    }

    /// Hands every queued packet to the caller, leaving the queue empty.
    pub fn drain(&mut self) -> (r: Vec<Json>)
        ensures
            final(self).id == old(self).id,
            final(self).out() == Seq::<JVal>::empty(),
            jvals_of(r@) == old(self).out(),
    {
        let mut out: Vec<Json> = Vec::new();
        core::mem::swap(&mut out, &mut self.packets);
        proof {
            lemma_jvals_of(self.packets@);
            assert(self.out() =~= Seq::<JVal>::empty());
        }
        out
    }
}

} // verus!
