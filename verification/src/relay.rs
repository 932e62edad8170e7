use vstd::prelude::*;
use crate::counters::{spec_counters, ByteCounters};

verus! {

/// One completed chunk of the bidirectional copy, with the number of
/// bytes it moved. The relay is byte-transparent: chunks carry no
/// protocol meaning, only a direction and a size.
#[derive(Clone, Copy, Debug, PartialEq, Eq, Structural)]
pub enum TransferEvent {
    /// Bytes the client sent towards the compute node.
    ClientToNode(u64),
    /// Bytes the compute node sent back to the client.
    NodeToClient(u64),
}

/// The bytes an event moves towards the client.
pub open spec fn spec_sent_of(e: TransferEvent) -> int {
    match e {
        TransferEvent::NodeToClient(n) => n as int,
        TransferEvent::ClientToNode(_) => 0,
    }
}

/// The bytes an event moves towards the compute node.
pub open spec fn spec_recv_of(e: TransferEvent) -> int {
    match e {
        TransferEvent::ClientToNode(n) => n as int,
        TransferEvent::NodeToClient(_) => 0,
    }
}

/// Total bytes moved towards the client over a whole relay.
pub open spec fn spec_total_sent(s: Seq<TransferEvent>) -> int
    decreases s.len(),
{
    if s.len() == 0 {
        0
    } else {
        spec_sent_of(s[0]) + spec_total_sent(s.drop_first())
    }
}

/// Total bytes moved towards the compute node over a whole relay.
pub open spec fn spec_total_recv(s: Seq<TransferEvent>) -> int
    decreases s.len(),
{
    if s.len() == 0 {
        0
    } else {
        spec_recv_of(s[0]) + spec_total_recv(s.drop_first())
    }
}

/// Byte totals never run backwards.
pub proof fn lemma_totals_nonneg(s: Seq<TransferEvent>)
    ensures
        spec_total_sent(s) >= 0,
        spec_total_recv(s) >= 0,
    decreases s.len(),
{
    if s.len() > 0 {
        lemma_totals_nonneg(s.drop_first());
    }
}

/// Account a finished relay for destination `dest` on the shared
/// counters, one completed chunk at a time, as the metered streams do.
///
/// After a relay that moved N bytes from the client to the node and M
/// bytes from the node to the client, the destination's `recv` counter
/// has grown by exactly N and its `sent` counter by exactly M, and no
/// other destination's counters have moved.
#[verifier::loop_isolation(false)]
pub fn run_relay(counters: &mut ByteCounters, dest: u64, transfers: &Vec<TransferEvent>)
    requires
        spec_counters(old(counters)@, dest).0 + spec_total_sent(transfers@) <= u64::MAX,
        spec_counters(old(counters)@, dest).1 + spec_total_recv(transfers@) <= u64::MAX,
    ensures
        spec_counters(final(counters)@, dest).0 == spec_counters(old(counters)@, dest).0
            + spec_total_sent(transfers@),
        spec_counters(final(counters)@, dest).1 == spec_counters(old(counters)@, dest).1
            + spec_total_recv(transfers@),
        forall|d: u64|
            d != dest ==> spec_counters(final(counters)@, d) == spec_counters(old(counters)@, d),
{
    let n = transfers.len();
    let mut i: usize = 0;
    proof {
        assert(transfers@.skip(0) =~= transfers@);
    }
    while i < n
        invariant
            i <= n,
            spec_counters(counters@, dest).0 + spec_total_sent(transfers@.skip(i as int))
                == spec_counters(old(counters)@, dest).0 + spec_total_sent(transfers@),
            spec_counters(counters@, dest).1 + spec_total_recv(transfers@.skip(i as int))
                == spec_counters(old(counters)@, dest).1 + spec_total_recv(transfers@),
            forall|d: u64|
                d != dest ==> spec_counters(counters@, d) == spec_counters(old(counters)@, d),
        decreases n - i,
    {
        proof {
            assert(transfers@.skip(i as int)[0] == transfers@[i as int]);
            assert(transfers@.skip(i as int).drop_first() =~= transfers@.skip(i + 1));
            lemma_totals_nonneg(transfers@.skip(i + 1));
        }
        match transfers[i] {
            TransferEvent::NodeToClient(m) => {
                counters.record(dest, m, 0);
            },
            TransferEvent::ClientToNode(m) => {
                counters.record(dest, 0, m);
            },
        }
        i = i + 1;
    }
    proof {
        assert(transfers@.skip(n as int) =~= Seq::<TransferEvent>::empty());
    }
}

} // verus!
