//! Model of the bidirectional byte relay between a client and its upstream.
//!
//! A running relay carries chunks of bytes in both directions; each chunk is
//! appended, unaltered, to what the receiving peer has been delivered, so
//! within one direction bytes arrive exactly in write order. Either side
//! reaching end-of-stream (or erroring) finishes the relay: both directions
//! terminate together, no further chunk moves, and exactly one log line is
//! produced for the completed relay.

use vstd::prelude::*;

verus! {

/// Concatenation, in order, of a sequence of byte chunks.
pub open spec fn concat_all(chunks: Seq<Seq<u8>>) -> Seq<u8>
    decreases chunks.len(),
{
    if chunks.len() == 0 {
        Seq::empty()
    } else {
        concat_all(chunks.drop_last()) + chunks.last()
    }
}

/// One relay between a client and an upstream connection. The two delivery
/// records hold every byte each peer has received so far, in order.
pub struct Relay {
    to_upstream: Vec<u8>,
    to_client: Vec<u8>,
    running: bool,
}

impl Relay {
    /// Bytes delivered to the upstream peer (written by the client).
    pub closed spec fn delivered_up(self) -> Seq<u8> {
        self.to_upstream@
    }

    /// Bytes delivered to the client (written by the upstream).
    pub closed spec fn delivered_down(self) -> Seq<u8> {
        self.to_client@
    }

    /// Whether both directions are still open.
    pub closed spec fn running(self) -> bool {
        self.running
    }

    pub fn new() -> (r: Relay)
        ensures
            r.running(),
            r.delivered_up() == Seq::<u8>::empty(),
            r.delivered_down() == Seq::<u8>::empty(),
    {
        Relay { to_upstream: Vec::new(), to_client: Vec::new(), running: true }
    }

    pub fn is_running(&self) -> (b: bool)
        ensures
            b == self.running(),
    {
        self.running
    }

    /// Hands the client's peer a copy of what was delivered to it so far.
    pub fn upstream_received(&self) -> (r: Vec<u8>)
        ensures
            r@ == self.delivered_up(),
    {
        self.to_upstream.clone()
    }

    pub fn client_received(&self) -> (r: Vec<u8>)
        ensures
            r@ == self.delivered_down(),
    {
        self.to_client.clone()
    }

    /// Delivers one chunk written by the client to the upstream peer:
    /// appended whole, unaltered, after everything delivered before it.
    pub fn forward_to_upstream(&mut self, chunk: &[u8])
        requires
            old(self).running(),
        ensures
            final(self).running(),
            final(self).delivered_up() == old(self).delivered_up() + chunk@,
            final(self).delivered_down() == old(self).delivered_down(),
    {
        self.to_upstream.extend_from_slice(chunk);
    }

    /// Delivers one chunk written by the upstream to the client.
    pub fn forward_to_client(&mut self, chunk: &[u8])
        requires
            old(self).running(),
        ensures
            final(self).running(),
            final(self).delivered_down() == old(self).delivered_down() + chunk@,
            final(self).delivered_up() == old(self).delivered_up(),
    {
        self.to_client.extend_from_slice(chunk);
    }

    /// Delivers a whole run of client writes, in order: the upstream peer
    /// receives exactly their concatenation after what it already had.
    pub fn pump_to_upstream(&mut self, chunks: &Vec<Vec<u8>>)
        requires
            old(self).running(),
        ensures
            final(self).running(),
            final(self).delivered_up() == old(self).delivered_up() + concat_all(chunks.deep_view()),
            final(self).delivered_down() == old(self).delivered_down(),
    {
        let ghost all = chunks.deep_view();
        let mut i: usize = 0;
        while i < chunks.len()
            invariant
                i <= chunks.len(),
                all == chunks.deep_view(),
                self.running(),
                self.delivered_up() == old(self).delivered_up() + concat_all(all.take(i as int)),
                self.delivered_down() == old(self).delivered_down(),
            decreases chunks.len() - i,
        {
            let chunk: &Vec<u8> = &chunks[i];
            self.forward_to_upstream(chunk.as_slice());
            proof {
                assert(all.take(i as int + 1).drop_last() =~= all.take(i as int));
                assert(all.take(i as int + 1).last() == all[i as int]);
            }
            i = i + 1;
        }
        proof {
            assert(all.take(chunks@.len() as int) =~= all);
        }
    }

    /// Delivers a whole run of upstream writes to the client, in order.
    pub fn pump_to_client(&mut self, chunks: &Vec<Vec<u8>>)
        requires
            old(self).running(),
        ensures
            final(self).running(),
            final(self).delivered_down() == old(self).delivered_down() + concat_all(chunks.deep_view()),
            final(self).delivered_up() == old(self).delivered_up(),
    {
        let ghost all = chunks.deep_view();
        let mut i: usize = 0;
        while i < chunks.len()
            invariant
                i <= chunks.len(),
                all == chunks.deep_view(),
                self.running(),
                self.delivered_down() == old(self).delivered_down() + concat_all(all.take(i as int)),
                self.delivered_up() == old(self).delivered_up(),
            decreases chunks.len() - i,
        {
            let chunk: &Vec<u8> = &chunks[i];
            self.forward_to_client(chunk.as_slice());
            proof {
                assert(all.take(i as int + 1).drop_last() =~= all.take(i as int));
                assert(all.take(i as int + 1).last() == all[i as int]);
            }
            i = i + 1;
        }
        proof {
            assert(all.take(chunks@.len() as int) =~= all);
        }
    }

    /// Ends the relay: called when either side reaches end-of-stream or
    /// errors, it terminates both directions at once — what each peer was
    /// delivered stays exactly as it stands — and yields the one log line
    /// that records the completed relay.
    pub fn finish(&mut self) -> (line: String)
        requires
            old(self).running(),
        ensures
            !final(self).running(),
            final(self).delivered_up() == old(self).delivered_up(),
            final(self).delivered_down() == old(self).delivered_down(),
            line@ == completed_line_text(),
    {
        self.running = false;
        completed_line()
    }
}

/// The text of the log line recorded once per completed relay.
pub open spec fn completed_line_text() -> Seq<char> {
    "Handled connection"@
}

/// The log line recorded once per completed relay.
pub fn completed_line() -> (r: String)
    ensures
        r@ == completed_line_text(),
{
    "Handled connection".to_owned()
}

} // verus!
