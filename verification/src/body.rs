//! The body transfer strategy.  A deployment picks exactly one way to carry
//! the inbound request body upstream and applies it to every request:
//!
//! - `Streamed`: the body is relayed as a live sequence of byte chunks with
//!   no intermediate buffering; memory stays bounded whatever the payload
//!   size.  This is the recommended strategy, and the only one for the
//!   upstream response, which is always streamed.
//! - `Buffered`: the body is materialized in memory up to a hard cap; a
//!   request whose body exceeds the cap is rejected before any upstream
//!   connection is attempted, never truncated.
//!
//! Either way, the bytes that leave are exactly the bytes that arrived:
//! concatenating the outbound chunks yields the inbound bytes, whatever the
//! chunk boundaries were.

use vstd::prelude::*;
use crate::errors::RelayError;

verus! {

/// The per-deployment choice of request-body transfer.
#[derive(Clone, Copy)]
pub enum BodyStrategy {
    /// Relay the body as live chunks, unbuffered and uncapped.
    Streamed,
    /// Materialize the body in memory, rejecting bodies over `cap` bytes.
    Buffered { cap: usize },
}

/// A request body ready for upstream transmission.
#[derive(Debug)]
pub enum PreparedBody {
    /// The chunks to send, boundaries preserved, total length unknown.
    Streamed { chunks: Vec<Vec<u8>> },
    /// The whole body, length known up front.
    Buffered { data: Vec<u8> },
}

impl PreparedBody {
    /// The bytes this body carries, in transmission order.
    pub open spec fn bytes(&self) -> Seq<u8> {
        match *self {
            PreparedBody::Streamed { chunks } => chunks.deep_view().flatten(),
            PreparedBody::Buffered { data } => data@,
        }
    }
}

/// Whether a body of the given bytes is accepted under a strategy: streaming
/// accepts everything, buffering accepts bodies up to its cap, inclusive.
pub open spec fn prepare_ok(strategy: BodyStrategy, total: Seq<u8>) -> bool {
    match strategy {
        BodyStrategy::Streamed => true,
        BodyStrategy::Buffered { cap } => total.len() <= cap,
    }
}

/// A bounded in-memory accumulator for the buffered strategy: chunks are
/// appended as they arrive, and a chunk that would push the total over the
/// cap is refused whole.
pub struct BodyAccumulator {
    pub data: Vec<u8>,
    pub cap: usize,
}

impl BodyAccumulator {
    /// The accumulated bytes never exceed the cap.
    pub open spec fn wf(&self) -> bool {
        self.data@.len() <= self.cap
    }

    /// An empty accumulator with the given cap.
    pub fn new(cap: usize) -> (acc: BodyAccumulator)
        ensures
            acc.cap == cap,
            acc.data@ == Seq::<u8>::empty(),
            acc.wf(),
    {
        let acc = BodyAccumulator { data: Vec::new(), cap };
        proof {
            assert(acc.data@ =~= Seq::<u8>::empty());
        }
        acc
    }

    /// Append one inbound chunk.  Succeeds, keeping every byte in order,
    /// exactly when the total stays within the cap; otherwise the chunk is
    /// refused, the accumulator is unchanged, and the request is rejected
    /// without contacting the upstream.
    pub fn push_chunk(&mut self, chunk: &Vec<u8>) -> (r: Result<(), RelayError>)
        requires
            old(self).wf(),
        ensures
            final(self).cap == old(self).cap,
            final(self).wf(),
            old(self).data@.len() + chunk@.len() <= old(self).cap ==> r is Ok
                && final(self).data@ == old(self).data@ + chunk@,
            old(self).data@.len() + chunk@.len() > old(self).cap ==> r is Err
                && final(self).data@ == old(self).data@,
            r matches Err(e) ==> e is InboundBodyTooLarge,
    {
        if chunk.len() <= self.cap - self.data.len() {
            self.data.extend_from_slice(chunk.as_slice());
            proof {
                assert(self.data@ =~= old(self).data@ + chunk@);
            }
            Ok(())
        } else {
            Err(RelayError::InboundBodyTooLarge)
        }
    }
}

/// The flattened bytes of a prefix never exceed those of the whole.
proof fn lemma_flatten_prefix_len(chunks: Seq<Seq<u8>>, i: int)
    requires
        0 <= i <= chunks.len(),
    ensures
        chunks.take(i).flatten().len() <= chunks.flatten().len(),
{
    vstd::seq_lib::lemma_flatten_concat(chunks.take(i), chunks.skip(i));
    assert(chunks.take(i) + chunks.skip(i) =~= chunks);
}

/// Prepare an inbound body, delivered as chunks, for upstream transmission
/// under the chosen strategy.  Succeeds exactly when the strategy accepts
/// the body's total size; the prepared body then carries exactly the
/// inbound bytes, in order — under the streamed strategy with the very same
/// chunk boundaries.  An oversized body under the buffered strategy is
/// rejected whole, never truncated.
pub fn prepare(strategy: &BodyStrategy, chunks: Vec<Vec<u8>>) -> (r: Result<
    PreparedBody,
    RelayError,
>)
    ensures
        r is Ok <==> prepare_ok(*strategy, chunks.deep_view().flatten()),
        r matches Ok(b) ==> b.bytes() == chunks.deep_view().flatten(),
        r matches Ok(b) ==> (*strategy matches BodyStrategy::Streamed ==> b matches
            PreparedBody::Streamed { chunks: out } && out.deep_view() == chunks.deep_view()),
        r matches Ok(b) ==> (*strategy is Buffered ==> b is Buffered),
        r matches Err(e) ==> e is InboundBodyTooLarge,
{
    broadcast use vstd::prelude::Seq::lemma_flatten_push;

    match strategy {
        BodyStrategy::Streamed => Ok(PreparedBody::Streamed { chunks }),
        BodyStrategy::Buffered { cap } => {
            let ghost all = chunks.deep_view();
            let mut acc = BodyAccumulator::new(*cap);
            let mut i: usize = 0;
            proof {
                assert(all.take(0).flatten() =~= Seq::<u8>::empty());
            }
            while i < chunks.len()
                invariant
                    i <= chunks.len(),
                    all == chunks.deep_view(),
                    *strategy == (BodyStrategy::Buffered { cap: *cap }),
                    acc.cap == *cap,
                    acc.wf(),
                    acc.data@ == all.take(i as int).flatten(),
                decreases chunks.len() - i,
            {
                let pushed = acc.push_chunk(&chunks[i]);
                proof {
                    assert(all[i as int] =~= chunks@[i as int]@);
                    assert(all.take(i as int).push(all[i as int]) =~= all.take(i + 1));
                    all.take(i as int).lemma_flatten_push(all[i as int]);
                }
                if pushed.is_err() {
                    proof {
                        lemma_flatten_prefix_len(all, i + 1);
                    }
                    return Err(RelayError::InboundBodyTooLarge);
                }
                i = i + 1;
            }
            proof {
                assert(all.take(all.len() as int) =~= all);
            }
            Ok(PreparedBody::Buffered { data: acc.data })
        },
    }
}

/// The body transfer is chunking-agnostic: two deliveries of the same bytes
/// under different chunk boundaries are accepted under exactly the same
/// strategies, and the prepared outbound bodies carry exactly the same
/// bytes — the inbound bytes themselves.
pub proof fn lemma_body_round_trip(
    strategy: BodyStrategy,
    chunks1: Seq<Seq<u8>>,
    chunks2: Seq<Seq<u8>>,
)
    requires
        chunks1.flatten() == chunks2.flatten(),
    ensures
        prepare_ok(strategy, chunks1.flatten()) == prepare_ok(strategy, chunks2.flatten()),
{
}

} // verus!
