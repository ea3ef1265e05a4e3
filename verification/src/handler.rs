//! The bounded, queue-based message handler: a pair of fixed-capacity,
//! lock-free FIFO queues decoupling a message consumer and producer from the
//! stream they are attached to.
//!
//! A full outbound queue refuses the message and reports saturation instead
//! of blocking; the refused message is carried inside the report's cause so
//! nothing is silently lost.

use vstd::prelude::*;

use crossbeam::queue::ArrayQueue;

use crate::codec::Msg;
use crate::error::{BridgeError, Direction, ErrView, ErrorKind};

verus! {

#[verifier::external_type_specification]
#[verifier::external_body]
#[verifier::reject_recursive_types(T)]
pub struct ExArrayQueue<T>(ArrayQueue<T>);

/// What a bounded message queue holds, head first.
pub uninterp spec fn bounded_items(q: ArrayQueue<Msg>) -> Seq<Msg>;

/// The fixed capacity a bounded message queue was created with.
pub uninterp spec fn bounded_capacity(q: ArrayQueue<Msg>) -> nat;

/// Relies on crossbeam's `ArrayQueue::new`: a fresh queue is empty and
/// holds at most `cap` elements. It refuses a zero capacity and one so
/// large that its bookkeeping overflows, so those stay out.
#[verifier::external_body]
pub(crate) fn bounded_new(cap: usize) -> (q: ArrayQueue<Msg>)
    requires
        0 < cap < 0x2000000000000000,
    ensures
        bounded_items(q) == Seq::<Msg>::empty(),
        bounded_capacity(q) == cap,
{
    ArrayQueue::new(cap)
}

/// Relies on crossbeam's `ArrayQueue::push`: appends at the tail when there
/// is room, and hands the element back without blocking when the queue is
/// full.
#[verifier::external_body]
pub(crate) fn bounded_push(q: &mut ArrayQueue<Msg>, m: Msg) -> (r: Result<(), Msg>)
    ensures
        bounded_capacity(*final(q)) == bounded_capacity(*old(q)),
        match r {
            Ok(_) => bounded_items(*old(q)).len() < bounded_capacity(*old(q)) && bounded_items(
                *final(q),
            ) == bounded_items(*old(q)).push(m),
            Err(m2) => m2 == m && bounded_items(*old(q)).len() == bounded_capacity(*old(q))
                && bounded_items(*final(q)) == bounded_items(*old(q)),
        },
{
    q.push(m)
}

/// Relies on crossbeam's `ArrayQueue::pop`: takes the element at the head,
/// or returns nothing at once when the queue is empty.
#[verifier::external_body]
pub(crate) fn bounded_pop(q: &mut ArrayQueue<Msg>) -> (r: Option<Msg>)
    ensures
        bounded_capacity(*final(q)) == bounded_capacity(*old(q)),
        match r {
            Some(m) => bounded_items(*old(q)).len() > 0 && m == bounded_items(*old(q))[0]
                && bounded_items(*final(q)) == bounded_items(*old(q)).drop_first(),
            None => bounded_items(*old(q)).len() == 0 && bounded_items(*final(q)) == bounded_items(
                *old(q),
            ),
        },
{
    q.pop()
}

/// The saturation report for a refused message with canonical text `t`.
pub open spec fn saturated_view(t: Seq<char>) -> ErrView {
    ErrView {
        kind: ErrorKind::QueueSaturated,
        direction: Direction::OutOfCore,
        fatal: false,
        detail: t,
    }
}

/// A handler that decouples message consumption and production from the
/// stream through two bounded, lock-free queues.
pub struct QueueBasedHandler {
    inbound: ArrayQueue<Msg>,
    outbound: ArrayQueue<Msg>,
}

impl QueueBasedHandler {
    /// What the handler has received from the stream and not yet handed out.
    pub closed spec fn pending_in(&self) -> Seq<Msg> {
        bounded_items(self.inbound)
    }

    /// What the handler has accepted for sending and not yet drained.
    pub closed spec fn pending_out(&self) -> Seq<Msg> {
        bounded_items(self.outbound)
    }

    /// The fixed capacity of the outbound queue.
    pub closed spec fn out_capacity(&self) -> nat {
        bounded_capacity(self.outbound)
    }

    /// The fixed capacity of the inbound queue.
    pub closed spec fn in_capacity(&self) -> nat {
        bounded_capacity(self.inbound)
    }

    /// A handler with two empty bounded queues of the given capacity.
    pub fn with_capacity(cap: usize) -> (h: QueueBasedHandler)
        requires
            0 < cap < 0x2000000000000000,
        ensures
            h.pending_in() == Seq::<Msg>::empty(),
            h.pending_out() == Seq::<Msg>::empty(),
            h.in_capacity() == cap,
            h.out_capacity() == cap,
    {
        QueueBasedHandler { inbound: bounded_new(cap), outbound: bounded_new(cap) }
    }

    /// Accepts one message for sending. When the outbound queue is full the
    /// message is refused with a saturation report carrying its text, and
    /// nothing changes; it never blocks.
    pub fn send(&mut self, m: Msg) -> (r: Result<(), BridgeError>)
        ensures
            final(self).pending_in() == old(self).pending_in(),
            final(self).out_capacity() == old(self).out_capacity(),
            final(self).in_capacity() == old(self).in_capacity(),
            match r {
                Ok(_) => old(self).pending_out().len() < old(self).out_capacity() && final(self).pending_out() == old(self).pending_out().push(m),
                Err(e) => old(self).pending_out().len() == old(self).out_capacity() && final(self).pending_out() == old(self).pending_out() && e@ == saturated_view(m@),
            },
    {
        match bounded_push(&mut self.outbound, m) {
            Ok(_) => Ok(()),
            Err(m) => Err(
                BridgeError {
                    kind: ErrorKind::QueueSaturated,
                    direction: Direction::OutOfCore,
                    fatal: false,
                    detail: m.into_text(),
                },
            ),
        }
    }

    /// Takes delivery of one message arriving from the stream. When the
    /// inbound queue is full the message is handed back, and nothing
    /// changes; it never blocks.
    pub fn deliver(&mut self, m: Msg) -> (r: Result<(), Msg>)
        ensures
            final(self).pending_out() == old(self).pending_out(),
            final(self).out_capacity() == old(self).out_capacity(),
            final(self).in_capacity() == old(self).in_capacity(),
            match r {
                Ok(_) => old(self).pending_in().len() < old(self).in_capacity() && final(self).pending_in() == old(self).pending_in().push(m),
                Err(m2) => m2 == m && old(self).pending_in().len() == old(self).in_capacity()
                    && final(self).pending_in() == old(self).pending_in(),
            },
    {
        bounded_push(&mut self.inbound, m)
    }

    /// The next message received from the stream, head first, if any.
    pub fn next_received(&mut self) -> (r: Option<Msg>)
        ensures
            final(self).pending_out() == old(self).pending_out(),
            final(self).out_capacity() == old(self).out_capacity(),
            final(self).in_capacity() == old(self).in_capacity(),
            match r {
                Some(m) => old(self).pending_in().len() > 0 && m == old(self).pending_in()[0]
                    && final(self).pending_in() == old(self).pending_in().drop_first(),
                None => old(self).pending_in().len() == 0 && final(self).pending_in() == old(self).pending_in(),
            },
    {
        bounded_pop(&mut self.inbound)
    }

    /// The next message accepted for sending, head first, if any.
    pub fn next_outbound(&mut self) -> (r: Option<Msg>)
        ensures
            final(self).pending_in() == old(self).pending_in(),
            final(self).out_capacity() == old(self).out_capacity(),
            final(self).in_capacity() == old(self).in_capacity(),
            match r {
                Some(m) => old(self).pending_out().len() > 0 && m == old(self).pending_out()[0]
                    && final(self).pending_out() == old(self).pending_out().drop_first(),
                None => old(self).pending_out().len() == 0 && final(self).pending_out() == old(self).pending_out(),
            },
    {
        bounded_pop(&mut self.outbound)
    }
}

} // verus!
