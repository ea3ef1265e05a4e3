//! The decoupling queue: a lock-free, unbounded, multi-producer and
//! multi-consumer FIFO, used where a consumer cannot run cooperatively on the
//! same scheduler as the producer.
//!
//! The queue itself comes from an outside crate; its contents are named and
//! the operations the core uses carry contracts over that name. Push never
//! blocks, pop returns present-or-absent immediately, and the pumps built on
//! top are verified to deliver every item exactly once and in order.

use vstd::prelude::*;

use crossbeam::queue::SegQueue;

use crate::codec::Msg;
use crate::command::{CmdView, Command};

verus! {

#[verifier::external_type_specification]
#[verifier::external_body]
#[verifier::reject_recursive_types(T)]
pub struct ExSegQueue<T>(SegQueue<T>);

/// What the decoupling queue holds, head first.
pub uninterp spec fn queue_items(q: SegQueue<Command>) -> Seq<Command>;

/// The views of a sequence of commands.
pub open spec fn cmd_views(s: Seq<Command>) -> Seq<CmdView> {
    s.map_values(|c: Command| c@)
}

/// Creates the decoupling queue for command handles.
///
/// Relies on crossbeam's `SegQueue::new`: a fresh queue holds nothing.
#[verifier::external_body]
pub fn new_cmd_queue() -> (q: SegQueue<Command>)
    ensures
        queue_items(q) == Seq::<Command>::empty(),
{
    SegQueue::new()
}

/// Relies on crossbeam's `SegQueue::push`: appends one element at the tail
/// of the FIFO and never blocks.
#[verifier::external_body]
pub(crate) fn queue_push(q: &mut SegQueue<Command>, c: Command)
    ensures
        queue_items(*final(q)) == queue_items(*old(q)).push(c),
{
    q.push(c);
}

/// Relies on crossbeam's `SegQueue::pop`: takes the element at the head of
/// the FIFO, or returns nothing at once when the queue is empty.
#[verifier::external_body]
pub(crate) fn queue_pop(q: &mut SegQueue<Command>) -> (r: Option<Command>)
    ensures
        match r {
            Some(c) => queue_items(*old(q)).len() > 0 && c == queue_items(*old(q))[0]
                && queue_items(*final(q)) == queue_items(*old(q)).drop_first(),
            None => queue_items(*old(q)).len() == 0 && queue_items(*final(q)) == queue_items(
                *old(q),
            ),
        },
{
    q.pop()
}

/// What the outbound decoupling queue of plain protocol messages holds,
/// head first.
pub uninterp spec fn uci_queue_items(q: SegQueue<Msg>) -> Seq<Msg>;

/// Creates the decoupling queue for plain protocol messages, as the
/// outbound leg of the queue-decoupled bridge uses it.
///
/// Relies on crossbeam's `SegQueue::new`: a fresh queue holds nothing.
#[verifier::external_body]
pub fn new_uci_queue() -> (q: SegQueue<Msg>)
    ensures
        uci_queue_items(q) == Seq::<Msg>::empty(),
{
    SegQueue::new()
}

/// Relies on crossbeam's `SegQueue::pop`: takes the element at the head of
/// the FIFO, or returns nothing at once when the queue is empty.
#[verifier::external_body]
pub(crate) fn uci_queue_pop(q: &mut SegQueue<Msg>) -> (r: Option<Msg>)
    ensures
        match r {
            Some(m) => uci_queue_items(*old(q)).len() > 0 && m == uci_queue_items(*old(q))[0]
                && uci_queue_items(*final(q)) == uci_queue_items(*old(q)).drop_first(),
            None => uci_queue_items(*old(q)).len() == 0 && uci_queue_items(*final(q))
                == uci_queue_items(*old(q)),
        },
{
    q.pop()
}

/// Pushes every command into the queue, in order. Together with
/// [`drain_queue`] this is the queue-safety core: what goes in comes out
/// exactly once, with no loss and no duplication.
pub fn push_all(q: &mut SegQueue<Command>, cs: Vec<Command>)
    ensures
        queue_items(*final(q)) == queue_items(*old(q)) + cs@,
{
    let ghost all = cs@;
    let mut rest = cs;
    while rest.len() > 0
        invariant
            queue_items(*q) + rest@ == queue_items(*old(q)) + all,
        decreases rest.len(),
    {
        let c = rest.remove(0);
        queue_push(q, c);
    }
    proof {
        assert(queue_items(*q) =~= queue_items(*q) + rest@);
    }
}

/// Takes everything out of the queue, head first: the result is exactly what
/// the queue held, in order, and the queue is left empty. The loop ends as
/// soon as the already-enqueued items are drained.
pub fn drain_queue(q: &mut SegQueue<Command>) -> (out: Vec<Command>)
    ensures
        out@ == queue_items(*old(q)),
        queue_items(*final(q)) == Seq::<Command>::empty(),
{
    let mut out: Vec<Command> = Vec::new();
    loop
        invariant
            out@ + queue_items(*q) == queue_items(*old(q)),
        ensures
            out@ == queue_items(*old(q)),
            queue_items(*q) == Seq::<Command>::empty(),
        decreases queue_items(*q).len(),
    {
        match queue_pop(q) {
            Some(c) => {
                out.push(c);
            },
            None => {
                proof {
                    assert(out@ =~= out@ + queue_items(*q));
                    assert(queue_items(*q) =~= Seq::<Command>::empty());
                }
                break ;
            },
        }
    }
    out
}

} // verus!
