//! The unbounded, ordered channels that carry messages and failure reports
//! between the pumps.
//!
//! The channels come from an outside crate. Their contents cannot be named
//! soundly from one end alone — what a receiver will yield depends on what
//! the senders in other tasks have done — so every operation states what
//! holds of every outcome, and the verified pump logic takes each received
//! value as an argument and is proved for all of them.

use vstd::prelude::*;

use futures::channel::mpsc::{UnboundedReceiver, UnboundedSender};

use crate::codec::Msg;
use crate::command::Command;
use crate::error::BridgeError;

verus! {

#[verifier::external_type_specification]
#[verifier::external_body]
#[verifier::reject_recursive_types(T)]
pub struct ExUnboundedSender<T>(UnboundedSender<T>);

#[verifier::external_type_specification]
#[verifier::external_body]
#[verifier::reject_recursive_types(T)]
pub struct ExUnboundedReceiver<T>(UnboundedReceiver<T>);

/// The sending end of the plain message channel.
pub type UciSender = UnboundedSender<Msg>;

/// The receiving end of the plain message channel.
pub type UciReceiver = UnboundedReceiver<Msg>;

/// The sending end of the fallible channel, on which decode and read
/// failures travel inline without closing the channel.
pub type UciTrySender = UnboundedSender<Result<Msg, BridgeError>>;

/// The receiving end of the fallible channel.
pub type UciTryReceiver = UnboundedReceiver<Result<Msg, BridgeError>>;

/// The sending end of the command channel.
pub type CmdSender = UnboundedSender<Command>;

/// The receiving end of the command channel.
pub type CmdReceiver = UnboundedReceiver<Command>;

/// The sending end of the error-report channel.
pub type ErrSender = UnboundedSender<BridgeError>;

/// The receiving end of the error-report channel.
pub type ErrReceiver = UnboundedReceiver<BridgeError>;

/// What one non-blocking receive found.
pub enum RecvOutcome<T> {
    /// The next buffered item, in sender order.
    Item(T),
    /// Nothing buffered yet, but the channel is still open.
    Empty,
    /// The channel is closed and drained: a terminal, observable event.
    Closed,
}

/// Relies on `futures::channel::mpsc::unbounded`: creates a connected
/// sender/receiver pair for an unbounded, ordered FIFO channel.
#[verifier::external_body]
pub(crate) fn mpsc_unbounded<T>() -> (UnboundedSender<T>, UnboundedReceiver<T>) {
    futures::channel::mpsc::unbounded()
}

/// Relies on `UnboundedSender::unbounded_send`, which never blocks and fails
/// only when the receiving end is gone, and on `TrySendError::into_inner`,
/// which returns the message that could not be sent.
#[verifier::external_body]
pub(crate) fn chan_send<T>(tx: &UnboundedSender<T>, v: T) -> (r: Result<(), T>)
    ensures
        r matches Err(w) ==> w == v,
{
    tx.unbounded_send(v).map_err(|e| e.into_inner())
}

/// Relies on `UnboundedReceiver::try_recv`: yields the next buffered item,
/// or reports at once that the channel is empty, or that it is closed and
/// drained.
#[verifier::external_body]
pub(crate) fn chan_try_recv<T>(rx: &mut UnboundedReceiver<T>) -> (r: RecvOutcome<T>) {
    match rx.try_recv() {
        Ok(v) => RecvOutcome::Item(v),
        Err(e) => if e.is_empty() {
            RecvOutcome::Empty
        } else {
            RecvOutcome::Closed
        },
    }
}

/// Relies on `UnboundedReceiver::close`: prevents further sends while the
/// buffered items can still be drained.
#[verifier::external_body]
pub(crate) fn chan_close_receiver<T>(rx: &mut UnboundedReceiver<T>) {
    rx.close();
}

/// Relies on `UnboundedSender::close_channel`: closes the channel from the
/// sending side.
#[verifier::external_body]
pub(crate) fn chan_close_sender<T>(tx: &UnboundedSender<T>) {
    tx.close_channel();
}

/// Creates the plain message channel.
pub fn new_channel() -> (UciSender, UciReceiver) {
    mpsc_unbounded()
}

/// Creates the fallible message channel.
pub fn new_try_channel() -> (UciTrySender, UciTryReceiver) {
    mpsc_unbounded()
}

/// Creates the command channel.
pub fn new_cmd_channel() -> (CmdSender, CmdReceiver) {
    mpsc_unbounded()
}

/// Creates the error-report channel.
pub fn new_err_channel() -> (ErrSender, ErrReceiver) {
    mpsc_unbounded()
}

} // verus!
