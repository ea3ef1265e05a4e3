//! The pumps that move items between the line source, the channels, the
//! decoupling queues and the line sink.
//!
//! Each pump's decisions are verified here as functions from events to queue
//! and report effects; the surrounding process supplies the events (lines
//! read, read failures, end-of-stream) and performs the awaiting.

use vstd::prelude::*;

use crossbeam::queue::SegQueue;

use crate::channel::{chan_close_receiver, chan_close_sender, chan_send, chan_try_recv};
use crate::channel::{CmdSender, ErrSender, RecvOutcome, UciSender, UciTryReceiver};
use crate::codec::{ambiguity_view, decode_line, decoder_safe, line_msg_texts, msg_texts};
use crate::codec::{DecodePolicy, Msg};
use crate::command::{classified, CmdView, Command};
use crate::error::{BridgeError, Direction, ErrView, ErrorKind, FailView, IoFailure};
use crate::queue::{cmd_views, queue_items, queue_push, uci_queue_items, uci_queue_pop};

verus! {

/// One event at the inbound edge: a line read from the byte source, a read
/// failure, or a clean end of the stream.
pub enum InboundEvent {
    Line(String),
    ReadError(IoFailure),
    Eof,
}

/// The mathematical image of an [`InboundEvent`].
pub enum EventView {
    Line(Seq<char>),
    ReadError(FailView),
    Eof,
}

impl View for InboundEvent {
    type V = EventView;

    open spec fn view(&self) -> EventView {
        match self {
            InboundEvent::Line(l) => EventView::Line(l@),
            InboundEvent::ReadError(f) => EventView::ReadError(f@),
            InboundEvent::Eof => EventView::Eof,
        }
    }
}

/// The views of a sequence of inbound events.
pub open spec fn ev_views(evs: Seq<InboundEvent>) -> Seq<EventView> {
    evs.map_values(|e: InboundEvent| e@)
}

/// The views of a sequence of failure reports.
pub open spec fn err_views(es: Seq<BridgeError>) -> Seq<ErrView> {
    es.map_values(|e: BridgeError| e@)
}

/// Protocol commands for a list of canonical message texts, in order.
pub open spec fn protocol_views(ts: Seq<Seq<char>>) -> Seq<CmdView> {
    ts.map_values(|t: Seq<char>| CmdView::Protocol(t))
}

/// The commands that one decoded line contributes to the inbound
/// destination: all its messages in order under the lenient policy, nothing
/// when the strict policy rejects an ambiguous line, and the line itself as
/// one opaque message when the delegated decoder would abort on it.
pub open spec fn line_cmds(l: Seq<char>, policy: DecodePolicy) -> Seq<CmdView> {
    if !decoder_safe(l) {
        seq![CmdView::Protocol(l)]
    } else if policy == DecodePolicy::Strict && line_msg_texts(l).len() > 1 {
        Seq::<CmdView>::empty()
    } else {
        protocol_views(line_msg_texts(l))
    }
}

/// The report that a read failure carries: wrapped with the source-to-core
/// direction context.
pub open spec fn read_failure_view(f: FailView) -> ErrView {
    ErrView {
        kind: ErrorKind::ReadFailure,
        direction: Direction::IntoCore,
        fatal: f.fatal,
        detail: f.detail,
    }
}

/// What one inbound event contributes to the inbound destination.
pub open spec fn event_cmds(ev: EventView, policy: DecodePolicy) -> Seq<CmdView> {
    match ev {
        EventView::Line(l) => line_cmds(l, policy),
        EventView::ReadError(_) => Seq::<CmdView>::empty(),
        EventView::Eof => Seq::<CmdView>::empty(),
    }
}

/// What one inbound event contributes to the error-report channel: exactly
/// one report per read failure or strict-mode ambiguity, none otherwise.
pub open spec fn event_reports(ev: EventView, policy: DecodePolicy) -> Seq<ErrView> {
    match ev {
        EventView::Line(l) => if decoder_safe(l) && policy == DecodePolicy::Strict
            && line_msg_texts(l).len() > 1 {
            seq![ambiguity_view(l)]
        } else {
            Seq::<ErrView>::empty()
        },
        EventView::ReadError(f) => seq![read_failure_view(f)],
        EventView::Eof => Seq::<ErrView>::empty(),
    }
}

/// Whether an event ends the inbound pump: a clean end of stream, or a read
/// failure classified fatal. A non-fatal failure leaves the pump running.
pub open spec fn event_stops(ev: EventView) -> bool {
    match ev {
        EventView::Line(_) => false,
        EventView::ReadError(f) => f.fatal,
        EventView::Eof => true,
    }
}

/// How many of the pending events the inbound pump consumes: everything up
/// to and including the first stopping event.
pub open spec fn consumed_count(evs: Seq<EventView>) -> nat
    decreases evs.len(),
{
    if evs.len() == 0 {
        0
    } else if event_stops(evs[0]) {
        1
    } else {
        1 + consumed_count(evs.drop_first())
    }
}

/// Everything the consumed events contribute to the inbound destination, in
/// order.
pub open spec fn inbound_cmds(evs: Seq<EventView>, policy: DecodePolicy) -> Seq<CmdView>
    decreases evs.len(),
{
    if evs.len() == 0 {
        Seq::<CmdView>::empty()
    } else if event_stops(evs[0]) {
        event_cmds(evs[0], policy)
    } else {
        event_cmds(evs[0], policy) + inbound_cmds(evs.drop_first(), policy)
    }
}

/// Everything the consumed events contribute to the error-report channel, in
/// order.
pub open spec fn inbound_reports(evs: Seq<EventView>, policy: DecodePolicy) -> Seq<ErrView>
    decreases evs.len(),
{
    if evs.len() == 0 {
        Seq::<ErrView>::empty()
    } else if event_stops(evs[0]) {
        event_reports(evs[0], policy)
    } else {
        event_reports(evs[0], policy) + inbound_reports(evs.drop_first(), policy)
    }
}

/// The pump never consumes more events than it is given.
pub proof fn lemma_consumed_count_le(evs: Seq<EventView>)
    ensures
        consumed_count(evs) <= evs.len(),
    decreases evs.len(),
{
    if evs.len() == 0 {
    } else if event_stops(evs[0]) {
    } else {
        lemma_consumed_count_le(evs.drop_first());
    }
}

/// Pushes every message of one decoded line into the inbound destination,
/// wrapped as protocol commands, in order.
fn push_msgs(q: &mut SegQueue<Command>, ms: Vec<Msg>)
    ensures
        cmd_views(queue_items(*final(q))) == cmd_views(queue_items(*old(q))) + protocol_views(
            msg_texts(ms@),
        ),
{
    let ghost all = msg_texts(ms@);
    let mut rest = ms;
    while rest.len() > 0
        invariant
            cmd_views(queue_items(*q)) + protocol_views(msg_texts(rest@)) == cmd_views(
                queue_items(*old(q)),
            ) + protocol_views(all),
        decreases rest.len(),
    {
        let ghost items0 = queue_items(*q);
        let ghost rest0 = rest@;
        let m = rest.remove(0);
        let c = Command::from_msg(m);
        queue_push(q, c);
        proof {
            assert(cmd_views(items0.push(c)) =~= cmd_views(items0).push(CmdView::Protocol(m@)));
            assert(protocol_views(msg_texts(rest0)) =~= seq![CmdView::Protocol(m@)]
                + protocol_views(msg_texts(rest@)));
            assert(cmd_views(items0).push(CmdView::Protocol(m@)) + protocol_views(msg_texts(rest@))
                =~= cmd_views(items0) + protocol_views(msg_texts(rest0)));
        }
    }
    proof {
        assert(msg_texts(rest@) =~= Seq::<Seq<char>>::empty());
        assert(cmd_views(queue_items(*q)) =~= cmd_views(queue_items(*q)) + protocol_views(
            msg_texts(rest@),
        ));
    }
}

/// What one run of the inbound pump did: the failure reports it emitted for
/// the error-report channel, in order, and how many events it consumed.
pub struct InboundRun {
    pub reports: Vec<BridgeError>,
    pub consumed: usize,
}

/// The inbound pump over a batch of pending events: consumes events up to
/// and including the first stopping one (end of stream, or a fatal read
/// failure), pushes every decoded message into the inbound destination in
/// order, and emits exactly one report per failure.
pub fn run_inbound(events: &Vec<InboundEvent>, policy: DecodePolicy, q: &mut SegQueue<Command>) -> (
    r: InboundRun)
    ensures
        r.consumed == consumed_count(ev_views(events@)),
        cmd_views(queue_items(*final(q))) == cmd_views(queue_items(*old(q))) + inbound_cmds(
            ev_views(events@),
            policy,
        ),
        err_views(r.reports@) == inbound_reports(ev_views(events@), policy),
{
    let mut reports: Vec<BridgeError> = Vec::new();
    proof {
        assert(ev_views(events@).skip(0) =~= ev_views(events@));
        assert(err_views(reports@) =~= Seq::<ErrView>::empty());
    }
    let consumed = run_inbound_from(events, 0, policy, q, &mut reports);
    InboundRun { reports, consumed }
}

/// The inbound pump on the events from position `i` on.
fn run_inbound_from(
    events: &Vec<InboundEvent>,
    i: usize,
    policy: DecodePolicy,
    q: &mut SegQueue<Command>,
    reports: &mut Vec<BridgeError>,
) -> (consumed: usize)
    requires
        i <= events@.len(),
    ensures
        consumed == consumed_count(ev_views(events@).skip(i as int)),
        cmd_views(queue_items(*final(q))) == cmd_views(queue_items(*old(q))) + inbound_cmds(
            ev_views(events@).skip(i as int),
            policy,
        ),
        err_views(final(reports)@) == err_views(old(reports)@) + inbound_reports(
            ev_views(events@).skip(i as int),
            policy,
        ),
    decreases events@.len() - i,
{
    let ghost evs = ev_views(events@).skip(i as int);
    if i == events.len() {
        proof {
            assert(evs.len() == 0);
            assert(cmd_views(queue_items(*q)) =~= cmd_views(queue_items(*q)) + inbound_cmds(
                evs,
                policy,
            ));
            assert(err_views(reports@) =~= err_views(reports@) + inbound_reports(evs, policy));
        }
        return 0;
    }
    proof {
        assert(evs[0] == events@[i as int]@);
        assert(evs.drop_first() =~= ev_views(events@).skip(i as int + 1));
        lemma_consumed_count_le(evs.drop_first());
    }
    let ghost items0 = cmd_views(queue_items(*q));
    let ghost reports0 = err_views(reports@);
    match &events[i] {
        InboundEvent::Eof => {
            proof {
                assert(items0 =~= items0 + inbound_cmds(evs, policy));
                assert(reports0 =~= reports0 + inbound_reports(evs, policy));
            }
            1
        },
        InboundEvent::ReadError(f) => {
            let fatal = f.fatal;
            reports.push(BridgeError::read_failure(f));
            proof {
                assert(err_views(reports@) =~= reports0 + event_reports(evs[0], policy));
            }
            if fatal {
                proof {
                    assert(items0 =~= items0 + inbound_cmds(evs, policy));
                }
                1
            } else {
                let rest = run_inbound_from(events, i + 1, policy, q, reports);
                proof {
                    assert(items0 + (Seq::<CmdView>::empty() + inbound_cmds(
                        evs.drop_first(),
                        policy,
                    )) =~= items0 + inbound_cmds(evs, policy));
                    assert(reports0 + event_reports(evs[0], policy) + inbound_reports(
                        evs.drop_first(),
                        policy,
                    ) =~= reports0 + inbound_reports(evs, policy));
                }
                1 + rest
            }
        },
        InboundEvent::Line(l) => {
            match decode_line(l.as_str(), policy) {
                Ok(ms) => {
                    proof {
                        assert(protocol_views(msg_texts(ms@)) =~= line_cmds(l@, policy));
                    }
                    push_msgs(q, ms);
                    proof {
                        assert(err_views(reports@) =~= reports0 + event_reports(evs[0], policy));
                    }
                },
                Err(e) => {
                    reports.push(e);
                    proof {
                        assert(line_cmds(l@, policy) =~= Seq::<CmdView>::empty());
                        assert(err_views(reports@) =~= reports0 + event_reports(evs[0], policy));
                    }
                },
            }
            let ghost items1 = cmd_views(queue_items(*q));
            let ghost reports1 = err_views(reports@);
            let rest = run_inbound_from(events, i + 1, policy, q, reports);
            proof {
                assert(items1 == items0 + event_cmds(evs[0], policy));
                assert(items0 + event_cmds(evs[0], policy) + inbound_cmds(evs.drop_first(), policy)
                    =~= items0 + inbound_cmds(evs, policy));
                assert(reports1 + inbound_reports(evs.drop_first(), policy) =~= reports0
                    + inbound_reports(evs, policy));
            }
            1 + rest
        },
    }
}

/// What one step of the channel-to-queue bridge did.
pub enum BridgeStep {
    /// A message arrived and was pushed into the inbound destination.
    Forwarded,
    /// A failure arrived inline and was sent on the error-report channel.
    Reported,
    /// A failure arrived but the error-report channel is closed; the leg
    /// must terminate rather than spin. The report is handed back.
    ReportFailed(BridgeError),
    /// Nothing is buffered yet: the caller should back off briefly.
    Idle,
    /// The source channel is closed and drained: the leg is done.
    SourceDone,
}

/// One step of the pump that bridges the fallible inbound channel into the
/// decoupling queue: a buffered message is classified and pushed, a buffered
/// failure is forwarded on the error-report channel with a non-blocking
/// send, and a closed source ends the leg after the receiver is closed.
pub fn bridge_step(rx: &mut UciTryReceiver, q: &mut SegQueue<Command>, err_tx: &ErrSender) -> (st:
    BridgeStep)
    ensures
        match st {
            BridgeStep::Forwarded => exists|t: Seq<char>|
                cmd_views(queue_items(*final(q))) == cmd_views(queue_items(*old(q))).push(
                    CmdView::Protocol(t),
                ),
            _ => queue_items(*final(q)) == queue_items(*old(q)),
        },
{
    match chan_try_recv(rx) {
        RecvOutcome::Item(res) => match res {
            Ok(m) => {
                let ghost t = m@;
                let c = Command::from_msg(m);
                queue_push(q, c);
                proof {
                    assert(cmd_views(queue_items(*old(q)).push(c)) =~= cmd_views(
                        queue_items(*old(q)),
                    ).push(CmdView::Protocol(t)));
                }
                BridgeStep::Forwarded
            },
            Err(e) => match chan_send(err_tx, e) {
                Ok(_) => BridgeStep::Reported,
                Err(e) => BridgeStep::ReportFailed(e),
            },
        },
        RecvOutcome::Empty => BridgeStep::Idle,
        RecvOutcome::Closed => {
            chan_close_receiver(rx);
            BridgeStep::SourceDone
        },
    }
}

/// What one step of the queue-to-channel drain did.
pub enum DrainStep {
    /// The head of the queue moved to the outbound channel.
    Moved,
    /// The queue is empty for now: the caller should back off briefly
    /// instead of busy-polling.
    Exhausted,
    /// The outbound channel is closed: a report was sent on the error-report
    /// channel, the sender was closed, and the head is handed back so that
    /// no item is lost.
    DestClosed(Msg),
}

/// One step of the pump that drains the outbound decoupling queue into the
/// outbound channel: pop never blocks, the head moves exactly once, and a
/// closed destination ends the leg after a non-blocking failure report.
pub fn outbound_drain_step(q: &mut SegQueue<Msg>, tx: &UciSender, err_tx: &ErrSender) -> (st:
    DrainStep)
    ensures
        match st {
            DrainStep::Moved => uci_queue_items(*old(q)).len() > 0 && uci_queue_items(*final(q))
                == uci_queue_items(*old(q)).drop_first(),
            DrainStep::Exhausted => uci_queue_items(*old(q)).len() == 0 && uci_queue_items(
                *final(q),
            ) == uci_queue_items(*old(q)),
            DrainStep::DestClosed(m) => uci_queue_items(*old(q)).len() > 0 && m == uci_queue_items(
                *old(q),
            )[0] && uci_queue_items(*final(q)) == uci_queue_items(*old(q)).drop_first(),
        },
{
    match uci_queue_pop(q) {
        None => DrainStep::Exhausted,
        Some(m) => match chan_send(tx, m) {
            Ok(_) => DrainStep::Moved,
            Err(m) => {
                let report = BridgeError::channel_closed(Direction::OutOfCore);
                let _ = chan_send(err_tx, report);
                chan_close_sender(tx);
                DrainStep::DestClosed(m)
            },
        },
    }
}

/// How one drain pass over the outbound decoupling queue ended.
pub enum OutboundRun {
    /// Every already-enqueued message was moved to the outbound channel, in
    /// FIFO order, and the queue is empty.
    Drained,
    /// The outbound channel closed part way; the head that could not be
    /// sent is handed back, and only what stood behind it stays enqueued.
    Stopped(Msg),
}

/// One drain pass of the outbound pump: moves already-enqueued messages
/// from the decoupling queue to the outbound channel, head first, until the
/// queue is empty or the channel is found closed, and then returns rather
/// than spin or consume further input.
pub fn run_outbound(q: &mut SegQueue<Msg>, tx: &UciSender, err_tx: &ErrSender) -> (r: OutboundRun)
    ensures
        match r {
            OutboundRun::Drained => uci_queue_items(*final(q)) == Seq::<Msg>::empty(),
            OutboundRun::Stopped(m) => exists|i: int|
                0 <= i < uci_queue_items(*old(q)).len() && m == uci_queue_items(*old(q))[i]
                    && uci_queue_items(*final(q)) == uci_queue_items(*old(q)).skip(i + 1),
        },
{
    let ghost mut moved: int = 0;
    loop
        invariant
            0 <= moved <= uci_queue_items(*old(q)).len(),
            uci_queue_items(*q) == uci_queue_items(*old(q)).skip(moved),
        decreases uci_queue_items(*q).len(),
    {
        let ghost pending = uci_queue_items(*q);
        match outbound_drain_step(q, tx, err_tx) {
            DrainStep::Exhausted => {
                proof {
                    assert(uci_queue_items(*q) =~= Seq::<Msg>::empty());
                }
                return OutboundRun::Drained;
            },
            DrainStep::Moved => {
                proof {
                    assert(pending.drop_first() =~= uci_queue_items(*old(q)).skip(moved + 1));
                    moved = moved + 1;
                }
            },
            DrainStep::DestClosed(m) => {
                proof {
                    assert(m == uci_queue_items(*old(q))[moved]);
                    assert(pending.drop_first() =~= uci_queue_items(*old(q)).skip(moved + 1));
                }
                return OutboundRun::Stopped(m);
            },
        }
    }
}

/// The report that a write failure carries: wrapped with the core-to-sink
/// direction context.
pub open spec fn write_failure_view(f: FailView) -> ErrView {
    ErrView {
        kind: ErrorKind::WriteFailure,
        direction: Direction::OutOfCore,
        fatal: f.fatal,
        detail: f.detail,
    }
}

/// Whether a write failure ends the outbound pump: only a fatal one does;
/// the pump reports a non-fatal one and goes on writing.
pub open spec fn write_stops(f: FailView) -> bool {
    f.fatal
}

/// What one write failure did to the outbound pump.
pub enum WriteStep {
    /// The failure was reported; it was not fatal, so the pump keeps
    /// writing.
    Reported,
    /// The failure was reported; it was fatal, so the pump ends.
    Fatal,
    /// The error-report channel is closed: the report comes back and the
    /// pump ends rather than spin.
    ReportFailed(BridgeError),
}

/// The outbound pump's decision on one write failure: the failure is
/// wrapped with the core-to-sink direction and sent on the error-report
/// channel with a non-blocking send, and the pump goes on exactly when the
/// failure does not end it and the report was accepted.
pub fn on_write_failure(f: &IoFailure, err_tx: &ErrSender) -> (st: WriteStep)
    ensures
        st is Reported ==> !write_stops(f@),
        st is Fatal ==> write_stops(f@),
        st matches WriteStep::ReportFailed(e) ==> e@ == write_failure_view(f@),
{
    let fatal = f.fatal;
    match chan_send(err_tx, BridgeError::write_failure(f)) {
        Ok(_) => if fatal {
            WriteStep::Fatal
        } else {
            WriteStep::Reported
        },
        Err(e) => WriteStep::ReportFailed(e),
    }
}

/// What one piping step did with its item.
pub enum PipeStep {
    /// The classified command went out on the command channel.
    Forwarded,
    /// The command channel is closed: the classified command comes back so
    /// nothing is lost, and the pipe must stop.
    DestClosed(Command),
}

/// One step of the pump that pipes the fallible message channel into the
/// command channel. The surrounding task receives one result and hands it
/// here; it is classified exactly as [`Command::from_result`] does — a
/// message becomes a protocol command, an inline failure an error command —
/// and forwarded. Nothing can be promised about the channel's contents from
/// the sending end, so the contract pins what leaves the step instead: a
/// command refused by a closed destination is handed back, and it is
/// exactly the classification of the item.
pub fn pipe_to_cmd_stream(item: Result<Msg, BridgeError>, tx: &CmdSender) -> (st: PipeStep)
    ensures
        st matches PipeStep::DestClosed(c) ==> c@ == classified(item),
{
    match chan_send(tx, Command::from_result(item)) {
        Ok(_) => PipeStep::Forwarded,
        Err(c) => PipeStep::DestClosed(c),
    }
}

/// How many read failures stand among the events the pump consumes.
pub open spec fn read_failure_count(evs: Seq<EventView>) -> nat
    decreases evs.len(),
{
    if evs.len() == 0 {
        0
    } else {
        let head: nat = if evs[0] is ReadError {
            1
        } else {
            0
        };
        if event_stops(evs[0]) {
            head
        } else {
            head + read_failure_count(evs.drop_first())
        }
    }
}

/// Order and completeness: when every line is safe for the delegated
/// decoder and decodes to exactly one message under the default, lenient
/// policy, feeding N lines into the inbound pump contributes exactly N
/// protocol commands to the inbound destination, in the same relative order
/// as the lines.
pub proof fn lemma_inbound_order_and_completeness(lines: Seq<Seq<char>>)
    ensures
        (forall|i: int|
            0 <= i < lines.len() ==> decoder_safe(lines[i]) && line_msg_texts(lines[i]).len()
                == 1) ==> {
            let cs = inbound_cmds(
                lines.map_values(|l: Seq<char>| EventView::Line(l)),
                DecodePolicy::Lenient,
            );
            &&& cs.len() == lines.len()
            &&& forall|i: int|
                0 <= i < lines.len() ==> cs[i] == CmdView::Protocol(line_msg_texts(lines[i])[0])
        },
    decreases lines.len(),
{
    if forall|i: int|
        0 <= i < lines.len() ==> decoder_safe(lines[i]) && line_msg_texts(lines[i]).len() == 1 {
        let evs = lines.map_values(|l: Seq<char>| EventView::Line(l));
        let cs = inbound_cmds(evs, DecodePolicy::Lenient);
        if lines.len() == 0 {
        } else {
            let rest = lines.drop_first();
            assert(forall|i: int|
                0 <= i < rest.len() ==> decoder_safe(rest[i]) && line_msg_texts(rest[i]).len()
                    == 1) by {
                assert(forall|i: int| 0 <= i < rest.len() ==> rest[i] == lines[i + 1]);
            }
            lemma_inbound_order_and_completeness(rest);
            let evs_rest = rest.map_values(|l: Seq<char>| EventView::Line(l));
            assert(evs.drop_first() =~= evs_rest);
            let head = line_cmds(lines[0], DecodePolicy::Lenient);
            assert(head =~= seq![CmdView::Protocol(line_msg_texts(lines[0])[0])]);
            assert(cs == head + inbound_cmds(evs_rest, DecodePolicy::Lenient));
            assert(forall|i: int|
                0 <= i < lines.len() ==> cs[i] == CmdView::Protocol(line_msg_texts(lines[i])[0]))
                by {
                let cs_rest = inbound_cmds(evs_rest, DecodePolicy::Lenient);
                assert(forall|i: int| 1 <= i < lines.len() ==> cs[i] == cs_rest[i - 1]);
                assert(forall|i: int| 1 <= i < lines.len() ==> lines[i] == rest[i - 1]);
            }
        }
    }
}

/// Error forwarding: among the events the inbound pump consumes, each read
/// failure produces exactly one report under the lenient policy; a run
/// without a stopping event consumes everything, and the first stopping
/// event — a fatal failure or the end of the stream — is the last one
/// consumed, so a non-fatal failure leaves the pump running and a fatal one
/// ends it.
pub proof fn lemma_error_forwarding(evs: Seq<EventView>)
    ensures
        inbound_reports(evs, DecodePolicy::Lenient).len() == read_failure_count(evs),
        (forall|i: int| 0 <= i < evs.len() ==> !event_stops(evs[i])) ==> consumed_count(evs)
            == evs.len(),
        forall|i: int|
            0 <= i < evs.len() && event_stops(evs[i]) && (forall|j: int|
                0 <= j < i ==> !event_stops(evs[j])) ==> consumed_count(evs) == i + 1,
    decreases evs.len(),
{
    if evs.len() == 0 {
    } else {
        let rest = evs.drop_first();
        lemma_error_forwarding(rest);
        assert(forall|i: int| 0 <= i < rest.len() ==> rest[i] == evs[i + 1]);
        if event_stops(evs[0]) {
            match evs[0] {
                EventView::ReadError(f) => {
                    assert(inbound_reports(evs, DecodePolicy::Lenient) == event_reports(
                        evs[0],
                        DecodePolicy::Lenient,
                    ));
                },
                _ => {},
            }
            assert(forall|i: int|
                0 <= i < evs.len() && event_stops(evs[i]) && (forall|j: int|
                    0 <= j < i ==> !event_stops(evs[j])) ==> consumed_count(evs) == i + 1) by {
                assert(event_stops(evs[0]));
            }
        } else {
            assert(inbound_reports(evs, DecodePolicy::Lenient).len() == event_reports(
                evs[0],
                DecodePolicy::Lenient,
            ).len() + inbound_reports(rest, DecodePolicy::Lenient).len());
            match evs[0] {
                EventView::Line(l) => {
                    assert(event_reports(evs[0], DecodePolicy::Lenient).len() == 0);
                },
                EventView::ReadError(f) => {
                    assert(event_reports(evs[0], DecodePolicy::Lenient).len() == 1);
                },
                EventView::Eof => {},
            }
            assert forall|i: int|
                0 <= i < evs.len() && event_stops(evs[i]) && (forall|j: int|
                    0 <= j < i ==> !event_stops(evs[j])) implies consumed_count(evs) == i
                + 1 by {
                assert(i >= 1);
                assert(event_stops(rest[i - 1]));
                assert(forall|j: int| 0 <= j < i - 1 ==> !event_stops(rest[j]));
                assert(consumed_count(rest) == i);
            }
        }
    }
}

} // verus!
