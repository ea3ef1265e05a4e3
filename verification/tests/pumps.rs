use vampirc_io::channel::{new_channel, new_cmd_channel, new_err_channel, new_try_channel};
use vampirc_io::codec::{DecodePolicy, Msg};
use vampirc_io::command::CommandKind;
use vampirc_io::error::{BridgeError, Direction, ErrorKind, IoFailure};
use vampirc_io::io::{
    bridge_step, on_write_failure, outbound_drain_step, pipe_to_cmd_stream, run_inbound,
    run_outbound, BridgeStep, DrainStep, InboundEvent, OutboundRun, PipeStep, WriteStep,
};
use vampirc_io::queue::{drain_queue, new_cmd_queue, new_uci_queue};
use vampirc_io::serialize::Serializer;
use vampirc_uci::{Serializable, UciMessage, UciTimeControl};

#[test]
fn inbound_order_and_completeness() {
    let mut q = new_cmd_queue();
    let events = vec![
        InboundEvent::Line("uci".to_string()),
        InboundEvent::Line("go ponder".to_string()),
        InboundEvent::Eof,
    ];
    let run = run_inbound(&events, DecodePolicy::Lenient, &mut q);
    assert_eq!(run.consumed, 3);
    assert!(run.reports.is_empty());
    let items = drain_queue(&mut q);
    assert_eq!(items.len(), 2);
    assert_eq!(items[0].kind(), CommandKind::ProtocolMessage);
    assert_eq!(
        items[0].protocol_message().unwrap().text().as_str(),
        UciMessage::Uci.serialize().as_str()
    );
    let go_ponder = UciMessage::Go { time_control: Some(UciTimeControl::Ponder), search_control: None };
    assert_eq!(
        items[1].protocol_message().unwrap().text().as_str(),
        go_ponder.serialize().as_str()
    );
}

#[test]
fn blank_lines_are_retried_without_emission() {
    let mut q = new_cmd_queue();
    let events = vec![
        InboundEvent::Line("".to_string()),
        InboundEvent::Line("isready".to_string()),
        InboundEvent::Line("".to_string()),
    ];
    let run = run_inbound(&events, DecodePolicy::Lenient, &mut q);
    assert_eq!(run.consumed, 3);
    assert!(run.reports.is_empty());
    let items = drain_queue(&mut q);
    assert_eq!(items.len(), 1);
    assert_eq!(items[0].protocol_message().unwrap().text().as_str(), "isready");
}

#[test]
fn error_forwarding() {
    let mut q = new_cmd_queue();
    let events = vec![
        InboundEvent::Line("isready".to_string()),
        InboundEvent::ReadError(IoFailure { fatal: false, detail: "interrupted".to_string() }),
        InboundEvent::Line("stop".to_string()),
        InboundEvent::ReadError(IoFailure { fatal: true, detail: "broken pipe".to_string() }),
        InboundEvent::Line("quit".to_string()),
    ];
    let run = run_inbound(&events, DecodePolicy::Lenient, &mut q);
    assert_eq!(run.reports.len(), 2);
    assert_eq!(run.reports[0].kind, ErrorKind::ReadFailure);
    assert_eq!(run.reports[0].direction, Direction::IntoCore);
    assert!(!run.reports[0].fatal);
    assert_eq!(run.reports[0].detail.as_str(), "interrupted");
    assert!(run.reports[1].fatal);
    assert_eq!(run.reports[1].detail.as_str(), "broken pipe");
    assert_eq!(run.consumed, 4);
    let items = drain_queue(&mut q);
    assert_eq!(items.len(), 2);
    assert_eq!(items[0].protocol_message().unwrap().text().as_str(), "isready");
    assert_eq!(items[1].protocol_message().unwrap().text().as_str(), "stop");
}

#[test]
fn strict_policy_reports_ambiguity_and_goes_on() {
    let mut q = new_cmd_queue();
    let events = vec![
        InboundEvent::Line("uci\nisready".to_string()),
        InboundEvent::Line("stop".to_string()),
    ];
    let run = run_inbound(&events, DecodePolicy::Strict, &mut q);
    assert_eq!(run.consumed, 2);
    assert_eq!(run.reports.len(), 1);
    assert_eq!(run.reports[0].kind, ErrorKind::DecodeAmbiguity);
    let items = drain_queue(&mut q);
    assert_eq!(items.len(), 1);
    assert_eq!(items[0].protocol_message().unwrap().text().as_str(), "stop");
}

#[test]
fn eof_stops_before_later_input() {
    let mut q = new_cmd_queue();
    let events = vec![InboundEvent::Eof, InboundEvent::Line("uci".to_string())];
    let run = run_inbound(&events, DecodePolicy::Lenient, &mut q);
    assert_eq!(run.consumed, 1);
    assert!(run.reports.is_empty());
    assert!(drain_queue(&mut q).is_empty());
}

#[test]
fn outbound_drain_and_close() {
    let mut uq = new_uci_queue();
    uq.push(Msg::new("uciok".to_string()));
    uq.push(Msg::new("readyok".to_string()));
    let (tx, mut rx) = new_channel();
    let (etx, mut erx) = new_err_channel();

    assert!(matches!(outbound_drain_step(&mut uq, &tx, &etx), DrainStep::Moved));
    assert!(matches!(outbound_drain_step(&mut uq, &tx, &etx), DrainStep::Moved));
    assert!(matches!(outbound_drain_step(&mut uq, &tx, &etx), DrainStep::Exhausted));

    assert_eq!(rx.try_recv().unwrap().text().as_str(), "uciok");
    assert_eq!(rx.try_recv().unwrap().text().as_str(), "readyok");

    drop(rx);
    uq.push(Msg::new("bestmove e2e4".to_string()));
    match outbound_drain_step(&mut uq, &tx, &etx) {
        DrainStep::DestClosed(m) => assert_eq!(m.text().as_str(), "bestmove e2e4"),
        _ => panic!("expected the closed destination to end the leg"),
    }
    let report = erx.try_recv().unwrap();
    assert_eq!(report.kind, ErrorKind::ChannelClosed);
    assert_eq!(report.direction, Direction::OutOfCore);
    assert!(report.fatal);
}

#[test]
fn outbound_sink_writes_exact_bytes() {
    let (tx, mut rx) = new_channel();
    tx.unbounded_send(Msg::new(UciMessage::UciOk.serialize())).unwrap();
    let m = rx.try_recv().unwrap();
    let s = Serializer::new().render(&vec![m]);
    assert_eq!(s.as_bytes(), b"uciok\n");
}

#[test]
fn serializer_preserves_submission_order() {
    let ms = vec![
        Msg::new("id name example".to_string()),
        Msg::new("uciok".to_string()),
        Msg::new("readyok".to_string()),
    ];
    let s = Serializer::new().render(&ms);
    assert_eq!(s.as_str(), "id name example\nuciok\nreadyok\n");
}

#[test]
fn bridge_step_routes_messages_and_failures() {
    let (itx, mut irx) = new_try_channel();
    let (etx, mut erx) = new_err_channel();
    let mut q = new_cmd_queue();

    itx.unbounded_send(Ok(Msg::new("uci".to_string()))).unwrap();
    let failure = IoFailure { fatal: false, detail: "hiccup".to_string() };
    itx.unbounded_send(Err(BridgeError::read_failure(&failure))).unwrap();

    assert!(matches!(bridge_step(&mut irx, &mut q, &etx), BridgeStep::Forwarded));
    assert!(matches!(bridge_step(&mut irx, &mut q, &etx), BridgeStep::Reported));
    assert!(matches!(bridge_step(&mut irx, &mut q, &etx), BridgeStep::Idle));

    drop(itx);
    assert!(matches!(bridge_step(&mut irx, &mut q, &etx), BridgeStep::SourceDone));

    let items = drain_queue(&mut q);
    assert_eq!(items.len(), 1);
    assert_eq!(items[0].kind(), CommandKind::ProtocolMessage);
    assert_eq!(items[0].protocol_message().unwrap().text().as_str(), "uci");
    let report = erx.try_recv().unwrap();
    assert_eq!(report.kind, ErrorKind::ReadFailure);
    assert_eq!(report.detail.as_str(), "hiccup");
}

#[test]
fn bridge_step_hands_back_unreportable_failures() {
    let (itx, mut irx) = new_try_channel();
    let (etx, erx) = new_err_channel();
    let mut q = new_cmd_queue();
    drop(erx);
    let failure = IoFailure { fatal: false, detail: "nobody listens".to_string() };
    itx.unbounded_send(Err(BridgeError::read_failure(&failure))).unwrap();
    match bridge_step(&mut irx, &mut q, &etx) {
        BridgeStep::ReportFailed(e) => assert_eq!(e.detail.as_str(), "nobody listens"),
        _ => panic!("expected the closed error-report channel to end the leg"),
    }
    assert!(drain_queue(&mut q).is_empty());
}

#[test]
fn pipe_to_cmd_stream_classifies_each_item() {
    let (ctx, mut crx) = new_cmd_channel();

    let first = pipe_to_cmd_stream(Ok(Msg::new("uci".to_string())), &ctx);
    assert!(matches!(first, PipeStep::Forwarded));
    let failure = IoFailure { fatal: false, detail: "glitch".to_string() };
    let second = pipe_to_cmd_stream(Err(BridgeError::read_failure(&failure)), &ctx);
    assert!(matches!(second, PipeStep::Forwarded));

    let c1 = crx.try_recv().unwrap();
    assert_eq!(c1.kind(), CommandKind::ProtocolMessage);
    assert_eq!(c1.protocol_message().unwrap().text().as_str(), "uci");
    let c2 = crx.try_recv().unwrap();
    assert_eq!(c2.kind(), CommandKind::Error);
    assert_eq!(c2.error().unwrap().detail.as_str(), "glitch");
}

#[test]
fn pipe_to_cmd_stream_hands_back_on_closed_destination() {
    let (ctx, crx) = new_cmd_channel();
    drop(crx);
    match pipe_to_cmd_stream(Ok(Msg::new("uci".to_string())), &ctx) {
        PipeStep::DestClosed(c) => {
            assert_eq!(c.kind(), CommandKind::ProtocolMessage);
            assert_eq!(c.protocol_message().unwrap().text().as_str(), "uci");
        }
        _ => panic!("expected the closed destination to hand the command back"),
    }
}

#[test]
fn write_failure_report_and_continue_unless_fatal() {
    let (etx, mut erx) = new_err_channel();

    let soft = IoFailure { fatal: false, detail: "interrupted write".to_string() };
    assert!(matches!(on_write_failure(&soft, &etx), WriteStep::Reported));
    let report = erx.try_recv().unwrap();
    assert_eq!(report.kind, ErrorKind::WriteFailure);
    assert_eq!(report.direction, Direction::OutOfCore);
    assert!(!report.fatal);
    assert_eq!(report.detail.as_str(), "interrupted write");

    let hard = IoFailure { fatal: true, detail: "closed handle".to_string() };
    assert!(matches!(on_write_failure(&hard, &etx), WriteStep::Fatal));
    assert!(erx.try_recv().unwrap().fatal);
}

#[test]
fn write_failure_report_refused_ends_the_pump() {
    let (etx, erx) = new_err_channel();
    drop(erx);
    let soft = IoFailure { fatal: false, detail: "nobody listens".to_string() };
    match on_write_failure(&soft, &etx) {
        WriteStep::ReportFailed(e) => {
            assert_eq!(e.kind, ErrorKind::WriteFailure);
            assert_eq!(e.detail.as_str(), "nobody listens");
        }
        _ => panic!("expected the closed error-report channel to end the pump"),
    }
}

#[test]
fn overflowing_numeral_passes_through_inbound_whole() {
    let mut q = new_cmd_queue();
    let events = vec![
        InboundEvent::Line("go depth 300".to_string()),
        InboundEvent::Line("isready".to_string()),
    ];
    let run = run_inbound(&events, DecodePolicy::Lenient, &mut q);
    assert_eq!(run.consumed, 2);
    assert!(run.reports.is_empty());
    let items = drain_queue(&mut q);
    assert_eq!(items.len(), 2);
    assert_eq!(items[0].protocol_message().unwrap().text().as_str(), "go depth 300");
    assert_eq!(items[1].protocol_message().unwrap().text().as_str(), "isready");
}

#[test]
fn run_queue_loop() {
    let mut uq = new_uci_queue();
    uq.push(Msg::new(UciMessage::Uci.serialize()));
    uq.push(Msg::new(UciMessage::go_ponder().serialize()));
    let (otx, mut orx) = new_channel();
    let (etx, _erx) = new_err_channel();

    assert!(matches!(run_outbound(&mut uq, &otx, &etx), OutboundRun::Drained));
    assert_eq!(
        orx.try_recv().unwrap().text().as_str(),
        UciMessage::Uci.serialize().as_str()
    );
    assert_eq!(
        orx.try_recv().unwrap().text().as_str(),
        UciMessage::go_ponder().serialize().as_str()
    );
    assert!(orx.try_recv().is_err());
}

#[test]
fn run_outbound_stops_at_closed_destination() {
    let mut uq = new_uci_queue();
    uq.push(Msg::new("uciok".to_string()));
    uq.push(Msg::new("readyok".to_string()));
    let (otx, orx) = new_channel();
    let (etx, mut erx) = new_err_channel();
    drop(orx);
    match run_outbound(&mut uq, &otx, &etx) {
        OutboundRun::Stopped(m) => assert_eq!(m.text().as_str(), "uciok"),
        _ => panic!("expected the closed destination to stop the pass"),
    }
    assert_eq!(erx.try_recv().unwrap().kind, ErrorKind::ChannelClosed);
}

#[test]
fn run_inb_queue_loop() {
    let (itx, mut irx) = new_try_channel();
    let (etx, _erx) = new_err_channel();
    let mut q = new_cmd_queue();

    itx.unbounded_send(Ok(Msg::new(UciMessage::Uci.serialize()))).unwrap();
    itx.unbounded_send(Ok(Msg::new(UciMessage::go_ponder().serialize()))).unwrap();
    drop(itx);

    assert!(matches!(bridge_step(&mut irx, &mut q, &etx), BridgeStep::Forwarded));
    assert!(matches!(bridge_step(&mut irx, &mut q, &etx), BridgeStep::Forwarded));
    assert!(matches!(bridge_step(&mut irx, &mut q, &etx), BridgeStep::SourceDone));

    let items = drain_queue(&mut q);
    assert_eq!(items.len(), 2);
    assert_eq!(
        items[0].protocol_message().unwrap().text().as_str(),
        UciMessage::Uci.serialize().as_str()
    );
    assert_eq!(
        items[1].protocol_message().unwrap().text().as_str(),
        UciMessage::go_ponder().serialize().as_str()
    );
}
