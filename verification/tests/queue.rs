use vampirc_io::codec::Msg;
use vampirc_io::command::{Command, CommandKind, Payload};
use vampirc_io::error::ErrorKind;
use vampirc_io::handler::QueueBasedHandler;
use vampirc_io::queue::{drain_queue, new_cmd_queue, push_all};

#[test]
fn queue_exactly_once_sequential() {
    let mut q = new_cmd_queue();
    let mut cs: Vec<Command> = Vec::new();
    for i in 0..10u64 {
        cs.push(Command::new_internal_cmd(&Payload { id: i, text: format!("cmd-{}", i) }));
    }
    push_all(&mut q, cs);
    let out = drain_queue(&mut q);
    assert_eq!(out.len(), 10);
    for (i, c) in out.iter().enumerate() {
        assert_eq!(c.kind(), CommandKind::InternalCommand);
        assert_eq!(c.payload().unwrap().id, i as u64);
    }
    assert!(drain_queue(&mut q).is_empty());
}

#[test]
fn queue_concurrent_pushes_deliver_exactly_once() {
    let q = new_cmd_queue();
    let per_producer: u64 = 100;
    crossbeam::scope(|s| {
        for p in 0..3u64 {
            let qr = &q;
            s.spawn(move |_| {
                for i in 0..per_producer {
                    let c = Command::new_internal_cmd(&Payload {
                        id: p * 1000 + i,
                        text: String::new(),
                    });
                    qr.push(c);
                }
            });
        }
    })
    .unwrap();

    let mut q = q;
    let out = drain_queue(&mut q);
    assert_eq!(out.len(), 300);

    let mut ids: Vec<u64> = out.iter().map(|c| c.payload().unwrap().id).collect();
    ids.sort();
    ids.dedup();
    assert_eq!(ids.len(), 300);

    for p in 0..3u64 {
        let own: Vec<u64> = out
            .iter()
            .map(|c| c.payload().unwrap().id)
            .filter(|id| id / 1000 == p)
            .collect();
        assert_eq!(own.len(), per_producer as usize);
        for w in own.windows(2) {
            assert!(w[0] < w[1]);
        }
    }
}

#[test]
fn handler_reports_saturation() {
    let mut h = QueueBasedHandler::with_capacity(2);
    h.send(Msg::new("a".to_string())).unwrap();
    h.send(Msg::new("b".to_string())).unwrap();
    let e = h.send(Msg::new("c".to_string())).unwrap_err();
    assert_eq!(e.kind, ErrorKind::QueueSaturated);
    assert_eq!(e.detail.as_str(), "c");
    assert!(!e.fatal);

    assert_eq!(h.next_outbound().unwrap().text().as_str(), "a");
    h.send(Msg::new("c".to_string())).unwrap();
    assert_eq!(h.next_outbound().unwrap().text().as_str(), "b");
    assert_eq!(h.next_outbound().unwrap().text().as_str(), "c");
    assert!(h.next_outbound().is_none());
}

#[test]
fn handler_delivers_in_fifo_order() {
    let mut h = QueueBasedHandler::with_capacity(2);
    h.deliver(Msg::new("uci".to_string())).unwrap();
    h.deliver(Msg::new("isready".to_string())).unwrap();
    let refused = h.deliver(Msg::new("stop".to_string())).unwrap_err();
    assert_eq!(refused.text().as_str(), "stop");
    assert_eq!(h.next_received().unwrap().text().as_str(), "uci");
    assert_eq!(h.next_received().unwrap().text().as_str(), "isready");
    assert!(h.next_received().is_none());
}
