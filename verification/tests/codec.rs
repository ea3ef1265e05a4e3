use vampirc_io::codec::{decode_line, DecodePolicy, Msg, UciCodec};
use vampirc_io::error::{Direction, ErrorKind};
use vampirc_uci::{Duration, Serializable, UciInfoAttribute, UciMessage, UciMove, UciSquare};

fn complex_info() -> UciMessage {
    UciMessage::Info(vec![
        UciInfoAttribute::from_centipawns(20),
        UciInfoAttribute::Depth(3),
        UciInfoAttribute::Nodes(423),
        UciInfoAttribute::Time(Duration::milliseconds(15)),
        UciInfoAttribute::Pv(vec![
            UciMove::from_to(UciSquare::from('f', 1), UciSquare::from('c', 4)),
            UciMove::from_to(UciSquare::from('g', 8), UciSquare::from('f', 6)),
            UciMove::from_to(UciSquare::from('b', 1), UciSquare::from('c', 3)),
        ]),
    ])
}

#[test]
fn test_encode() {
    let m = Msg::new(UciMessage::UciOk.serialize());
    let c = UciCodec::new();
    let mut out = String::new();
    c.encode(&m, &mut out);
    assert_eq!("uciok\n", out.as_str());
}

#[test]
fn test_encode_complex() {
    let m = Msg::new(complex_info().serialize());
    let c = UciCodec::new();
    let mut out = String::new();
    c.encode(&m, &mut out);
    assert_eq!(
        "info score cp 20 depth 3 nodes 423 time 15 pv f1c4 g8f6 b1c3\n",
        out.as_str()
    );
}

#[test]
fn test_decode() {
    let m = Msg::new(UciMessage::UciOk.serialize());
    let expected = m.clone();
    let c = UciCodec::new();
    let mut buf = String::new();
    c.encode(&m, &mut buf);
    let line = buf.trim_end_matches('\n');
    let mr = c.decode(line).unwrap().unwrap();
    assert_eq!(expected.text(), mr.text());
}

#[test]
fn test_decode_complex() {
    let m = Msg::new(complex_info().serialize());
    let expected = m.clone();
    let c = UciCodec::new();
    let mut buf = String::new();
    c.encode(&m, &mut buf);
    let line = buf.trim_end_matches('\n');
    let mr = c.decode(line).unwrap().unwrap();
    assert_eq!(expected.text(), mr.text());
}

#[test]
fn round_trip_sample_set() {
    let samples = vec![
        UciMessage::Uci,
        UciMessage::IsReady,
        UciMessage::UciNewGame,
        UciMessage::Stop,
        UciMessage::PonderHit,
        UciMessage::Quit,
        UciMessage::UciOk,
        UciMessage::ReadyOk,
        complex_info(),
    ];
    let c = UciCodec::new();
    for sample in samples {
        let m = Msg::new(sample.serialize());
        let mut buf = String::new();
        c.encode(&m, &mut buf);
        let line = buf.trim_end_matches('\n');
        let back = c.decode(line).unwrap().unwrap();
        assert_eq!(m.text(), back.text());
    }
}

#[test]
fn decode_blank_line() {
    let c = UciCodec::new();
    assert!(c.decode("").unwrap().is_none());
    let ms = decode_line("", DecodePolicy::Lenient).unwrap();
    assert!(ms.is_empty());
}

#[test]
fn decode_ambiguous_strict() {
    let c = UciCodec::new();
    let e = c.decode("uci\nisready").unwrap_err();
    assert_eq!(e.kind, ErrorKind::DecodeAmbiguity);
    assert_eq!(e.direction, Direction::IntoCore);
    assert!(!e.fatal);
    assert_eq!(e.detail.as_str(), "uci\nisready");
    let e2 = decode_line("uci\nisready", DecodePolicy::Strict).unwrap_err();
    assert_eq!(e2.kind, ErrorKind::DecodeAmbiguity);
}

#[test]
fn decode_flatten_lenient() {
    let ms = decode_line("uci\nisready", DecodePolicy::Lenient).unwrap();
    assert_eq!(ms.len(), 2);
    assert_eq!(ms[0].text().as_str(), "uci");
    assert_eq!(ms[1].text().as_str(), "isready");
}

#[test]
fn decode_unknown_line_is_catch_all() {
    let c = UciCodec::new();
    let m = c.decode("not really a message").unwrap().unwrap();
    assert_eq!(
        m.text().as_str(),
        UciMessage::Unknown("not really a message".to_string(), None).serialize().as_str()
    );
}

#[test]
fn overflowing_numeral_is_passed_through_whole() {
    let c = UciCodec::new();
    for line in ["go depth 300", "info depth 300", "info seldepth 999 nodes 1", "go mate 256",
        "go movestogo 300", "go wtime 100movestogo 300", "GO DEPTH 300"] {
        let m = c.decode(line).unwrap().unwrap();
        assert_eq!(m.text().as_str(), line);
        let ms = decode_line(line, DecodePolicy::Lenient).unwrap();
        assert_eq!(ms.len(), 1);
        assert_eq!(ms[0].text().as_str(), line);
    }
}

#[test]
fn in_range_numerals_still_decode() {
    let c = UciCodec::new();
    let m = c.decode("go depth 255").unwrap().unwrap();
    assert_eq!(m.text().as_str(), "go depth 255 ");
    let m = c.decode("go depth 30").unwrap().unwrap();
    assert_eq!(m.text().as_str(), "go depth 30 ");
    // Wide numerals are fine in the fields the decoder reads wide.
    let m = c.decode("info time 999").unwrap().unwrap();
    assert_eq!(m.text().as_str(), "info time 999");
    let m = c.decode("info nodes 56435234425").unwrap().unwrap();
    assert_eq!(m.text().as_str(), "info nodes 56435234425");
}
