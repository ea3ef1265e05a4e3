use vampirc_io::parse::{LineMapper, Parser};
use vampirc_uci::{Serializable, UciMessage, UciTimeControl};

#[test]
fn test_read_uci() {
    let lines = vec!["uci".to_string(), "go ponder".to_string()];
    let parser = Parser::new_uci();
    let msgs = parser.poll_msg(&lines);
    assert_eq!(msgs.len(), 2);
    assert_eq!(msgs[0].text().as_str(), UciMessage::Uci.serialize().as_str());
    let go_ponder = UciMessage::Go { time_control: Some(UciTimeControl::Ponder), search_control: None };
    assert_eq!(msgs[1].text().as_str(), go_ponder.serialize().as_str());
}

#[test]
fn test_string_parser() {
    let lines = vec!["AbC".to_string(), "DeF".to_string()];
    let parser = Parser::new_string();
    let m = parser.poll_msg(&lines);
    assert_eq!(m.len(), 2);
    assert_eq!(m[0].text().as_str(), "AbC");
    assert_eq!(m[1].text().as_str(), "DeF");
}

#[test]
fn blank_lines_yield_nothing_under_uci_mapper() {
    let parser = Parser::new(LineMapper::Uci);
    let msgs = parser.poll_msg(&vec!["".to_string(), "uci".to_string(), "".to_string()]);
    assert_eq!(msgs.len(), 1);
    assert_eq!(msgs[0].text().as_str(), "uci");
}

#[test]
fn plain_mapper_keeps_a_line_whole() {
    let parser = Parser::new(LineMapper::Plain);
    let msgs = parser.map_line(&"uci\u{20}isready".to_string());
    assert_eq!(msgs.len(), 1);
    assert_eq!(msgs[0].text().as_str(), "uci isready");
}
